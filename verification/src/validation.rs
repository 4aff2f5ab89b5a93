use vstd::prelude::*;
use vstd::string::*;
use crate::errors::ErrorFieldDetail;
use crate::models::RegisterUser;

verus! {

/// Whether std's Unicode tables class this character as lowercase.
pub uninterp spec fn char_lowercase(c: char) -> bool;

/// Whether std's Unicode tables class this character as uppercase.
pub uninterp spec fn char_uppercase(c: char) -> bool;

/// Whether std's Unicode tables class this character as numeric.
pub uninterp spec fn char_numeric(c: char) -> bool;

/// Whether std's Unicode tables class this character as alphanumeric.
pub uninterp spec fn char_alphanumeric(c: char) -> bool;

/// Relies on char::is_lowercase: the outcome depends on the character alone.
pub assume_specification[ char::is_lowercase ](c: char) -> (r: bool)
    ensures
        r == char_lowercase(c),
;

/// Relies on char::is_uppercase: the outcome depends on the character alone.
pub assume_specification[ char::is_uppercase ](c: char) -> (r: bool)
    ensures
        r == char_uppercase(c),
;

/// Relies on char::is_numeric: the outcome depends on the character alone.
pub assume_specification[ char::is_numeric ](c: char) -> (r: bool)
    ensures
        r == char_numeric(c),
;

/// Relies on char::is_alphanumeric: the outcome depends on the character
/// alone.
pub assume_specification[ char::is_alphanumeric ](c: char) -> (r: bool)
    ensures
        r == char_alphanumeric(c),
;

/// Whether the validator crate accepts this string as an email address.
pub uninterp spec fn email_ok(s: Seq<char>) -> bool;

/// Relies on validator::ValidateEmail::validate_email: the HTML5 validity
/// check of an email address, a function of the string alone.
#[verifier::external_body]
pub(crate) fn check_email(s: &String) -> (r: bool)
    ensures
        r == email_ok(s@),
{
    validator::ValidateEmail::validate_email(&s.as_str())
}

/// Some character of the string is lowercase.
pub open spec fn has_lowercase(s: Seq<char>) -> bool {
    exists|i: int| 0 <= i < s.len() && char_lowercase(s[i])
}

/// Some character of the string is uppercase.
pub open spec fn has_uppercase(s: Seq<char>) -> bool {
    exists|i: int| 0 <= i < s.len() && char_uppercase(s[i])
}

/// Some character of the string is numeric.
pub open spec fn has_numeric(s: Seq<char>) -> bool {
    exists|i: int| 0 <= i < s.len() && char_numeric(s[i])
}

/// Some character of the string is not alphanumeric.
pub open spec fn has_special(s: Seq<char>) -> bool {
    exists|i: int| 0 <= i < s.len() && !char_alphanumeric(s[i])
}

/// The code of the first password rule the string breaks, if it breaks
/// one: at least eight characters, then at least one lowercase, uppercase
/// and numeric character, then at least one special character.
pub open spec fn password_error(s: Seq<char>) -> Option<Seq<char>> {
    if s.len() < 8 {
        Some("password_too_short"@)
    } else if !has_lowercase(s) {
        Some("password_no_lowercase"@)
    } else if !has_uppercase(s) {
        Some("password_no_uppercase"@)
    } else if !has_numeric(s) {
        Some("password_no_number"@)
    } else if !has_special(s) {
        Some("password_no_special_char"@)
    } else {
        None
    }
}

fn contains_lowercase(s: &str) -> (r: bool)
    ensures
        r == has_lowercase(s@),
{
    let n = s.unicode_len();
    let mut i: usize = 0;
    while i < n
        invariant
            i <= n,
            n == s@.len(),
            forall|k: int| 0 <= k < i ==> !char_lowercase(#[trigger] s@[k]),
        decreases n - i,
    {
        if s.get_char(i).is_lowercase() {
            return true;
        }
        i = i + 1;
    }
    false
}

fn contains_uppercase(s: &str) -> (r: bool)
    ensures
        r == has_uppercase(s@),
{
    let n = s.unicode_len();
    let mut i: usize = 0;
    while i < n
        invariant
            i <= n,
            n == s@.len(),
            forall|k: int| 0 <= k < i ==> !char_uppercase(#[trigger] s@[k]),
        decreases n - i,
    {
        if s.get_char(i).is_uppercase() {
            return true;
        }
        i = i + 1;
    }
    false
}

fn contains_numeric(s: &str) -> (r: bool)
    ensures
        r == has_numeric(s@),
{
    let n = s.unicode_len();
    let mut i: usize = 0;
    while i < n
        invariant
            i <= n,
            n == s@.len(),
            forall|k: int| 0 <= k < i ==> !char_numeric(#[trigger] s@[k]),
        decreases n - i,
    {
        if s.get_char(i).is_numeric() {
            return true;
        }
        i = i + 1;
    }
    false
}

fn contains_special(s: &str) -> (r: bool)
    ensures
        r == has_special(s@),
{
    let n = s.unicode_len();
    let mut i: usize = 0;
    while i < n
        invariant
            i <= n,
            n == s@.len(),
            forall|k: int| 0 <= k < i ==> char_alphanumeric(#[trigger] s@[k]),
        decreases n - i,
    {
        if !s.get_char(i).is_alphanumeric() {
            return true;
        }
        i = i + 1;
    }
    false
}

/// Checks the password policy: at least eight characters, with at least
/// one lowercase, one uppercase, one numeric and one special character.
/// Returns the code of the first rule the password breaks.
pub fn validate_password(password: &str) -> (r: Result<(), String>)
    ensures
        match r {
            Ok(_) => password_error(password@) is None,
            Err(code) => password_error(password@) == Some(code@),
        },
{
    if password.unicode_len() < 8 {
        return Err(String::from_str("password_too_short"));
    }
    if !contains_lowercase(password) {
        return Err(String::from_str("password_no_lowercase"));
    }
    if !contains_uppercase(password) {
        return Err(String::from_str("password_no_uppercase"));
    }
    if !contains_numeric(password) {
        return Err(String::from_str("password_no_number"));
    }
    if !contains_special(password) {
        return Err(String::from_str("password_no_special_char"));
    }
    Ok(())
}

/// The `(field, message)` views of reported validation details.
pub open spec fn detail_views(ds: Seq<ErrorFieldDetail>) -> Seq<(Seq<char>, Seq<char>)> {
    ds.map_values(|d: ErrorFieldDetail| (d.field@, d.message@))
}

/// The `(field, message)` views of boundary-level field errors.
pub open spec fn pair_views(ps: Seq<(String, String)>) -> Seq<(Seq<char>, Seq<char>)> {
    ps.map_values(|p: (String, String)| (p.0@, p.1@))
}

/// The registration input passes every field rule: a well-formed email, a
/// username of at least three characters, and a password that meets the
/// policy.
pub open spec fn register_input_valid(u: &RegisterUser) -> bool {
    email_ok(u.email@) && u.username@.len() >= 3 && password_error(u.password@) is None
}

/// The `(field, message)` pairs a validation of this input reports, in
/// field order: email, then username, then password.
pub open spec fn register_input_issues(u: &RegisterUser) -> Seq<(Seq<char>, Seq<char>)> {
    (if !email_ok(u.email@) {
        seq![("email"@, "Invalid email format"@)]
    } else {
        Seq::empty()
    }) + (if u.username@.len() < 3 {
        seq![("username"@, "Username must be at least 3 characters"@)]
    } else {
        Seq::empty()
    }) + (match password_error(u.password@) {
        Some(code) => seq![("password"@, code)],
        None => Seq::empty(),
    })
}

impl RegisterUser {
    /// Checks every field rule and reports each failed field with its
    /// message; succeeds exactly when all fields pass.
    pub fn validate(&self) -> (r: Result<(), Vec<ErrorFieldDetail>>)
        ensures
            r is Ok <==> register_input_valid(self),
            r matches Err(v) ==> detail_views(v@) == register_input_issues(self) && v@.len() > 0,
    {
        let mut issues: Vec<ErrorFieldDetail> = Vec::new();
        if !check_email(&self.email) {
            issues.push(
                ErrorFieldDetail {
                    field: String::from_str("email"),
                    message: String::from_str("Invalid email format"),
                },
            );
        }
        if self.username.as_str().unicode_len() < 3 {
            issues.push(
                ErrorFieldDetail {
                    field: String::from_str("username"),
                    message: String::from_str("Username must be at least 3 characters"),
                },
            );
        }
        match validate_password(self.password.as_str()) {
            Ok(_) => {},
            Err(code) => {
                issues.push(ErrorFieldDetail { field: String::from_str("password"), message: code });
            },
        }
        if issues.len() == 0 {
            proof {
                assert(register_input_issues(self).len() == 0);
            }
            Ok(())
        } else {
            proof {
                assert(detail_views(issues@) =~= register_input_issues(self));
            }
            Err(issues)
        }
    }
}

} // verus!
