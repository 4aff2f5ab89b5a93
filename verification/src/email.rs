use vstd::prelude::*;
use crate::config::Config;
use crate::errors::EmailError;

verus! {

/// The capability the flows use to hand a message to the outbound email
/// transport. The flows never rely on its outcome: a delivery failure is
/// the implementation's to log, and is deliberately not surfaced, so no
/// behaviour is stated here.
pub trait EmailServiceBase {
    fn send_email(
        &self,
        to: String,
        cc: Vec<String>,
        bcc: Vec<String>,
        subject: String,
        content: String,
    ) -> Result<(), EmailError>;
}

/// The outbound email collaborator's configuration holder. The SMTP
/// transport itself is I/O and lives outside the library, as an
/// implementation of `EmailServiceBase` over these settings.
pub struct EmailService {
    pub config: Config,
}

impl EmailService {
    pub fn new(config: Config) -> (r: Self)
        ensures
            r.config == config,
    {
        EmailService { config }
    }
}

} // verus!
