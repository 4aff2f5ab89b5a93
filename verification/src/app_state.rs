use vstd::prelude::*;
use crate::authentication::Authentication;
use crate::email::EmailService;
use crate::users::Users;

verus! {

/// The components one running instance wires together.
pub struct Services {
    pub auth_service: Authentication,
    pub email_service: EmailService,
    pub user_service: Users,
}

/// The state the request handlers share.
pub struct AppState {
    pub services: Services,
}

} // verus!
