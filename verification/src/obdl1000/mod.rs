pub mod caparr;
pub mod error_code;
pub mod reponse;
pub mod request;
pub mod state_code;
