pub mod acme;
pub mod config;
pub mod dns;
pub mod router;
pub mod validator;
