pub mod configuration;
pub mod email_client;
pub mod errors;
pub mod handlers;
pub mod store;
pub mod validation;
