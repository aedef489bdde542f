pub mod layout;
pub mod login;
