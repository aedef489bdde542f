pub mod login;
pub mod newsletters;
pub mod subscriptions;
