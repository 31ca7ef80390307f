pub mod authentication;
pub mod change_password;
pub mod dashboard;
pub mod domain;
pub mod login;
pub mod newsletter;
pub mod password;
pub mod session;
pub mod store;
pub mod subscriptions;
pub mod subscriptions_confirm;
pub mod strutil;
