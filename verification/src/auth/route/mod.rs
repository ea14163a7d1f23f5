pub mod auth;
pub mod groups;
pub mod user;
