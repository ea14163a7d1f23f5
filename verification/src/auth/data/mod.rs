pub mod groups;
pub mod user;
