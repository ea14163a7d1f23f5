pub mod group;
pub mod groups;
pub mod user;
