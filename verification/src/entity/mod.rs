//! Plain records for the rows the service stores.

pub mod auth_group;
pub mod auth_group_filter_group;
pub mod auth_group_filter_rule;
pub mod auth_group_application;
pub mod auth_group_user;
pub mod auth_permission;
pub mod auth_user;
pub mod auth_user_character_ownership;
pub mod auth_user_permission;
pub mod eve_alliance;
pub mod eve_character;
pub mod eve_corporation;
pub mod sea_orm_active_enums;
