//! Verified core of the Black Rose authentication service: the group
//! filter rules that decide membership, the application workflow for
//! joining and leaving groups, character ownership bookkeeping and the
//! decisions taken by the login flow.

pub mod auth;
pub mod clock;
pub mod controller;
pub mod entity;
pub mod eve;
pub mod ids;
pub mod text;
