pub mod data;
pub mod model;
pub mod permissions;
pub mod route;
pub mod routes;
pub mod seed;
