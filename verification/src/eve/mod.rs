pub mod data;
pub mod model;
pub mod service;
