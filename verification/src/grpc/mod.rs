pub mod indicator_service;
pub mod types;
