pub mod config;
pub mod context;
pub mod response;
