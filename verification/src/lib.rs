pub mod config;
pub mod dashboard;
pub mod errors;
pub mod kafka_api;
pub mod kafka_client;
pub mod replay;
pub mod scheduler;
