//! What the services decide and compute: checks of requests, records built
//! from them, and the figures the services report. Reading and writing the
//! databases and files stays with the caller, which hands in what it read.
pub mod content_service;
pub mod file_service;
pub mod log_service;
pub mod financial_service;
pub mod oss_service;
pub mod resource_service;
pub mod system_service;
pub mod user_service;
