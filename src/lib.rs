//! Client library for a research-data repository: the direct-to-storage
//! transfer pipeline (tickets, progress, checksums, registration) and the
//! data types that travel with it.

pub mod callback;
pub mod checksum;
pub mod error;
pub mod identifier;
pub mod models;
pub mod progress;
pub mod register;
pub mod request;
pub mod response;
pub mod text;
pub mod tickets;
pub mod upload;
pub mod uploader;
