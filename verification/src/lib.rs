//! A client for a service that shares secrets once: the requests it sends, the answers it
//! reads, the errors it reports, and the vault that keeps its credentials.

pub mod api;
pub mod codec;
pub mod commands;
pub mod error;
pub mod json;
pub mod settings;
pub mod storage;
pub mod text;
pub mod transport;
