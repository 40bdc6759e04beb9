//! Building blocks of the forge platform layer: errors, environment values
//! and their boolean reading, process output, requests, and the platform handle.

pub mod env;
pub mod error;
pub mod exec;
pub mod platform;
pub mod request;
pub mod utils;
