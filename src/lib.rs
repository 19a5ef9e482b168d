//! Request handling for a text-embedding service.
//!
//! The library decides what a call asks for and what it answers; the model
//! that turns texts into vectors, the lock around it and the network server
//! are driven by the application around it.
pub mod config;
pub mod request;
pub mod response;
