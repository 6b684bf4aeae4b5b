//! A small blog publishing service: posts with optional images, the store that
//! keeps them, the request boundary in front of it, and the view models of the
//! client that shows them.

pub mod client;
pub mod create;
pub mod error;
pub mod guarantees;
pub mod image;
pub mod markup;
pub mod post;
pub mod service;
pub mod store;
