//! A URL shortener's core: short-code generation, URL validation, QR rendering,
//! and the create and resolve workflows as verified state machines that a host
//! drives against its store, cache and object store.

pub mod errors;
pub mod models;
pub mod validation;
pub mod short_code;
pub mod qr;
pub mod resolve;
pub mod create;
pub mod laws;
