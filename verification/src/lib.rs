//! A client for the WebDriver wire protocol, written as pure decisions.
//!
//! The library builds the HTTP requests of a browser-automation session and
//! reads the driver's replies. Sending a request, sleeping and supervising
//! the driver process are left to the caller, who reports what happened as
//! plain values.

pub mod error;
pub mod json;
pub mod text;
pub mod request;
pub mod reply;
pub mod client;
pub mod handshake;
pub mod supervisor;

pub use client::WebDriver;
pub use error::WebDriverError;
pub use json::Json;
pub use reply::Reply;
pub use request::{Method, Request};
