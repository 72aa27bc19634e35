//! A client library for a remote text and image generation API.
//!
//! The library builds the HTTP calls (method, URL, bearer credential and JSON
//! body) for each operation, and turns the text of an HTTP response into a
//! typed response or a typed error. Performing the calls is left to the
//! embedding application.
pub mod client;
pub mod completions;
pub mod edits;
pub mod error;
pub mod images;
pub mod json;
pub mod models;
pub mod numbers;
