//! A verified client library for the Zotero web API.
//!
//! The library builds immutable client configurations (endpoint, protocol
//! version, API key, library scope), composes fully-addressed and
//! authenticated HTTP requests against a user or group library, and
//! classifies every failure the API can produce. Network transport is left
//! to the caller; everything here is pure request construction.

pub mod error;
pub mod text;
pub mod urls;
pub mod json;
pub mod request;
pub mod zotero_api;

pub use error::ZoteroError;
pub use request::{Method, Request};
pub use zotero_api::{InteractionMode, ZoteroAPI, ZoteroAPIBuilder};
