//! Client-side logic for a remote text-to-image generation service.
//!
//! The crate builds versioned request payloads, validates the requested
//! image count, resolves service references into image URLs, and decodes
//! fetched bytes into in-memory images. Network transport is left to the
//! caller, which drives a [`generate::FetchSession`] step by step.

pub mod api;
pub mod error;
pub mod generate;
pub mod model;
pub mod request;
