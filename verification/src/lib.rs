//! A typed description of the read-only congress.gov REST API.
//!
//! Every endpoint of the service is a small immutable value: its required
//! path fields are validated by a builder, its path is rendered from a fixed
//! template, and its query parameters are collected in a fixed order.  The
//! rendering core (decimal formatting, path assembly, the parameter
//! collector) is verified; dispatching the resulting request over HTTP is
//! left to the caller's transport.

pub mod api;
pub mod common;
pub mod endpoint;
pub mod error;
pub mod params;
pub mod render;
pub mod request;
pub mod timestamp;
