//! Composition root of a layered HTTP service: log-filter resolution,
//! route assembly, middleware layering and the listener's fixed address.

pub mod filter;
pub mod runtime;
pub mod service;

