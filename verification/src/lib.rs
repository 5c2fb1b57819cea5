//! A memory-safe access layer over a foreign image-decoding session.
//!
//! The foreign decoder hands out a chain of resources: a decoding context, an
//! image handle inside it, a decoded image, a colour-plane view, and a
//! read-only pixel buffer. Each link borrows from its parent, and every
//! decision this layer makes along the chain (error bridging, enumeration
//! mapping, dimension checking, channel lookup, bounds-checked pixel access)
//! is verified here over a plain-data record of what the foreign layer
//! reported.

pub mod dims;
pub mod error;
pub mod kinds;
pub mod model;
pub mod simple;
