//! Secrets rendered from templates.
//!
//! A template names, for every key of a secret, where the value comes from:
//! another secret, a base64 text, a plain text, or a random string.  The
//! rendered secret is owned by its template, is immutable and carries one
//! finalizer.  When it is deleted, the finalizer is taken off and the secret
//! is rendered anew.

pub mod crd;
pub mod error;
pub mod finalizer;
pub mod generator;
pub mod laws;
pub mod render;
