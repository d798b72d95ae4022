//! A URL shortener core: fixed-length alphanumeric codes, a store of
//! code-to-URL mappings that never overwrites a live code, an atomic
//! read-and-count redirect step, and a read-only stats projection. The store
//! is modelled as a finite map from codes to mapping contents, and every
//! operation's effect on that map is stated and proved.

pub mod codes;
pub mod models;
pub mod service;
pub mod store;
