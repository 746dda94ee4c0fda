//! A copy-on-write byte buffer that keeps short values inline and shares
//! long ones behind a reference-counted allocation.
//!
//! `buffer` holds the type, `IVec`, and the moves between its three
//! representations; `convert`, `compare` and `access` hold its impls of the
//! standard traits; `laws` states what holds of every value. `policy`,
//! `inline`, `window`, `order` and `slices` are the parts it is built from,
//! and `shared` is the one place that calls into `std::sync::Arc`.
pub mod policy;
pub mod shared;
pub mod slices;
pub mod order;
pub mod inline;
pub mod window;
pub mod buffer;
pub mod convert;
pub mod compare;
pub mod access;
pub mod laws;

pub use crate::buffer::{IVec, Kind};
