//! A durable store of skill exchange entries: identity assignment, point
//! operations, a full scan in key order and four search shapes over it.

pub mod codec;
pub mod durable;
pub mod entry;
pub mod laws;
pub mod search;
pub mod service;
pub mod store;
pub mod text;
