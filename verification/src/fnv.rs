//! FNV-1a hash for parameter identifiers, available under the core path.

pub use crate::hash::fnv1a_32;
