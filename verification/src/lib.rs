//! Capability privilege maps: a typed model of which subject may call which
//! other subject and which objects each may read or write, together with the
//! codec that bridges the permissive textual grammar (omitted keys, sentinel
//! tokens, explicit lists) to the closed set of model variants.

pub mod alloc_type;
pub mod codec;
pub mod diagnostics;
pub mod document;
pub mod encode;
pub mod laws;
pub mod model;
pub mod object_id;

pub use alloc_type::AllocType;
