//! Planning and bookkeeping for mirrored memory allocations: regions of
//! virtual memory whose upper half aliases the storage of the lower half.
//!
//! The crate decides sizes, names, retries and the order of platform
//! operations; a driver performs the operations and reports their outcomes.

pub mod accounting;
pub mod allocation;
pub mod construction;
pub mod error;
pub mod guarantees;
pub mod multiples;
pub mod name;
pub mod protocol;
pub mod size;
pub mod system;
