//! A container for sensitive values that minimizes how long and how widely
//! the plaintext is exposed in process memory.
//!
//! The value lives in a dedicated allocation that is pinned against swapping,
//! excluded from core dumps where possible, and kept at the most restrictive
//! hardware protection except during explicit, scoped access.  The backing
//! bytes are overwritten with zero before the allocation is released.
//!
//! This crate verifies the access-protection state machine and the ordering
//! of the allocation's lifecycle over a model of the platform's memory
//! primitives; the raw system calls themselves live outside the verified
//! library, behind the contract stated by the model.

pub mod error;
pub mod mem;
pub mod mem_safe;
pub mod prot;
pub mod sequence;
pub mod type_state;

mod cell;

pub use cell::Cell;
pub use error::MemoryError;
pub use mem_safe::{MemSafe, MemSafeRead, MemSafeWrite};
pub use prot::{Platform, Prot};
