//! Synchronization primitives of the arch layer: the scoped critical-section
//! guard over the interrupt-mask primitive.

pub mod critical;

pub use critical::CriticalSection;
pub use critical::CriticalSectionGuard;
