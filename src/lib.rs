//! A verified model of the primitives of the Arm Memory Tagging Extension:
//! tagged pointers, stamping 4-bit tags onto 16-byte granules, migrating
//! tagged memory, and the process-wide tag-check-fault mode.
pub mod codec;
pub mod engine;
pub mod laws;
pub mod memory;
pub mod migrate;
pub mod mode;
pub mod random;
