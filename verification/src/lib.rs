//! Memory-bus interaction encoding, chip assembly and aggregation
//! parameter derivation for a STARK-based virtual machine.

pub mod aggregation;
pub mod memory_bus;
pub mod testing;
pub mod trace;
