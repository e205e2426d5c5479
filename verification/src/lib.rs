//! A cycle-level simulator of an RV32I processor core.
//!
//! The crate models a five-stage instruction pipeline: instructions are
//! fetched from a byte-addressed bus, decoded into typed formats, executed
//! by arithmetic/branch/load-store units, and retired by a write-back stage.
//! A pipeline controller shifts the in-flight instructions through the
//! stages once per simulated clock and resolves taken branches by squashing
//! the younger instructions behind them.

pub mod bus;
pub mod hart;
pub mod instruction;
pub mod memory;
pub mod pipeline;
pub mod register_file;
pub mod simple_pipeline;
pub mod unit;
