//! The simulated machine: instruction catalog, pipeline latches, hazard
//! control and the five-stage driver.

pub mod btypes;
pub mod common;
pub mod itypes;
pub mod jtypes;
pub mod laws;
pub mod rtypes;
pub mod state;
pub mod stypes;
pub mod utypes;
pub mod vm;
