//! Toolkit for native extension modules of the DataCode scripting VM.
//!
//! The library holds the values that cross the module boundary, the
//! argument accessors and result builders that native functions use, the
//! registration context that keeps function names alive for the host, and
//! the module descriptor with its version check.

pub mod abi;
pub mod types;
pub mod context;
pub mod descriptor;
