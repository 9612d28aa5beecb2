//! Address arithmetic and decisions of an external memory tool for the
//! AssaultCube client: NUL-terminated names, snapshot scans, pointer chains
//! and the per-tick plan of memory writes. Reading and writing another
//! process's memory is left to the caller, which feeds the results back in.
pub mod attach;
pub mod chain;
pub mod cstr;
pub mod snapshot;
pub mod trainer;
