//! Host-side contract for sandboxed guest modules: packed colours, the shared
//! parameter store, wait decisions, the per-module file handle table, the
//! calibration table store and the module lifecycle.
pub mod color;
pub mod params;
pub mod waits;
pub mod memory;
pub mod files;
pub mod lut;
pub mod runtime;
