//! A minimal single-tenant host for running untrusted WebAssembly modules.
//!
//! A request names a module and supplies a set of named string parameters.
//! The host compiles the module inside a capability-restricted sandbox whose
//! only grants are a write-only output channel and the injected parameters,
//! runs the module's entry point to completion, and returns whatever text the
//! module printed.
//!
//! The crate verifies the decisions of that pipeline: which stage follows
//! which, which failure kind each stage reports, which exported entry points
//! are run and in what order, how parameters are injected, and how the
//! captured bytes become the result string. The surrounding process — file
//! reading, the WebAssembly engine, the capture file — performs each stage and
//! reports its outcome back as an event.

pub mod errors;
pub mod invocation;
pub mod output;
pub mod params;
