use vstd::prelude::*;

verus! {

/// The ways a single invocation can fail.
///
/// Every failure is per-invocation and terminal: nothing is retried, and the
/// caller always receives one of these distinguishable kinds, never a generic
/// opaque error.
#[derive(Debug)]
pub enum ExecError {
    /// The requested module name has no resolvable source.
    ModuleNotFound,
    /// The module bytes are structurally invalid or use unsupported features.
    CompilationError,
    /// The module's imports cannot be satisfied by the capability context.
    LinkError,
    /// The module exports no recognized runnable entry point.
    EntryPointNotFound,
    /// The sandboxed code faulted during execution; `message` is the
    /// human-readable trap description.
    ExecutionTrap { message: String },
    /// The output capture sink could not be allocated.
    SinkAllocationFailed,
    /// Draining the capture sink failed on the host side.
    OutputDecodeError,
}

/// The mathematical value of an [`ExecError`]: the same variants, with the
/// trap message as a sequence of characters.
pub enum ExecErrorV {
    ModuleNotFound,
    CompilationError,
    LinkError,
    EntryPointNotFound,
    ExecutionTrap { message: Seq<char> },
    SinkAllocationFailed,
    OutputDecodeError,
}

impl View for ExecError {
    type V = ExecErrorV;

    open spec fn view(&self) -> ExecErrorV {
        match self {
            ExecError::ModuleNotFound => ExecErrorV::ModuleNotFound,
            ExecError::CompilationError => ExecErrorV::CompilationError,
            ExecError::LinkError => ExecErrorV::LinkError,
            ExecError::EntryPointNotFound => ExecErrorV::EntryPointNotFound,
            ExecError::ExecutionTrap { message } => ExecErrorV::ExecutionTrap {
                message: message@,
            },
            ExecError::SinkAllocationFailed => ExecErrorV::SinkAllocationFailed,
            ExecError::OutputDecodeError => ExecErrorV::OutputDecodeError,
        }
    }
}

impl ExecError {
    /// A short fixed description of the failure kind, for callers that
    /// present errors as text.
    pub fn describe(&self) -> (r: &'static str)
        ensures
            self is ModuleNotFound ==> r@ == "module not found"@,
            self is CompilationError ==> r@ == "module failed to compile"@,
            self is LinkError ==> r@ == "module imports could not be linked"@,
            self is EntryPointNotFound ==> r@ == "module has no recognized entry point"@,
            self is ExecutionTrap ==> r@ == "module trapped during execution"@,
            self is SinkAllocationFailed ==> r@ == "output capture sink could not be allocated"@,
            self is OutputDecodeError ==> r@ == "captured output could not be read back"@,
    {
        match self {
            ExecError::ModuleNotFound => "module not found",
            ExecError::CompilationError => "module failed to compile",
            ExecError::LinkError => "module imports could not be linked",
            ExecError::EntryPointNotFound => "module has no recognized entry point",
            ExecError::ExecutionTrap { .. } => "module trapped during execution",
            ExecError::SinkAllocationFailed => "output capture sink could not be allocated",
            ExecError::OutputDecodeError => "captured output could not be read back",
        }
    }
}

} // verus!
