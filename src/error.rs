use vstd::prelude::*;

verus! {

/// Why a code blob could not be decompressed.
#[derive(Clone, Copy, Debug, PartialEq, Eq, Structural)]
pub enum DecompressionError {
    /// The decoded payload would pass the configured ceiling.
    Oversize,
    /// The compressed stream is malformed or truncated.
    Corrupt,
}

/// Category of a non-successful sandboxed execution.
#[derive(Clone, Copy, Debug, PartialEq, Eq, Structural)]
pub enum FaultKind {
    /// The program itself signalled failure.
    Trap,
    /// A CPU-time or memory limit was exceeded.
    ResourceLimit,
    /// The sandbox or the transport failed, not the program.
    HostFault,
}

/// The two services a worker process can offer.
#[derive(Clone, Copy, Debug, PartialEq, Eq, Structural)]
pub enum WorkerMode {
    Prepare,
    Execute,
}

/// The operating environment a worker was launched on.
#[derive(Clone, Copy, Debug, PartialEq, Eq, Structural)]
pub enum Platform {
    Linux,
    MacOs,
    Windows,
    Android,
    Other,
}

/// Errors of the validation subsystem.
#[derive(Clone, Debug)]
pub enum Error {
    Decompression(DecompressionError),
    Prevalidation(String),
    Preparation(String),
    ExecutionFault(FaultKind, String),
    Transport(String),
    PlatformUnsupported { platform: Platform, mode: WorkerMode },
    PerformanceBelowThreshold { elapsed_ms: u64, limit_ms: u64 },
    Other(String),
}

impl From<String> for Error {
    fn from(s: String) -> (r: Error)
        ensures
            r == Error::Other(s),
    {
        Error::Other(s)
    }
}

impl vstd::std_specs::convert::FromSpecImpl<String> for Error {
    open spec fn obeys_from_spec() -> bool {
        true
    }

    open spec fn from_spec(s: String) -> Error {
        Error::Other(s)
    }
}

} // verus!
