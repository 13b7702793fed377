use vstd::prelude::*;

use crate::error::{DecompressionError, Error, FaultKind, Platform, WorkerMode};

verus! {

/// The text of one decimal digit.
pub open spec fn digit_text(d: nat) -> Seq<char> {
    if d == 0 {
        "0"@
    } else if d == 1 {
        "1"@
    } else if d == 2 {
        "2"@
    } else if d == 3 {
        "3"@
    } else if d == 4 {
        "4"@
    } else if d == 5 {
        "5"@
    } else if d == 6 {
        "6"@
    } else if d == 7 {
        "7"@
    } else if d == 8 {
        "8"@
    } else {
        "9"@
    }
}

/// `n` written in decimal, without leading zeros.
pub open spec fn decimal(n: nat) -> Seq<char>
    decreases n,
{
    if n < 10 {
        digit_text(n)
    } else {
        decimal(n / 10) + digit_text(n % 10)
    }
}

/// A duration given in milliseconds, in whole seconds where it is one.
pub open spec fn duration_text(ms: u64) -> Seq<char> {
    if ms % 1000 == 0 {
        decimal((ms / 1000) as nat) + "s"@
    } else {
        decimal(ms as nat) + "ms"@
    }
}

pub open spec fn mode_text(m: WorkerMode) -> Seq<char> {
    match m {
        WorkerMode::Prepare => "preparation"@,
        WorkerMode::Execute => "execution"@,
    }
}

pub open spec fn platform_text(p: Platform) -> Seq<char> {
    match p {
        Platform::Linux => "linux"@,
        Platform::MacOs => "macos"@,
        Platform::Windows => "windows"@,
        Platform::Android => "android"@,
        Platform::Other => "unknown"@,
    }
}

pub open spec fn fault_text(k: FaultKind) -> Seq<char> {
    match k {
        FaultKind::Trap => "Execution trapped: "@,
        FaultKind::ResourceLimit => "Execution exceeded a resource limit: "@,
        FaultKind::HostFault => "Execution failed in the host: "@,
    }
}

/// The human-readable text of an error.
pub open spec fn message_of(e: Error) -> Seq<char> {
    match e {
        Error::Decompression(DecompressionError::Oversize) =>
            "Failed to decompress code: decoded size exceeds the ceiling"@,
        Error::Decompression(DecompressionError::Corrupt) =>
            "Failed to decompress code: the compressed stream is invalid"@,
        Error::Prevalidation(m) => "Failed to create runtime blob from the decompressed code: "@
            + m@,
        Error::Preparation(m) => "Failed to precompile code: "@ + m@,
        Error::ExecutionFault(k, m) => fault_text(k) + m@,
        Error::Transport(m) => "Transport error: "@ + m@,
        Error::PlatformUnsupported { platform, mode } => "PVF "@ + mode_text(mode)
            + " workers are not supported under this platform: "@ + platform_text(platform),
        Error::PerformanceBelowThreshold { elapsed_ms, limit_ms } =>
            "Performance check not passed: "@ + duration_text(elapsed_ms) + " exceeds "@
            + duration_text(limit_ms) + " limit"@,
        Error::Other(m) => "Other: "@ + m@,
    }
}

fn digit_str(d: u64) -> (r: &'static str)
    requires
        d < 10,
    ensures
        r@ == digit_text(d as nat),
{
    if d == 0 {
        "0"
    } else if d == 1 {
        "1"
    } else if d == 2 {
        "2"
    } else if d == 3 {
        "3"
    } else if d == 4 {
        "4"
    } else if d == 5 {
        "5"
    } else if d == 6 {
        "6"
    } else if d == 7 {
        "7"
    } else if d == 8 {
        "8"
    } else {
        "9"
    }
}

/// Appends `n` in decimal to `s`.
pub fn push_decimal(s: &mut String, n: u64)
    ensures
        final(s)@ == old(s)@ + decimal(n as nat),
    decreases n,
{
    if n >= 10 {
        push_decimal(s, n / 10);
    }
    s.append(digit_str(n % 10));
    proof {
        assert(old(s)@ + decimal(n as nat) =~= old(s)@ + (if n < 10 {
            digit_text(n as nat)
        } else {
            decimal((n / 10) as nat) + digit_text((n % 10) as nat)
        }));
    }
}

/// Appends a duration given in milliseconds to `s`.
pub fn push_duration(s: &mut String, ms: u64)
    ensures
        final(s)@ == old(s)@ + duration_text(ms),
{
    if ms % 1000 == 0 {
        push_decimal(s, ms / 1000);
        s.append("s");
    } else {
        push_decimal(s, ms);
        s.append("ms");
    }
    assert(final(s)@ =~= old(s)@ + duration_text(ms));
}

impl Error {
    /// The human-readable text of this error, naming what failed and why.
    pub fn message(&self) -> (r: String)
        ensures
            r@ == message_of(*self),
    {
        match self {
            Error::Decompression(DecompressionError::Oversize) => String::from_str(
                "Failed to decompress code: decoded size exceeds the ceiling",
            ),
            Error::Decompression(DecompressionError::Corrupt) => String::from_str(
                "Failed to decompress code: the compressed stream is invalid",
            ),
            Error::Prevalidation(m) => {
                let mut s = String::from_str(
                    "Failed to create runtime blob from the decompressed code: ",
                );
                s.append(m.as_str());
                s
            },
            Error::Preparation(m) => {
                let mut s = String::from_str("Failed to precompile code: ");
                s.append(m.as_str());
                s
            },
            Error::ExecutionFault(k, m) => {
                let mut s = match k {
                    FaultKind::Trap => String::from_str("Execution trapped: "),
                    FaultKind::ResourceLimit => String::from_str(
                        "Execution exceeded a resource limit: ",
                    ),
                    FaultKind::HostFault => String::from_str("Execution failed in the host: "),
                };
                s.append(m.as_str());
                s
            },
            Error::Transport(m) => {
                let mut s = String::from_str("Transport error: ");
                s.append(m.as_str());
                s
            },
            Error::PlatformUnsupported { platform, mode } => {
                let mut s = String::from_str("PVF ");
                match mode {
                    WorkerMode::Prepare => s.append("preparation"),
                    WorkerMode::Execute => s.append("execution"),
                }
                s.append(" workers are not supported under this platform: ");
                match platform {
                    Platform::Linux => s.append("linux"),
                    Platform::MacOs => s.append("macos"),
                    Platform::Windows => s.append("windows"),
                    Platform::Android => s.append("android"),
                    Platform::Other => s.append("unknown"),
                }
                s
            },
            Error::PerformanceBelowThreshold { elapsed_ms, limit_ms } => {
                let mut s = String::from_str("Performance check not passed: ");
                push_duration(&mut s, *elapsed_ms);
                s.append(" exceeds ");
                push_duration(&mut s, *limit_ms);
                s.append(" limit");
                s
            },
            Error::Other(m) => {
                let mut s = String::from_str("Other: ");
                s.append(m.as_str());
                s
            },
        }
    }
}

} // verus!
