use polkadot_cli::error::{DecompressionError, Error, FaultKind};

#[test]
fn durations_render_in_seconds_or_milliseconds() {
    let e = Error::PerformanceBelowThreshold { elapsed_ms: 20_500, limit_ms: 20_000 };
    assert_eq!(e.message(), "Performance check not passed: 20500ms exceeds 20s limit");
    let e = Error::PerformanceBelowThreshold { elapsed_ms: 0, limit_ms: 7 };
    assert_eq!(e.message(), "Performance check not passed: 0s exceeds 7ms limit");
    let e = Error::PerformanceBelowThreshold { elapsed_ms: u64::MAX, limit_ms: 1_000 };
    assert_eq!(e.message(), "Performance check not passed: 18446744073709551615ms exceeds 1s limit");
}

#[test]
fn each_error_has_its_text() {
    assert_eq!(
        Error::Decompression(DecompressionError::Oversize).message(),
        "Failed to decompress code: decoded size exceeds the ceiling"
    );
    assert_eq!(
        Error::Decompression(DecompressionError::Corrupt).message(),
        "Failed to decompress code: the compressed stream is invalid"
    );
    assert_eq!(
        Error::Prevalidation("x".to_string()).message(),
        "Failed to create runtime blob from the decompressed code: x"
    );
    assert_eq!(Error::Preparation("y".to_string()).message(), "Failed to precompile code: y");
    assert_eq!(
        Error::ExecutionFault(FaultKind::ResourceLimit, "z".to_string()).message(),
        "Execution exceeded a resource limit: z"
    );
    assert_eq!(Error::Transport("t".to_string()).message(), "Transport error: t");
    assert_eq!(Error::from("o".to_string()).message(), "Other: o");
}
