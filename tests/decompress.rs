use polkadot_cli::decompress::{decompress, is_compressed};
use polkadot_cli::error::DecompressionError;

const MARKER: [u8; 8] = [82, 188, 83, 118, 70, 219, 142, 5];

#[test]
fn plain_blob_within_ceiling_is_returned_unchanged() {
    let blob = vec![0u8, 97, 115, 109, 1, 0, 0, 0];
    assert!(!is_compressed(&blob));
    assert_eq!(decompress(&blob, 8), Ok(blob.clone()));
}

#[test]
fn plain_blob_over_ceiling_is_oversize() {
    let blob = vec![7u8; 100];
    assert_eq!(decompress(&blob, 99), Err(DecompressionError::Oversize));
}

#[test]
fn empty_blob_decompresses_to_nothing() {
    assert_eq!(decompress(&[], 0), Ok(vec![]));
}

#[test]
fn compressed_blob_is_decoded() {
    let raw: Vec<u8> = (0..10_000u32).map(|i| (i % 251) as u8).collect();
    let packed = sp_maybe_compressed_blob::compress_weakly(&raw, 1 << 20).unwrap();
    assert!(is_compressed(&packed));
    assert_ne!(packed, raw);
    assert_eq!(decompress(&packed, 1 << 20), Ok(raw));
}

#[test]
fn compression_bomb_is_stopped_at_ceiling() {
    let raw = vec![0u8; 4 << 20];
    let packed = sp_maybe_compressed_blob::compress_weakly(&raw, 8 << 20).unwrap();
    assert!(packed.len() < 1 << 20);
    assert_eq!(decompress(&packed, 1 << 20), Err(DecompressionError::Oversize));
}

#[test]
fn decoded_size_equal_to_ceiling_is_accepted() {
    let raw = vec![3u8; 4096];
    let packed = sp_maybe_compressed_blob::compress_weakly(&raw, 4096).unwrap();
    assert_eq!(decompress(&packed, 4096).map(|v| v.len()), Ok(4096));
    assert_eq!(decompress(&packed, 4095), Err(DecompressionError::Oversize));
}

#[test]
fn corrupt_stream_is_refused() {
    let mut blob = MARKER.to_vec();
    blob.extend_from_slice(&[1, 2, 3, 4, 5, 6, 7, 8, 9]);
    assert!(is_compressed(&blob));
    assert_eq!(decompress(&blob, 1 << 20), Err(DecompressionError::Corrupt));
}

#[test]
fn short_marker_prefix_is_plain() {
    let blob = MARKER[..7].to_vec();
    assert!(!is_compressed(&blob));
    assert_eq!(decompress(&blob, 7), Ok(blob.clone()));
}
