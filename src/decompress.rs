use vstd::prelude::*;

use crate::error::DecompressionError;

verus! {

/// The eight-byte marker that announces a zstd-compressed blob.
pub open spec fn compressed_marker() -> Seq<u8> {
    seq![82u8, 188u8, 83u8, 118u8, 70u8, 219u8, 142u8, 5u8]
}

/// Whether `b` begins with the compression marker.
pub open spec fn has_compressed_marker(b: Seq<u8>) -> bool {
    b.len() >= 8 && b.subrange(0, 8) == compressed_marker()
}

/// What zstd decodes `payload` to when at most `limit` bytes may come out;
/// `None` when the stream is malformed or holds more than `limit` bytes.
pub uninterp spec fn zstd_decoded(payload: Seq<u8>, limit: usize) -> Option<Seq<u8>>;

/// The raw code a blob stands for under `ceiling`, if any: a marked blob is
/// decoded, an unmarked one is taken as it is when it fits.
pub open spec fn decompressed(blob: Seq<u8>, ceiling: usize) -> Option<Seq<u8>> {
    if has_compressed_marker(blob) {
        zstd_decoded(blob.skip(8), ceiling)
    } else if blob.len() <= ceiling {
        Some(blob)
    } else {
        None
    }
}

/// Relies on sp_maybe_compressed_blob::decompress: an unmarked blob comes back
/// unchanged; behind the marker, the zstd stream is read with at most
/// `limit + 1` bytes taken, and anything over `limit` is refused.
#[verifier::external_body]
fn decompress_blob(blob: &[u8], limit: usize) -> (r: Result<Vec<u8>, DecompressionError>)
    requires
        limit < usize::MAX,
    ensures
        !has_compressed_marker(blob@) ==> r is Ok && r->Ok_0@ == blob@,
        has_compressed_marker(blob@) && r is Ok ==> zstd_decoded(blob@.skip(8), limit) == Some(
            r->Ok_0@,
        ) && r->Ok_0@.len() <= limit,
        has_compressed_marker(blob@) && r is Err ==> zstd_decoded(blob@.skip(8), limit) is None,
{
    match sp_maybe_compressed_blob::decompress(blob, limit) {
        Ok(v) => Ok(v.into_owned()),
        Err(sp_maybe_compressed_blob::Error::PossibleBomb) => Err(DecompressionError::Oversize),
        Err(sp_maybe_compressed_blob::Error::Invalid) => Err(DecompressionError::Corrupt),
    }
}

/// Whether `blob` begins with the compression marker.
pub fn is_compressed(blob: &[u8]) -> (r: bool)
    ensures
        r == has_compressed_marker(blob@),
{
    if blob.len() < 8 {
        return false;
    }
    let r = blob[0] == 82u8 && blob[1] == 188u8 && blob[2] == 83u8 && blob[3] == 118u8
        && blob[4] == 70u8 && blob[5] == 219u8 && blob[6] == 142u8 && blob[7] == 5u8;
    assert(r == (blob@.subrange(0, 8) =~= compressed_marker()));
    r
}

/// Turns a possibly compressed code blob into raw code of at most `ceiling`
/// bytes. An unmarked blob over the ceiling is refused before anything is
/// copied; a marked one is never decoded past the ceiling.
pub fn decompress(blob: &[u8], ceiling: usize) -> (r: Result<Vec<u8>, DecompressionError>)
    requires
        ceiling < usize::MAX,
    ensures
        r matches Ok(v) ==> v@.len() <= ceiling,
        match r {
            Ok(v) => decompressed(blob@, ceiling) == Some(v@),
            Err(_) => decompressed(blob@, ceiling) is None,
        },
        !has_compressed_marker(blob@) && blob@.len() > ceiling ==> r == Err::<Vec<u8>, DecompressionError>(
            DecompressionError::Oversize,
        ),
{
    if !is_compressed(blob) && blob.len() > ceiling {
        return Err(DecompressionError::Oversize);
    }
    decompress_blob(blob, ceiling)
}

} // verus!
