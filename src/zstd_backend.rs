//! zstd decompression of in-memory frames.
use vstd::prelude::*;

use crate::error::IoErrorKind;

verus! {

/// The content of the zstd frame at the start of `frame`, or `None` when it
/// does not decode.
pub uninterp spec fn zstd_decoded(frame: Seq<u8>) -> Option<Seq<u8>>;

/// Relies on `ruzstd::StreamingDecoder::new` and its `Read` impl: the frame at
/// the start of the input is decoded in full, or an error is returned; the
/// outcome depends on the input bytes alone.
#[verifier::external_body]
fn zstd_decode_frame(frame: &[u8]) -> (r: Option<Vec<u8>>)
    ensures
        match r {
            Some(v) => zstd_decoded(frame@) == Some(v@),
            None => zstd_decoded(frame@) is None,
        },
{
    let mut source = frame;
    let mut decoder = match ruzstd::StreamingDecoder::new(&mut source) {
        Ok(decoder) => decoder,
        Err(_) => return None,
    };
    let mut out = Vec::new();
    match std::io::Read::read_to_end(&mut decoder, &mut out) {
        Ok(_) => Some(out),
        Err(_) => None,
    }
}

/// Decodes a whole zstd frame.
pub fn decode_all(source: &[u8]) -> (r: Result<Vec<u8>, IoErrorKind>)
    ensures
        match zstd_decoded(source@) {
            Some(v) => r matches Ok(out) && out@ == v,
            None => r == Err::<Vec<u8>, IoErrorKind>(IoErrorKind::Other),
        },
{
    match zstd_decode_frame(source) {
        Some(out) => Ok(out),
        None => Err(IoErrorKind::Other),
    }
}

/// Decodes a zstd frame onto the end of `destination`. On failure
/// `destination` is left as it was.
pub fn copy_decode(source: &[u8], destination: &mut Vec<u8>) -> (r: Result<(), IoErrorKind>)
    ensures
        match zstd_decoded(source@) {
            Some(v) => r is Ok && final(destination)@ == old(destination)@ + v,
            None => r == Err::<(), IoErrorKind>(IoErrorKind::Other) && final(destination)@ == old(
                destination,
            )@,
        },
{
    match zstd_decode_frame(source) {
        Some(mut out) => {
            destination.append(&mut out);
            Ok(())
        },
        None => Err(IoErrorKind::Other),
    }
}

} // verus!
