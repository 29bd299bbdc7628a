//! Body compression. The actual gzip work is done by the `flate2`
//! crate; the library only relies on its output being a gzip stream
//! that decodes back to the input.

use std::io::Write;

use vstd::prelude::*;

verus! {

/// What a gzip stream decodes to, when it is well formed. Gzip
/// decoding is a function of the bytes alone; nothing more is assumed
/// of it than what [`gzip_compress`] states.
pub uninterp spec fn gunzip(bytes: Seq<u8>) -> Option<Seq<u8>>;

/// Relies on flate2's `GzEncoder` at the default compression level:
/// writing the whole input and finishing the stream yields gzip data
/// that decodes back to exactly the input.
#[verifier::external_body]
pub fn gzip_compress(data: &[u8]) -> (r: Result<Vec<u8>, ()>)
    ensures
        r matches Ok(out) ==> gunzip(out@) == Some(data@),
{
    let mut encoder = flate2::write::GzEncoder::new(Vec::new(), flate2::Compression::default());
    match encoder.write_all(data) {
        Ok(()) => match encoder.finish() {
            Ok(out) => Ok(out),
            Err(_) => Err(()),
        },
        Err(_) => Err(()),
    }
}

} // verus!
