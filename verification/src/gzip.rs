//! Gzip decompression.

use std::io::Read;

use vstd::prelude::*;

verus! {

/// What flate2 makes of gzip bytes: the inflated contents of the first member, or the
/// words in which it says why there are none.
pub uninterp spec fn gzip_contents(bytes: Seq<u8>) -> Result<Seq<u8>, Seq<char>>;

/// The value of a result of inflating.
pub open spec fn contents_value(contents: Result<Vec<u8>, String>) -> Result<
    Seq<u8>,
    Seq<char>,
> {
    match contents {
        Ok(raw) => Ok(raw@),
        Err(reason) => Err(reason@),
    }
}

/// Calls `flate2::read::GzDecoder` on the bytes and reads it to its end. The result
/// depends on the bytes alone: it is [`gzip_contents`] of them.
#[verifier::external_body]
pub(crate) fn gunzip(bytes: &[u8]) -> (res: Result<Vec<u8>, String>)
    ensures
        contents_value(res) == gzip_contents(bytes@),
{
    let mut contents = Vec::new();
    match flate2::read::GzDecoder::new(bytes).read_to_end(&mut contents) {
        Ok(_) => Ok(contents),
        Err(error) => Err(error.to_string()),
    }
}

/// Whether the bytes start with the two magic bytes of the gzip format.
pub open spec fn has_gzip_magic(bytes: Seq<u8>) -> bool {
    bytes.len() >= 2 && bytes[0] == 0x1f && bytes[1] == 0x8b
}

/// Whether the bytes look like a gzip file.
pub fn is_gzip(bytes: &[u8]) -> (res: bool)
    ensures
        res == has_gzip_magic(bytes@),
{
    bytes.len() >= 2 && bytes[0] == 0x1f && bytes[1] == 0x8b
}

} // verus!
