//! Smoke test of the codec.

use vstd::prelude::*;

use crate::codec::{round_trip, CodecError};

verus! {

/// Compresses a short English sentence and decompresses it again; the
/// decompressed bytes are the sentence's bytes.
pub fn test_lz4_compression() -> (r: Result<(), CodecError>)
    ensures
        r is Ok,
{
    let text = "This is test data for LZ4 compression functionality";
    proof {
        reveal_strlit("This is test data for LZ4 compression functionality");
        assert(vstd::string::is_ascii(text));
        vstd::string::is_ascii_spec_bytes(text);
    }
    let data = text.as_bytes();
    let decompressed = round_trip(data)?;
    assert(decompressed@ == data@);
    Ok(())
}

} // verus!
