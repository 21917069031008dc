//! LZ4 block compression with the uncompressed length stored in front.

use vstd::prelude::*;

verus! {

#[verifier::external_type_specification]
#[verifier::external_body]
pub struct ExIoError(std::io::Error);

/// A failure reported by the codec, carried unchanged.
#[derive(Debug)]
pub struct CodecError {
    pub cause: std::io::Error,
}

/// The largest input the codec accepts, in bytes.
pub const MAX_INPUT: usize = 0x7E00_0000;

/// The block that the codec produces for `data` in its default mode, with the
/// four-byte little-endian length of `data` in front.
pub uninterp spec fn lz4_block_of(data: Seq<u8>) -> Seq<u8>;

/// `block` is what compressing `data` yields.
pub open spec fn is_block_of(block: Seq<u8>, data: Seq<u8>) -> bool {
    data.len() <= MAX_INPUT && lz4_block_of(data) == block
}

/// Relies on `lz4::block::compress(src, None, true)`: it refuses an input longer
/// than LZ4_MAX_INPUT_SIZE and otherwise compresses into a buffer of
/// LZ4_compressBound bytes, which LZ4 guarantees to be enough.
#[verifier::external_body]
fn lz4_compress(src: &[u8]) -> (r: Result<Vec<u8>, std::io::Error>)
    ensures
        r is Ok <==> src@.len() <= MAX_INPUT,
        r is Ok ==> r->Ok_0@ == lz4_block_of(src@),
{
    lz4::block::compress(src, None, true)
}

/// Relies on `lz4::block::decompress(src, None)`: it reads the length stored in
/// front of the block and decodes the rest, so a block that compression made
/// decodes to the bytes it was made from; a buffer shorter than the length prefix is
/// refused.
#[verifier::external_body]
fn lz4_decompress(src: &[u8]) -> (r: Result<Vec<u8>, std::io::Error>)
    ensures
        forall|x: Seq<u8>| #[trigger] is_block_of(src@, x) ==> (r is Ok && r->Ok_0@ == x),
        src@.len() < 4 ==> r is Err,
{
    lz4::block::decompress(src, None)
}

/// Compresses `data` into one LZ4 block that carries its length.
pub fn compress(data: &[u8]) -> (r: Result<Vec<u8>, CodecError>)
    ensures
        r is Ok <==> data@.len() <= MAX_INPUT,
        r is Ok ==> is_block_of(r->Ok_0@, data@),
{
    match lz4_compress(data) {
        Ok(block) => Ok(block),
        Err(e) => Err(CodecError { cause: e }),
    }
}

/// Decompresses a block made by [`compress`].
pub fn decompress(block: &[u8]) -> (r: Result<Vec<u8>, CodecError>)
    ensures
        forall|x: Seq<u8>| #[trigger] is_block_of(block@, x) ==> (r is Ok && r->Ok_0@ == x),
        block@.len() < 4 ==> r is Err,
{
    match lz4_decompress(block) {
        Ok(data) => Ok(data),
        Err(e) => Err(CodecError { cause: e }),
    }
}

/// Compresses `data` and decompresses the block again. Whenever `data` is
/// small enough to be compressed, the result is `data` itself.
pub fn round_trip(data: &[u8]) -> (r: Result<Vec<u8>, CodecError>)
    ensures
        data@.len() <= MAX_INPUT ==> (r is Ok && r->Ok_0@ == data@),
        data@.len() > MAX_INPUT ==> r is Err,
{
    let block = compress(data)?;
    decompress(&block)
}

} // verus!
