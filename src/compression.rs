//! LZ4 framing of memory payloads: a payload is sent compressed only when
//! that makes it strictly shorter, and a flag tells the receiver which form
//! it got.
use vstd::prelude::*;

use crate::protocol::MemoryDeltaPage;
use lz4_flex::block::DecompressError;

verus! {

#[verifier::external_type_specification]
#[verifier::external_body]
pub struct ExDecompressError(DecompressError);

/// The LZ4 block of `data`, led by its length as a little-endian `u32`.
pub uninterp spec fn lz4_block_of(data: Seq<u8>) -> Seq<u8>;

/// What a length-prefixed LZ4 block decodes to, if it is well formed.
pub uninterp spec fn lz4_decoded(data: Seq<u8>) -> Option<Seq<u8>>;

/// Relies on lz4_flex::block::compress_prepend_size: compresses `data` into
/// one LZ4 block with the uncompressed length prepended as four bytes; the
/// result depends on the bytes alone.
#[verifier::external_body]
fn lz4_compress(data: &[u8]) -> (r: Vec<u8>)
    ensures
        r@ == lz4_block_of(data@),
        r@.len() >= 4,
{
    lz4_flex::block::compress_prepend_size(data)
}

/// Longest run of 0xFF bytes that a block handed to the decoder may hold:
/// the decoder sums such a run into a `u32`, and a longer run can overflow it.
pub const LZ4_FF_RUN_LIMIT: usize = 16843009;

/// Bytes `s[a..b]` are all 0xFF.
pub open spec fn all_ff(s: Seq<u8>, a: int, b: int) -> bool {
    forall|j: int| a <= j < b ==> s[j] == 0xFFu8
}

/// `s` holds `LZ4_FF_RUN_LIMIT` consecutive 0xFF bytes somewhere.
pub open spec fn has_long_ff_run(s: Seq<u8>) -> bool {
    exists|i: int|
        0 <= i && i + LZ4_FF_RUN_LIMIT <= s.len() && #[trigger] all_ff(
            s,
            i,
            i + LZ4_FF_RUN_LIMIT,
        )
}

/// Relies on lz4_flex::block::decompress_size_prepended: decodes a block
/// framed as above, and gives back the input of compress_prepend_size for
/// every input whose length fits the `u32` prefix. Its length reader sums
/// each run of 0xFF bytes into a `u32` unchecked, so blocks with a run that
/// could overflow it are left out.
#[verifier::external_body]
fn lz4_decompress(data: &[u8]) -> (r: Result<Vec<u8>, DecompressError>)
    requires
        !has_long_ff_run(data@),
    ensures
        r is Ok <==> lz4_decoded(data@) is Some,
        r is Ok ==> lz4_decoded(data@) == Some(r->Ok_0@),
        forall|x: Seq<u8>|
            x.len() <= u32::MAX && data@ == #[trigger] lz4_block_of(x) ==> r is Ok && r->Ok_0@
                == x,
{
    lz4_flex::block::decompress_size_prepended(data)
}

/// Whether `data` holds `LZ4_FF_RUN_LIMIT` consecutive 0xFF bytes.
pub fn long_ff_run(data: &[u8]) -> (r: bool)
    ensures
        r == has_long_ff_run(data@),
{
    let ghost s = data@;
    let n = data.len();
    let mut run: usize = 0;
    let mut i: usize = 0;
    while i < n
        invariant
            s == data@,
            n == s.len(),
            i <= n,
            run <= i,
            run < LZ4_FF_RUN_LIMIT,
            all_ff(s, i - run, i as int),
            i - run == 0 || s[i - run - 1] != 0xFFu8,
            forall|w: int|
                0 <= w && w + LZ4_FF_RUN_LIMIT <= i ==> !#[trigger] all_ff(
                    s,
                    w,
                    w + LZ4_FF_RUN_LIMIT,
                ),
        decreases n - i,
    {
        if data[i] == 0xFFu8 {
            if run + 1 == LZ4_FF_RUN_LIMIT {
                assert(all_ff(s, i + 1 - LZ4_FF_RUN_LIMIT, i + 1 - LZ4_FF_RUN_LIMIT + LZ4_FF_RUN_LIMIT));
                return true;
            }
            assert forall|w: int|
                0 <= w && w + LZ4_FF_RUN_LIMIT <= i + 1 implies !#[trigger] all_ff(
                    s,
                    w,
                    w + LZ4_FF_RUN_LIMIT,
                ) by {
                if w + LZ4_FF_RUN_LIMIT == i + 1 {
                    assert(s[i - run - 1] != 0xFFu8);
                }
            }
            run = run + 1;
        } else {
            assert forall|w: int|
                0 <= w && w + LZ4_FF_RUN_LIMIT <= i + 1 implies !#[trigger] all_ff(
                    s,
                    w,
                    w + LZ4_FF_RUN_LIMIT,
                ) by {
                if w + LZ4_FF_RUN_LIMIT == i + 1 {
                    assert(s[i as int] != 0xFFu8);
                }
            }
            run = 0;
        }
        i = i + 1;
    }
    false
}

/// The form in which `data` travels: its LZ4 block when compression is on and
/// the block is strictly shorter, else the raw bytes; the flag says which.
pub open spec fn encoded_payload(data: Seq<u8>, use_compression: bool) -> (Seq<u8>, bool) {
    if use_compression && lz4_block_of(data).len() < data.len() {
        (lz4_block_of(data), true)
    } else {
        (data, false)
    }
}

/// What a payload decodes to: the LZ4-decoded bytes when flagged (nothing
/// for a block with an overlong 0xFF run), else the bytes as they are.
pub open spec fn decoded_payload(data: Seq<u8>, compressed: bool) -> Option<Seq<u8>> {
    if compressed {
        if has_long_ff_run(data) {
            None
        } else {
            lz4_decoded(data)
        }
    } else {
        Some(data)
    }
}

/// Compresses `data` when that makes it strictly shorter; the flag says whether it did.
pub fn compress_if_smaller(data: &[u8]) -> (r: (Vec<u8>, bool))
    ensures
        (r.0@, r.1) == encoded_payload(data@, true),
        r.0@.len() == 0 ==> data@.len() == 0,
{
    let compressed = lz4_compress(data);
    if compressed.len() < data.len() {
        (compressed, true)
    } else {
        let mut raw: Vec<u8> = Vec::new();
        raw.extend_from_slice(data);
        (raw, false)
    }
}

/// Encodes `data` for the wire under the given compression policy.
pub fn encode_payload(data: &[u8], use_compression: bool) -> (r: (Vec<u8>, bool))
    ensures
        (r.0@, r.1) == encoded_payload(data@, use_compression),
        r.0@.len() == 0 ==> data@.len() == 0,
{
    if use_compression {
        compress_if_smaller(data)
    } else {
        let mut raw: Vec<u8> = Vec::new();
        raw.extend_from_slice(data);
        (raw, false)
    }
}

/// The payload could not be decoded.
#[derive(Debug, Clone, Copy, PartialEq, Eq, Structural)]
pub enum PayloadError {
    /// The flagged LZ4 block is malformed, or holds an overlong 0xFF run.
    Decompress,
}

/// Decodes a payload received with its compression flag. A flagged block
/// holding an overlong run of 0xFF bytes is refused before decoding. Whatever
/// `encode_payload` made of bytes whose length fits a `u32` decodes back to
/// those bytes, and so does any flagged LZ4 block of such bytes, when it
/// holds no such run.
pub fn decode_payload(data: &[u8], compressed: bool) -> (r: Result<Vec<u8>, PayloadError>)
    ensures
        r is Ok <==> decoded_payload(data@, compressed) is Some,
        r is Ok ==> decoded_payload(data@, compressed) == Some(r->Ok_0@),
        forall|x: Seq<u8>, use_compression: bool|
            x.len() <= u32::MAX && !has_long_ff_run(data@) && #[trigger] encoded_payload(
                x,
                use_compression,
            ) == (data@, compressed) ==> r is Ok && r->Ok_0@ == x,
        compressed ==> forall|x: Seq<u8>|
            x.len() <= u32::MAX && !has_long_ff_run(data@) && data@ == #[trigger] lz4_block_of(x)
                ==> r is Ok && r->Ok_0@ == x,
{
    if compressed {
        if long_ff_run(data) {
            return Err(PayloadError::Decompress);
        }
        match lz4_decompress(data) {
            Ok(v) => Ok(v),
            Err(_) => Err(PayloadError::Decompress),
        }
    } else {
        let mut raw: Vec<u8> = Vec::new();
        raw.extend_from_slice(data);
        Ok(raw)
    }
}

/// The wire form of raw delta pages under the given compression policy.
pub open spec fn delta_payload_matches(
    raw: Seq<(u32, Vec<u8>)>,
    out: Seq<MemoryDeltaPage>,
    use_compression: bool,
) -> bool {
    &&& out.len() == raw.len()
    &&& forall|k: int|
        0 <= k < raw.len() ==> {
            &&& (#[trigger] out[k]).page_index == raw[k].0
            &&& (out[k].data@, out[k].data_compressed) == encoded_payload(
                raw[k].1@,
                use_compression,
            )
        }
}

/// Builds the wire form of raw delta pages, compressing each page on its own
/// when compression is on and it shrinks the page.
pub fn build_delta_pages_payload(raw_pages: &[(u32, Vec<u8>)], use_compression: bool) -> (r: Vec<
    MemoryDeltaPage,
>)
    ensures
        delta_payload_matches(raw_pages@, r@, use_compression),
{
    let mut out: Vec<MemoryDeltaPage> = Vec::new();
    let mut k: usize = 0;
    while k < raw_pages.len()
        invariant
            k <= raw_pages@.len(),
            out@.len() == k,
            forall|j: int|
                0 <= j < k ==> {
                    &&& (#[trigger] out@[j]).page_index == raw_pages@[j].0
                    &&& (out@[j].data@, out@[j].data_compressed) == encoded_payload(
                        raw_pages@[j].1@,
                        use_compression,
                    )
                },
        decreases raw_pages@.len() - k,
    {
        let (payload, data_compressed) = encode_payload(raw_pages[k].1.as_slice(), use_compression);
        let ghost before = out@;
        out.push(MemoryDeltaPage { page_index: raw_pages[k].0, data: payload, data_compressed });
        assert(forall|j: int| 0 <= j < k ==> out@[j] == before[j]);
        k = k + 1;
    }
    out
}

} // verus!
