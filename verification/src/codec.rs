use vstd::prelude::*;
use vstd::bytes::*;
use vstd::slice::*;
use crate::image::{Image, ImageView};

verus! {

/// Decoding failed: the buffer ends before a length prefix is complete, or
/// before the field bytes a length prefix announced.
#[derive(Debug, Clone, Copy, PartialEq, Eq, Structural)]
pub enum DecodeError {
    UnexpectedEnd,
}

/// The fixed binary form of an image record: each field as an 8-byte
/// little-endian length followed by the field's bytes, URL first.
pub open spec fn spec_encode(v: ImageView) -> Seq<u8>
    recommends
        v.url.len() <= u64::MAX,
        v.title.len() <= u64::MAX,
{
    spec_u64_to_le_bytes(v.url.len() as u64) + v.url + spec_u64_to_le_bytes(v.title.len() as u64)
        + v.title
}

/// What decoding a buffer yields: `None` where the buffer ends too early,
/// otherwise the two length-prefixed fields. Bytes after the second field
/// are ignored.
pub open spec fn spec_decode(b: Seq<u8>) -> Option<ImageView> {
    if b.len() < 8 {
        None
    } else {
        let url_len = spec_u64_from_le_bytes(b.subrange(0, 8)) as int;
        if b.len() < 8 + url_len {
            None
        } else if b.len() < 16 + url_len {
            None
        } else {
            let title_len = spec_u64_from_le_bytes(b.subrange(8 + url_len, 16 + url_len)) as int;
            if b.len() < 16 + url_len + title_len {
                None
            } else {
                Some(
                    ImageView {
                        url: b.subrange(8, 8 + url_len),
                        title: b.subrange(16 + url_len, 16 + url_len + title_len),
                    },
                )
            }
        }
    }
}

/// Serialize an image record into its fixed binary form.
pub fn encode(image: &Image) -> (r: Vec<u8>)
    ensures
        r@ == spec_encode(image@),
{
    let mut out = u64_to_le_bytes(image.url.len() as u64);
    let mut url = slice_to_vec(image.url.as_slice());
    out.append(&mut url);
    let mut title_len = u64_to_le_bytes(image.title.len() as u64);
    out.append(&mut title_len);
    let mut title = slice_to_vec(image.title.as_slice());
    out.append(&mut title);
    proof {
        assert(out@ =~= spec_encode(image@));
    }
    out
}

/// Deserialize an image record from a buffer in the fixed binary form.
/// Succeeds exactly where the buffer holds both length prefixes and both
/// complete fields; a buffer that ends too early is rejected rather than
/// yielding a partially filled record.
pub fn decode(bytes: &[u8]) -> (r: Result<Image, DecodeError>)
    ensures
        match spec_decode(bytes@) {
            Some(v) => r is Ok && r->Ok_0@ == v,
            None => r == Err::<Image, DecodeError>(DecodeError::UnexpectedEnd),
        },
{
    if bytes.len() < 8 {
        return Err(DecodeError::UnexpectedEnd);
    }
    let url_len64 = u64_from_le_bytes(slice_subrange(bytes, 0, 8));
    if url_len64 > (bytes.len() - 8) as u64 {
        return Err(DecodeError::UnexpectedEnd);
    }
    let url_len = url_len64 as usize;
    if bytes.len() - 8 - url_len < 8 {
        return Err(DecodeError::UnexpectedEnd);
    }
    let title_len64 = u64_from_le_bytes(slice_subrange(bytes, 8 + url_len, 16 + url_len));
    if title_len64 > (bytes.len() - 16 - url_len) as u64 {
        return Err(DecodeError::UnexpectedEnd);
    }
    let title_len = title_len64 as usize;
    let url = slice_to_vec(slice_subrange(bytes, 8, 8 + url_len));
    let title = slice_to_vec(slice_subrange(bytes, 16 + url_len, 16 + url_len + title_len));
    Ok(Image { url, title })
}

/// Law: the codec round-trips. Decoding an encoded record yields the record
/// back, for every pair of byte strings, the empty ones included.
pub proof fn lemma_decode_encode(v: ImageView)
    requires
        v.url.len() <= u64::MAX,
        v.title.len() <= u64::MAX,
    ensures
        spec_decode(spec_encode(v)) == Some(v),
{
    lemma_auto_spec_u64_to_from_le_bytes();
    let e = spec_encode(v);
    let url_pre = spec_u64_to_le_bytes(v.url.len() as u64);
    let title_pre = spec_u64_to_le_bytes(v.title.len() as u64);
    let n1 = v.url.len() as int;
    let n2 = v.title.len() as int;
    assert(url_pre.len() == 8);
    assert(title_pre.len() == 8);
    assert(e.len() == 16 + n1 + n2);
    assert(e.subrange(0, 8) =~= url_pre);
    assert(spec_u64_from_le_bytes(e.subrange(0, 8)) == v.url.len() as u64);
    assert(e.subrange(8 + n1, 16 + n1) =~= title_pre);
    assert(spec_u64_from_le_bytes(e.subrange(8 + n1, 16 + n1)) == v.title.len() as u64);
    assert(e.subrange(8, 8 + n1) =~= v.url);
    assert(e.subrange(16 + n1, 16 + n1 + n2) =~= v.title);
}

} // verus!
