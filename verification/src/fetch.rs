//! Source-response validation: the status check and the content-type gate.
//!
//! Validation looks only at the status code and the `Content-Type` header
//! value: a source whose content type is not exactly `image/png`,
//! `image/jpeg` or `image/gif` (parameters ignored) is rejected without
//! downloading its body.

use vstd::prelude::*;

use crate::errors::TranscodeError;
use crate::format::Format;
use crate::parse::{bytes_eq, find_byte, find_byte_exec};

verus! {

// ---------------------------------------------------------------------------
// Content-type normalization
// ---------------------------------------------------------------------------

/// ASCII upper-case letters fold to lower case; everything else is kept.
pub open spec fn to_lower(b: u8) -> u8 {
    if 65 <= b <= 90 {
        (b + 32) as u8
    } else {
        b
    }
}

/// Byte-wise ASCII lower-casing.
pub open spec fn lower_seq(s: Seq<u8>) -> Seq<u8> {
    Seq::new(s.len(), |i: int| to_lower(s[i]))
}

/// Linear white space inside a header value: space or horizontal tab.
pub open spec fn is_lws(b: u8) -> bool {
    b == 32 || b == 9
}

/// Index of the first byte at or after `from` that is not linear white
/// space, or `s.len()`.
pub open spec fn lws_run_end(s: Seq<u8>, from: int) -> int
    decreases s.len() - from,
{
    if !(0 <= from < s.len()) {
        s.len() as int
    } else if is_lws(s[from]) {
        lws_run_end(s, from + 1)
    } else {
        from
    }
}

/// Length of `s` once trailing linear white space is dropped.
pub open spec fn rtrim_len(s: Seq<u8>) -> int
    decreases s.len(),
{
    if s.len() > 0 && is_lws(s.last()) {
        rtrim_len(s.drop_last())
    } else {
        s.len() as int
    }
}

/// The essence of a content-type header value: the part before any `;`
/// parameters, with surrounding white space dropped and letters folded to
/// lower case.
pub open spec fn ct_essence(h: Seq<u8>) -> Seq<u8> {
    let base = h.subrange(0, find_byte(h, 0, 59));
    let kept = base.subrange(0, rtrim_len(base));
    lower_seq(kept.subrange(lws_run_end(kept, 0), kept.len() as int))
}

/// The bytes of `image/png`.
pub open spec fn mime_png() -> Seq<u8> {
    seq![105u8, 109u8, 97u8, 103u8, 101u8, 47u8, 112u8, 110u8, 103u8]
}

/// The bytes of `image/jpeg`.
pub open spec fn mime_jpeg() -> Seq<u8> {
    seq![105u8, 109u8, 97u8, 103u8, 101u8, 47u8, 106u8, 112u8, 101u8, 103u8]
}

/// The bytes of `image/gif`.
pub open spec fn mime_gif() -> Seq<u8> {
    seq![105u8, 109u8, 97u8, 103u8, 101u8, 47u8, 103u8, 105u8, 102u8]
}

/// The source format a content-type header declares, if it is a supported
/// image type.
pub open spec fn content_type_format(h: Seq<u8>) -> Option<Format> {
    let e = ct_essence(h);
    if e == mime_png() {
        Some(Format::Png)
    } else if e == mime_jpeg() {
        Some(Format::Jpeg)
    } else if e == mime_gif() {
        Some(Format::Gif)
    } else {
        None
    }
}

/// End of the white-space run starting at `from`, executable.
fn lws_run_end_exec(s: &[u8], from: usize) -> (r: usize)
    requires
        from <= s@.len(),
    ensures
        r == lws_run_end(s@, from as int),
        from <= r <= s@.len(),
{
    let mut i: usize = from;
    while i < s.len()
        invariant
            from <= i <= s@.len(),
            lws_run_end(s@, from as int) == lws_run_end(s@, i as int),
        decreases s@.len() - i,
    {
        if !(s[i] == 32 || s[i] == 9) {
            return i;
        }
        i = i + 1;
    }
    i
}

/// ASCII lower-casing, executable.
fn to_lower_vec(s: &[u8]) -> (r: Vec<u8>)
    ensures
        r@ == lower_seq(s@),
{
    let mut out: Vec<u8> = Vec::new();
    let mut i: usize = 0;
    while i < s.len()
        invariant
            i <= s@.len(),
            out@.len() == i,
            forall|j: int| 0 <= j < i ==> out@[j] == to_lower(s@[j]),
        decreases s@.len() - i,
    {
        let b = s[i];
        if 65 <= b && b <= 90 {
            out.push(b + 32);
        } else {
            out.push(b);
        }
        i = i + 1;
    }
    assert(out@ =~= lower_seq(s@));
    out
}

/// Classifies a content-type header value as one of the supported source
/// image types.
pub fn classify_content_type(h: &[u8]) -> (r: Option<Format>)
    ensures
        r == content_type_format(h@),
{
    let semi = find_byte_exec(h, 0, 59);
    let base = &h[0..semi];

    // Drop trailing white space.
    let mut end: usize = base.len();
    assert(base@.subrange(0, end as int) =~= base@);
    while end > 0 && (base[end - 1] == 32 || base[end - 1] == 9)
        invariant
            end <= base@.len(),
            rtrim_len(base@) == rtrim_len(base@.subrange(0, end as int)),
        decreases end,
    {
        assert(base@.subrange(0, end as int).last() == base@[end - 1]);
        assert(base@.subrange(0, end as int).drop_last() =~= base@.subrange(0, end - 1));
        end = end - 1;
    }
    assert(rtrim_len(base@) == end);
    let kept = &base[0..end];

    // Drop leading white space, then fold case.
    let start = lws_run_end_exec(kept, 0);
    let lowered = to_lower_vec(&kept[start..kept.len()]);
    assert(lowered@ == ct_essence(h@));

    let png_t: [u8; 9] = [105, 109, 97, 103, 101, 47, 112, 110, 103];
    let jpeg_t: [u8; 10] = [105, 109, 97, 103, 101, 47, 106, 112, 101, 103];
    let gif_t: [u8; 9] = [105, 109, 97, 103, 101, 47, 103, 105, 102];
    assert(png_t@ =~= mime_png());
    assert(jpeg_t@ =~= mime_jpeg());
    assert(gif_t@ =~= mime_gif());
    if bytes_eq(lowered.as_slice(), png_t.as_slice()) {
        Some(Format::Png)
    } else if bytes_eq(lowered.as_slice(), jpeg_t.as_slice()) {
        Some(Format::Jpeg)
    } else if bytes_eq(lowered.as_slice(), gif_t.as_slice()) {
        Some(Format::Gif)
    } else {
        None
    }
}

// ---------------------------------------------------------------------------
// The head check
// ---------------------------------------------------------------------------

/// What validating a response head yields: the declared source format on
/// success, or the fetch-stage error owed for this head.
pub open spec fn head_check_spec(status: u16, ct: Seq<u8>) -> Result<Format, TranscodeError> {
    if !(200 <= status < 300) {
        Err(TranscodeError::HttpStatusError)
    } else {
        match content_type_format(ct) {
            Some(f) => Ok(f),
            None => Err(TranscodeError::UnsupportedContentType),
        }
    }
}

/// Validates a source response head: a success status, then a supported
/// image content type. Runs before any body bytes are read, so an
/// unsupported type never triggers a download.
pub fn check_response_head(status: u16, content_type: &[u8]) -> (r: Result<
    Format,
    TranscodeError,
>)
    ensures
        r == head_check_spec(status, content_type@),
{
    if !(200 <= status && status < 300) {
        return Err(TranscodeError::HttpStatusError);
    }
    match classify_content_type(content_type) {
        Some(f) => Ok(f),
        None => Err(TranscodeError::UnsupportedContentType),
    }
}

} // verus!
