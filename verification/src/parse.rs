//! Parameter extraction: the request-path grammar.
//!
//! A transcode request path has the shape
//! `/{png|jpg}/{width}/{height}/...?...src=<url-encoded absolute URL>...`
//! where width and height are 2 to 4 decimal digits whose value is at least
//! 10. The `src` query parameter, form-url-decoded, must be an absolute URL
//! (`scheme://` followed by a non-empty remainder, printable ASCII only).
//! Every malformed path yields the same [`ParseError`].

use vstd::prelude::*;

use crate::errors::ParseError;
use crate::format::Format;

verus! {

// ---------------------------------------------------------------------------
// Byte classes
// ---------------------------------------------------------------------------

/// ASCII decimal digit.
pub open spec fn is_digit(b: u8) -> bool {
    48 <= b <= 57
}

/// ASCII letter.
pub open spec fn is_alpha(b: u8) -> bool {
    (65 <= b <= 90) || (97 <= b <= 122)
}

/// A byte allowed in a URL scheme: letter, digit, `+`, `-` or `.`.
pub open spec fn is_scheme_byte(b: u8) -> bool {
    is_alpha(b) || is_digit(b) || b == 43 || b == 45 || b == 46
}

/// Printable (graphic) ASCII, space excluded.
pub open spec fn is_graphic(b: u8) -> bool {
    33 <= b <= 126
}

/// ASCII hex digit.
pub open spec fn is_hex(b: u8) -> bool {
    is_digit(b) || (65 <= b <= 70) || (97 <= b <= 102)
}

/// Numeric value of one hex digit.
pub open spec fn hex_value(b: u8) -> u8
    recommends
        is_hex(b),
{
    if 48 <= b <= 57 {
        (b - 48) as u8
    } else if 65 <= b <= 70 {
        (b - 55) as u8
    } else {
        (b - 87) as u8
    }
}

// ---------------------------------------------------------------------------
// Searching and runs
// ---------------------------------------------------------------------------

/// Index of the first occurrence of `b` in `s` at or after `from`, or
/// `s.len()` if there is none.
pub open spec fn find_byte(s: Seq<u8>, from: int, b: u8) -> int
    decreases s.len() - from,
{
    if !(0 <= from < s.len()) {
        s.len() as int
    } else if s[from] == b {
        from
    } else {
        find_byte(s, from + 1, b)
    }
}

/// Index of the first byte at or after `from` that is not a decimal digit,
/// or `s.len()` if the digits run to the end.
pub open spec fn digit_run_end(s: Seq<u8>, from: int) -> int
    decreases s.len() - from,
{
    if !(0 <= from < s.len()) {
        s.len() as int
    } else if is_digit(s[from]) {
        digit_run_end(s, from + 1)
    } else {
        from
    }
}

/// Index of the first byte at or after `from` that is not a scheme byte, or
/// `s.len()` if scheme bytes run to the end.
pub open spec fn scheme_run_end(s: Seq<u8>, from: int) -> int
    decreases s.len() - from,
{
    if !(0 <= from < s.len()) {
        s.len() as int
    } else if is_scheme_byte(s[from]) {
        scheme_run_end(s, from + 1)
    } else {
        from
    }
}

pub proof fn lemma_find_byte_bounds(s: Seq<u8>, from: int, b: u8)
    requires
        0 <= from <= s.len(),
    ensures
        from <= find_byte(s, from, b) <= s.len(),
        find_byte(s, from, b) < s.len() ==> s[find_byte(s, from, b)] == b,
        forall|j: int| from <= j < find_byte(s, from, b) ==> s[j] != b,
    decreases s.len() - from,
{
    if from < s.len() && s[from] != b {
        lemma_find_byte_bounds(s, from + 1, b);
    }
}

proof fn lemma_digit_run_end_bounds(s: Seq<u8>, from: int)
    requires
        0 <= from <= s.len(),
    ensures
        from <= digit_run_end(s, from) <= s.len(),
        digit_run_end(s, from) < s.len() ==> !is_digit(s[digit_run_end(s, from)]),
        forall|j: int| from <= j < digit_run_end(s, from) ==> is_digit(s[j]),
    decreases s.len() - from,
{
    if from < s.len() && is_digit(s[from]) {
        lemma_digit_run_end_bounds(s, from + 1);
    }
}

// ---------------------------------------------------------------------------
// Decimal values
// ---------------------------------------------------------------------------

/// Value of a big-endian run of decimal digit bytes.
pub open spec fn digits_value(s: Seq<u8>) -> int
    decreases s.len(),
{
    if s.len() == 0 {
        0
    } else {
        digits_value(s.drop_last()) * 10 + (s.last() - 48)
    }
}

/// All bytes of `s` are decimal digits.
pub open spec fn all_digits(s: Seq<u8>) -> bool {
    forall|i: int| 0 <= i < s.len() ==> is_digit(#[trigger] s[i])
}

/// A run of at most three digits has a value below 1000.
proof fn lemma_digits_value_below_1000(s: Seq<u8>)
    requires
        all_digits(s),
        s.len() <= 3,
    ensures
        0 <= digits_value(s) < 1000,
    decreases s.len(),
{
    if s.len() > 0 {
        assert(all_digits(s.drop_last())) by {
            assert(forall|i: int|
                0 <= i < s.len() - 1 ==> is_digit(#[trigger] s.drop_last()[i]));
        }
        lemma_digits_value_below_100(s.drop_last());
        assert(is_digit(s.last()));
    }
}

proof fn lemma_digits_value_below_100(s: Seq<u8>)
    requires
        all_digits(s),
        s.len() <= 2,
    ensures
        0 <= digits_value(s) < 100,
    decreases s.len(),
{
    if s.len() > 0 {
        assert(all_digits(s.drop_last())) by {
            assert(forall|i: int|
                0 <= i < s.len() - 1 ==> is_digit(#[trigger] s.drop_last()[i]));
        }
        lemma_digits_value_below_10(s.drop_last());
        assert(is_digit(s.last()));
    }
}

proof fn lemma_digits_value_below_10(s: Seq<u8>)
    requires
        all_digits(s),
        s.len() <= 1,
    ensures
        0 <= digits_value(s) < 10,
{
    if s.len() > 0 {
        assert(s.drop_last().len() == 0);
        assert(digits_value(s.drop_last()) == 0);
        assert(is_digit(s.last()));
    }
}

// ---------------------------------------------------------------------------
// Form-url decoding
// ---------------------------------------------------------------------------

/// Form-url decoding of a query component: `+` becomes a space, `%XX` with
/// two hex digits becomes the byte `XX`, and any malformed `%` sequence is
/// kept literally.
pub open spec fn form_decode(s: Seq<u8>) -> Seq<u8>
    decreases s.len(),
{
    if s.len() == 0 {
        Seq::empty()
    } else if s[0] == 43 {
        seq![32u8] + form_decode(s.skip(1))
    } else if s[0] == 37 && s.len() >= 3 && is_hex(s[1]) && is_hex(s[2]) {
        seq![(hex_value(s[1]) * 16 + hex_value(s[2])) as u8] + form_decode(s.skip(3))
    } else {
        seq![s[0]] + form_decode(s.skip(1))
    }
}

/// One hex digit's value, executable.
fn hex_value_exec(b: u8) -> (r: u8)
    requires
        is_hex(b),
    ensures
        r == hex_value(b),
{
    if 48 <= b && b <= 57 {
        b - 48
    } else if 65 <= b && b <= 70 {
        b - 55
    } else {
        b - 87
    }
}

fn is_hex_exec(b: u8) -> (r: bool)
    ensures
        r == is_hex(b),
{
    (48 <= b && b <= 57) || (65 <= b && b <= 70) || (97 <= b && b <= 102)
}

/// Form-url decoding, executable.
fn form_decode_exec(s: &[u8]) -> (r: Vec<u8>)
    ensures
        r@ == form_decode(s@),
{
    let mut out: Vec<u8> = Vec::new();
    let mut i: usize = 0;
    assert(s@.skip(0) =~= s@);
    while i < s.len()
        invariant
            i <= s.len(),
            form_decode(s@) == out@ + form_decode(s@.skip(i as int)),
        decreases s.len() - i,
    {
        let ghost pre = s@.skip(i as int);
        let b = s[i];
        assert(pre[0] == b);
        if b == 43 {
            out.push(32);
            assert(s@.skip(i as int).skip(1) =~= s@.skip(i + 1));
            i = i + 1;
        } else if b == 37 && s.len() - i >= 3 && is_hex_exec(s[i + 1]) && is_hex_exec(s[i + 2]) {
            assert(pre.len() >= 3 && pre[1] == s@[i + 1] && pre[2] == s@[i + 2]);
            let v = hex_value_exec(s[i + 1]) * 16 + hex_value_exec(s[i + 2]);
            out.push(v);
            assert(s@.skip(i as int).skip(3) =~= s@.skip(i + 3));
            i = i + 3;
        } else {
            assert(pre.len() >= 3 ==> (pre[1] == s@[i + 1] && pre[2] == s@[i + 2]));
            out.push(b);
            assert(s@.skip(i as int).skip(1) =~= s@.skip(i + 1));
            i = i + 1;
        }
    }
    assert(s@.skip(i as int) =~= Seq::empty());
    assert(out@ =~= form_decode(s@));
    out
}

// ---------------------------------------------------------------------------
// Query-string scanning
// ---------------------------------------------------------------------------

/// The bytes of the query key `src`.
pub open spec fn src_key() -> Seq<u8> {
    seq![115u8, 114u8, 99u8]
}

/// The query string of a path: everything after the first `?`, up to (not
/// including) the first following `#`. A path with no `?` has no query;
/// neither has one whose first `#` precedes the first `?`, since that `?`
/// then sits inside the fragment.
pub open spec fn query_of(path: Seq<u8>) -> Option<Seq<u8>> {
    let qm = find_byte(path, 0, 63);
    let hm = find_byte(path, 0, 35);
    if qm == path.len() || hm < qm {
        None
    } else {
        Some(path.subrange(qm + 1, find_byte(path, qm + 1, 35)))
    }
}

/// The form-url-decoded value of the first `src` key in the query string, or
/// `None` if no pair has that (decoded) key. Pairs are separated by `&`; a
/// pair without `=` has an empty value.
pub open spec fn find_src(q: Seq<u8>) -> Option<Seq<u8>>
    decreases q.len(),
{
    if q.len() == 0 {
        None
    } else {
        let amp = find_byte(q, 0, 38);
        let pair = q.subrange(0, amp);
        let eq = find_byte(pair, 0, 61);
        let key = form_decode(pair.subrange(0, eq));
        let val = if eq == pair.len() {
            Seq::<u8>::empty()
        } else {
            form_decode(pair.subrange(eq + 1, pair.len() as int))
        };
        if key == src_key() {
            Some(val)
        } else if amp == q.len() {
            None
        } else {
            proof {
                lemma_find_byte_bounds(q, 0, 38);
            }
            find_src(q.skip(amp + 1))
        }
    }
}

/// First occurrence of a byte, executable.
pub fn find_byte_exec(s: &[u8], from: usize, b: u8) -> (r: usize)
    requires
        from <= s@.len(),
    ensures
        r == find_byte(s@, from as int, b),
        from <= r <= s@.len(),
        r < s@.len() ==> s@[r as int] == b,
{
    let mut i: usize = from;
    while i < s.len()
        invariant
            from <= i <= s@.len(),
            find_byte(s@, from as int, b) == find_byte(s@, i as int, b),
        decreases s@.len() - i,
    {
        if s[i] == b {
            return i;
        }
        i = i + 1;
    }
    i
}

/// End of the digit run starting at `from`, executable.
fn digit_run_end_exec(s: &[u8], from: usize) -> (r: usize)
    requires
        from <= s@.len(),
    ensures
        r == digit_run_end(s@, from as int),
        from <= r <= s@.len(),
{
    let mut i: usize = from;
    while i < s.len()
        invariant
            from <= i <= s@.len(),
            digit_run_end(s@, from as int) == digit_run_end(s@, i as int),
        decreases s@.len() - i,
    {
        if !(48 <= s[i] && s[i] <= 57) {
            return i;
        }
        i = i + 1;
    }
    i
}

/// End of the scheme-byte run starting at `from`, executable.
fn scheme_run_end_exec(s: &[u8], from: usize) -> (r: usize)
    requires
        from <= s@.len(),
    ensures
        r == scheme_run_end(s@, from as int),
        from <= r <= s@.len(),
{
    let mut i: usize = from;
    while i < s.len()
        invariant
            from <= i <= s@.len(),
            scheme_run_end(s@, from as int) == scheme_run_end(s@, i as int),
        decreases s@.len() - i,
    {
        let b = s[i];
        let alpha = (65 <= b && b <= 90) || (97 <= b && b <= 122);
        let digit = 48 <= b && b <= 57;
        if !(alpha || digit || b == 43 || b == 45 || b == 46) {
            return i;
        }
        i = i + 1;
    }
    i
}

/// Scans the query string for the first `src` pair and hands back its
/// decoded value.
fn find_src_exec(q: &[u8]) -> (r: Option<Vec<u8>>)
    ensures
        match find_src(q@) {
            Some(v) => r matches Some(rv) && rv@ == v,
            None => r is None,
        },
{
    let mut p: usize = 0;
    assert(q@.skip(0) =~= q@);
    while p < q.len()
        invariant
            p <= q@.len(),
            find_src(q@) == find_src(q@.skip(p as int)),
        decreases q@.len() - p,
    {
        let rest = &q[p..q.len()];
        assert(rest@ =~= q@.skip(p as int));
        let amp = find_byte_exec(rest, 0, 38);
        let pair = &rest[0..amp];
        let eq = find_byte_exec(pair, 0, 61);
        let key = form_decode_exec(&pair[0..eq]);
        let is_src = key.len() == 3 && key[0] == 115 && key[1] == 114 && key[2] == 99;
        proof {
            if is_src {
                assert(key@ =~= src_key());
            } else {
                assert(key@ != src_key());
            }
        }
        if is_src {
            let val = if eq == pair.len() {
                Vec::<u8>::new()
            } else {
                form_decode_exec(&pair[eq + 1..pair.len()])
            };
            assert(find_src(q@.skip(p as int)) == Some(val@));
            return Some(val);
        }
        if amp == rest.len() {
            return None;
        }
        assert(rest@.skip(amp + 1) =~= q@.skip(p + amp + 1));
        p = p + amp + 1;
    }
    assert(q@.skip(p as int) =~= Seq::<u8>::empty());
    None
}

// ---------------------------------------------------------------------------
// Source URL validation
// ---------------------------------------------------------------------------

/// A usable absolute source URL: a scheme (a letter followed by letters,
/// digits, `+`, `-` or `.`), then `://`, then a non-empty remainder, with
/// every byte printable ASCII.
pub open spec fn is_valid_src_url(s: Seq<u8>) -> bool {
    let se = scheme_run_end(s, 0);
    &&& s.len() >= 1
    &&& is_alpha(s[0])
    &&& se + 4 <= s.len()
    &&& s[se] == 58
    &&& s[se + 1] == 47
    &&& s[se + 2] == 47
    &&& forall|i: int| 0 <= i < s.len() ==> is_graphic(#[trigger] s[i])
}

/// Validates a candidate source URL, executable.
fn is_valid_src_url_exec(u: &[u8]) -> (r: bool)
    ensures
        r == is_valid_src_url(u@),
{
    if u.len() == 0 {
        return false;
    }
    let b0 = u[0];
    if !((65 <= b0 && b0 <= 90) || (97 <= b0 && b0 <= 122)) {
        return false;
    }
    let se = scheme_run_end_exec(u, 0);
    if u.len() < 4 || se > u.len() - 4 {
        return false;
    }
    if !(u[se] == 58 && u[se + 1] == 47 && u[se + 2] == 47) {
        return false;
    }
    let mut i: usize = 0;
    while i < u.len()
        invariant
            i <= u@.len(),
            forall|j: int| 0 <= j < i ==> is_graphic(#[trigger] u@[j]),
            u@.len() >= 1 && is_alpha(u@[0]),
            scheme_run_end(u@, 0) + 4 <= u@.len(),
            u@[scheme_run_end(u@, 0)] == 58,
            u@[scheme_run_end(u@, 0) + 1] == 47,
            u@[scheme_run_end(u@, 0) + 2] == 47,
        decreases u@.len() - i,
    {
        if !(33 <= u[i] && u[i] <= 126) {
            return false;
        }
        i = i + 1;
    }
    true
}

// ---------------------------------------------------------------------------
// Generic byte-sequence equality
// ---------------------------------------------------------------------------

/// Slice equality, byte for byte.
pub fn bytes_eq(a: &[u8], b: &[u8]) -> (r: bool)
    ensures
        r == (a@ == b@),
{
    if a.len() != b.len() {
        assert(a@ != b@);
        return false;
    }
    let mut i: usize = 0;
    while i < a.len()
        invariant
            i <= a.len(),
            a@.len() == b@.len(),
            forall|j: int| 0 <= j < i ==> a@[j] == b@[j],
        decreases a.len() - i,
    {
        if a[i] != b[i] {
            assert(a@ != b@);
            return false;
        }
        i = i + 1;
    }
    assert(a@ =~= b@);
    true
}

// ---------------------------------------------------------------------------
// The path grammar
// ---------------------------------------------------------------------------

/// The bytes of the path segment `png`.
pub open spec fn png_seg() -> Seq<u8> {
    seq![112u8, 110u8, 103u8]
}

/// The bytes of the path segment `jpg`.
pub open spec fn jpg_seg() -> Seq<u8> {
    seq![106u8, 112u8, 103u8]
}

/// The output format requested by the path's first segment: `/png/...` or
/// `/jpg/...`.
pub open spec fn path_format(path: Seq<u8>) -> Option<Format> {
    if path.len() >= 5 && path[0] == 47 && path[4] == 47 {
        let seg = path.subrange(1, 4);
        if seg == png_seg() {
            Some(Format::Png)
        } else if seg == jpg_seg() {
            Some(Format::Jpeg)
        } else {
            None
        }
    } else {
        None
    }
}

/// The width and height segments of the path: two runs of 2 to 4 digits,
/// each closed by `/`, immediately after the format segment.
pub open spec fn path_dims(path: Seq<u8>) -> Option<(int, int)> {
    let we = digit_run_end(path, 5);
    if 2 <= we - 5 <= 4 && we < path.len() && path[we] == 47 {
        let he = digit_run_end(path, we + 1);
        if 2 <= he - (we + 1) <= 4 && he < path.len() && path[he] == 47 {
            Some((digits_value(path.subrange(5, we)), digits_value(path.subrange(we + 1, he))))
        } else {
            None
        }
    } else {
        None
    }
}

/// The fully parsed routing prefix: format, width and height, with both
/// dimensions at least 10 (and, by the digit count, at most 9999).
pub open spec fn parse_path_spec(path: Seq<u8>) -> Option<(Format, int, int)> {
    match path_format(path) {
        None => None,
        Some(f) => match path_dims(path) {
            None => None,
            Some((w, h)) => if 10 <= w && 10 <= h {
                Some((f, w, h))
            } else {
                None
            },
        },
    }
}

/// The complete extraction: routing prefix plus a valid `src` source URL
/// from the query string.
pub open spec fn extract_spec(path: Seq<u8>) -> Option<(Format, int, int, Seq<u8>)> {
    match parse_path_spec(path) {
        None => None,
        Some((f, w, h)) => match query_of(path) {
            None => None,
            Some(q) => match find_src(q) {
                None => None,
                Some(u) => if is_valid_src_url(u) {
                    Some((f, w, h, u))
                } else {
                    None
                },
            },
        },
    }
}

/// A typed transcode request, as extracted from a well-formed path.
#[derive(Debug, PartialEq, Eq)]
pub struct TranscodeRequest {
    /// Requested output format; always PNG or JPEG.
    pub format: Format,
    /// Requested output width in pixels.
    pub width: u32,
    /// Requested output height in pixels.
    pub height: u32,
    /// The validated absolute source URL, as bytes.
    pub src_url: Vec<u8>,
}

impl TranscodeRequest {
    /// The invariant every extracted request satisfies.
    pub open spec fn wf(&self) -> bool {
        &&& self.format.is_output()
        &&& 10 <= self.width <= 9999
        &&& 10 <= self.height <= 9999
        &&& is_valid_src_url(self.src_url@)
    }
}

/// Parses a run of at most four digit bytes into its decimal value.
fn digits_to_u32(s: &[u8], from: usize, to: usize) -> (r: u32)
    requires
        from <= to <= s@.len(),
        to - from <= 4,
        forall|j: int| from <= j < to ==> is_digit(#[trigger] s@[j]),
    ensures
        r == digits_value(s@.subrange(from as int, to as int)),
        r <= 9999,
{
    let mut acc: u32 = 0;
    let mut i: usize = from;
    assert(s@.subrange(from as int, from as int) =~= Seq::<u8>::empty());
    while i < to
        invariant
            from <= i <= to <= s@.len(),
            to - from <= 4,
            forall|j: int| from <= j < to ==> is_digit(#[trigger] s@[j]),
            acc == digits_value(s@.subrange(from as int, i as int)),
            acc <= 9999,
        decreases to - i,
    {
        let ghost prefix = s@.subrange(from as int, i as int);
        proof {
            assert(all_digits(prefix));
            assert(prefix.len() <= 3);
            lemma_digits_value_below_1000(prefix);
        }
        let b = s[i];
        acc = acc * 10 + ((b - 48) as u32);
        assert(s@.subrange(from as int, i + 1).drop_last() =~= prefix);
        assert(s@.subrange(from as int, i + 1).last() == b);
        i = i + 1;
    }
    acc
}

/// Parses a request path into a typed transcode request.
///
/// Succeeds exactly on paths of the shape
/// `/{png|jpg}/{width}/{height}/...` carrying a `src` query parameter that
/// decodes to a valid absolute URL; everything else is a [`ParseError`],
/// deliberately undiscriminated.
pub fn extract(path: &[u8]) -> (r: Result<TranscodeRequest, ParseError>)
    ensures
        match extract_spec(path@) {
            Some(m) => r matches Ok(req) && req.format == m.0 && req.width as int == m.1
                && req.height as int == m.2 && req.src_url@ == m.3 && req.wf(),
            None => r matches Err(e) && e == ParseError,
        },
{
    // Format segment: "/png/" or "/jpg/".
    if path.len() < 5 || path[0] != 47 || path[4] != 47 {
        return Err(ParseError);
    }
    let ghost seg = path@.subrange(1, 4);
    assert(seg.len() == 3 && seg[0] == path@[1] && seg[1] == path@[2] && seg[2] == path@[3]);
    let format = if path[1] == 112 && path[2] == 110 && path[3] == 103 {
        assert(seg =~= png_seg());
        Format::Png
    } else if path[1] == 106 && path[2] == 112 && path[3] == 103 {
        assert(seg =~= jpg_seg());
        Format::Jpeg
    } else {
        assert(seg != png_seg() && seg != jpg_seg());
        return Err(ParseError);
    };

    // Width and height segments.
    let we = digit_run_end_exec(path, 5);
    proof {
        lemma_digit_run_end_bounds(path@, 5);
    }
    if we - 5 < 2 || we - 5 > 4 || we == path.len() || path[we] != 47 {
        return Err(ParseError);
    }
    let he = digit_run_end_exec(path, we + 1);
    proof {
        lemma_digit_run_end_bounds(path@, we + 1);
    }
    if he - (we + 1) < 2 || he - (we + 1) > 4 || he == path.len() || path[he] != 47 {
        return Err(ParseError);
    }
    let width = digits_to_u32(path, 5, we);
    let height = digits_to_u32(path, we + 1, he);
    if width < 10 || height < 10 {
        return Err(ParseError);
    }

    // The src query parameter.
    let qm = find_byte_exec(path, 0, 63);
    let hm = find_byte_exec(path, 0, 35);
    if qm == path.len() || hm < qm {
        return Err(ParseError);
    }
    let hend = find_byte_exec(path, qm + 1, 35);
    let q = &path[qm + 1..hend];
    let url = match find_src_exec(q) {
        Some(u) => u,
        None => {
            return Err(ParseError);
        },
    };
    if !is_valid_src_url_exec(url.as_slice()) {
        return Err(ParseError);
    }
    Ok(TranscodeRequest { format, width, height, src_url: url })
}

} // verus!
