//! Stored images. An uploaded image is stored as the text of its data URL,
//! `data:<mime type>;base64,<base64 data>`; serving it means reading the
//! MIME type and decoding the data.

use vstd::prelude::*;
use vstd::string::StringSliceAdditionalSpecFns;
use vstd::utf8::encode_utf8;

use base64::Engine;

verus! {

/// Directory that uploaded content is stored in.
pub const USER_CONTENT_DIR: &'static str = "usercontent";

/// What the standard base64 engine (alphabet `A-Z a-z 0-9 + /`, padding
/// required) decodes `input` to; `None` where it refuses the input.
pub uninterp spec fn base64_standard_decode(input: Seq<u8>) -> Option<Seq<u8>>;

/// Calls `base64::engine::general_purpose::STANDARD.decode` on the text's
/// bytes. Claims that the outcome is [`base64_standard_decode`] of them,
/// the error being dropped.
#[verifier::external_body]
fn decode_base64(input: &str) -> (r: Option<Vec<u8>>)
    ensures
        match base64_standard_decode(input.spec_bytes()) {
            Some(b) => r matches Some(v) && v@ == b,
            None => r is None,
        },
{
    base64::engine::general_purpose::STANDARD.decode(input).ok()
}

/// Whether `pat` occurs in `s` at position `i`.
pub open spec fn occurs_at(s: Seq<char>, pat: Seq<char>, i: int) -> bool {
    0 <= i && i + pat.len() <= s.len() && s.subrange(i, i + pat.len()) == pat
}

/// Whether `i` is the first position at which `pat` occurs in `s`.
pub open spec fn first_occurrence(s: Seq<char>, pat: Seq<char>, i: int) -> bool {
    occurs_at(s, pat, i) && forall|j: int| 0 <= j < i ==> !occurs_at(s, pat, j)
}

/// `s` split around the first occurrence of `pat`: the text before it and
/// the text after it; `None` where `pat` does not occur.
pub open spec fn split_once_spec(s: Seq<char>, pat: Seq<char>) -> Option<(Seq<char>, Seq<char>)> {
    if exists|i: int| first_occurrence(s, pat, i) {
        let i = choose|i: int| first_occurrence(s, pat, i);
        Some((s.subrange(0, i), s.subrange(i + pat.len(), s.len() as int)))
    } else {
        None
    }
}

proof fn lemma_first_occurrence_unique(s: Seq<char>, pat: Seq<char>, i: int, j: int)
    requires
        first_occurrence(s, pat, i),
        first_occurrence(s, pat, j),
    ensures
        i == j,
{
}

/// Whether `pat` occurs in `s` at `i`, comparing character by character.
fn matches_at(s: &str, n: usize, pat: &str, m: usize, i: usize) -> (r: bool)
    requires
        n == s@.len(),
        m == pat@.len(),
        i + m <= n,
    ensures
        r == occurs_at(s@, pat@, i as int),
{
    let mut k: usize = 0;
    while k < m
        invariant
            n == s@.len(),
            m == pat@.len(),
            i + m <= n,
            k <= m,
            forall|q: int| 0 <= q < k ==> s@[i + q] == pat@[q],
        decreases m - k,
    {
        if s.get_char(i + k) != pat.get_char(k) {
            assert(s@.subrange(i as int, i + m)[k as int] != pat@[k as int]);
            return false;
        }
        k = k + 1;
    }
    assert(s@.subrange(i as int, i + m) =~= pat@);
    true
}

/// Splits `s` around the first occurrence of `pat`.
pub fn split_once<'a>(s: &'a str, pat: &str) -> (r: Option<(&'a str, &'a str)>)
    ensures
        match split_once_spec(s@, pat@) {
            Some((a, b)) => r matches Some((x, y)) && x@ == a && y@ == b,
            None => r is None,
        },
{
    let n = s.unicode_len();
    let m = pat.unicode_len();
    if m > n {
        assert forall|i: int| !first_occurrence(s@, pat@, i) by {}
        return None;
    }
    let last = n - m;
    let mut i: usize = 0;
    loop
        invariant
            n == s@.len(),
            m == pat@.len(),
            last == n - m,
            i <= last,
            forall|j: int| 0 <= j < i ==> !occurs_at(s@, pat@, j),
        ensures
            forall|j: int| 0 <= j <= last ==> !occurs_at(s@, pat@, j),
        decreases last - i,
    {
        if matches_at(s, n, pat, m, i) {
            proof {
                assert(first_occurrence(s@, pat@, i as int));
                let c = choose|c: int| first_occurrence(s@, pat@, c);
                lemma_first_occurrence_unique(s@, pat@, i as int, c);
            }
            let before = s.substring_char(0, i);
            let after = s.substring_char(i + m, n);
            return Some((before, after));
        }
        if i == last {
            break;
        }
        i = i + 1;
    }
    assert forall|j: int| !first_occurrence(s@, pat@, j) by {
        if 0 <= j && j + m <= n {
            assert(j <= last);
        }
    }
    None
}

/// A stored image ready to be served: its MIME type and its bytes.
#[derive(Clone, Debug)]
pub struct ImageFile {
    pub mime: String,
    pub data: Vec<u8>,
}

/// The MIME type and the data text of a stored data URL: the data follows
/// the first `,`; the MIME type lies, in the text before it, between the
/// first `data:` and the first `;base64` after that.
pub open spec fn data_url_parts(raw: Seq<char>) -> Option<(Seq<char>, Seq<char>)> {
    match split_once_spec(raw, ","@) {
        None => None,
        Some((header, data)) => match split_once_spec(header, "data:"@) {
            None => None,
            Some((_, rest)) => match split_once_spec(rest, ";base64"@) {
                None => None,
                Some((mime, _)) => Some((mime, data)),
            },
        },
    }
}

/// Splitting at the first occurrence of `pat` gives the text before it and
/// the text after it.
proof fn lemma_split_at(s: Seq<char>, pat: Seq<char>, i: int)
    requires
        first_occurrence(s, pat, i),
    ensures
        split_once_spec(s, pat) == Some((s.subrange(0, i), s.subrange(i + pat.len(), s.len() as int))),
{
    let c = choose|c: int| first_occurrence(s, pat, c);
    lemma_first_occurrence_unique(s, pat, i, c);
}

/// The parts of a data URL are the ones it was written with: for the text
/// `data:` + `mime` + `;base64,` + `data`, where `mime` holds no `,` and no
/// `;base64`, the MIME type read is `mime` and the data text is `data`.
pub proof fn law_data_url_parts(mime: Seq<char>, data: Seq<char>)
    requires
        forall|i: int| 0 <= i < mime.len() ==> mime[i] != ',',
        forall|i: int| !occurs_at(mime, ";base64"@, i),
    ensures
        data_url_parts("data:"@ + mime + ";base64,"@ + data) == Some((mime, data)),
{
    reveal_strlit("data:");
    reveal_strlit(";base64,");
    reveal_strlit(";base64");
    reveal_strlit(",");
    let d = "data:"@;
    let b = ";base64"@;
    let bc = ";base64,"@;
    let c = ","@;
    let n = mime.len() as int;
    let raw = d + mime + bc + data;
    let p = 5 + n + 7;
    assert(raw[p] == ',');
    assert(raw.subrange(p, p + 1) =~= c);
    assert forall|j: int| 0 <= j < p implies !occurs_at(raw, c, j) by {
        if occurs_at(raw, c, j) {
            assert(raw.subrange(j, j + 1)[0] == raw[j]);
            assert(raw[j] == ',');
            if j < 5 {
                assert(raw[j] == d[j]);
            } else if j < 5 + n {
                assert(raw[j] == mime[j - 5]);
            } else {
                assert(raw[j] == bc[j - 5 - n]);
            }
        }
    }
    assert(first_occurrence(raw, c, p));
    lemma_split_at(raw, c, p);
    let header = raw.subrange(0, p);
    assert(header =~= d + mime + b);
    assert(raw.subrange(p + 1, raw.len() as int) =~= data);
    assert(header.subrange(0, 5) =~= d);
    assert(first_occurrence(header, d, 0));
    lemma_split_at(header, d, 0);
    let rest = header.subrange(5, header.len() as int);
    assert(rest =~= mime + b);
    assert(rest.subrange(n, n + 7) =~= b);
    assert forall|j: int| 0 <= j < n implies !occurs_at(rest, b, j) by {
        if occurs_at(rest, b, j) {
            if j + 7 <= n {
                assert(rest.subrange(j, j + 7) =~= mime.subrange(j, j + 7));
                assert(occurs_at(mime, b, j));
            } else {
                assert(rest.subrange(j, j + 7)[n - j] == rest[n]);
                assert(rest[n] == ';');
                assert(b[n - j] != ';');
            }
        }
    }
    assert(first_occurrence(rest, b, n));
    lemma_split_at(rest, b, n);
    assert(rest.subrange(0, n) =~= mime);
}

/// Reads a stored image: the MIME type from the data URL's header and the
/// bytes from its base64 data. `None` where the text is not such a data URL
/// or the data is not valid base64.
pub fn decode_image_file(raw: &str) -> (r: Option<ImageFile>)
    ensures
        match data_url_parts(raw@) {
            None => r is None,
            Some((mime, data)) => match base64_standard_decode(encode_utf8(data)) {
                None => r is None,
                Some(bytes) => r matches Some(f) && f.mime@ == mime && f.data@ == bytes,
            },
        },
{
    let (header, image_data) = match split_once(raw, ",") {
        Some(p) => p,
        None => return None,
    };
    let rest = match split_once(header, "data:") {
        Some((_, rest)) => rest,
        None => return None,
    };
    let mime = match split_once(rest, ";base64") {
        Some((mime, _)) => mime,
        None => return None,
    };
    let data = decode_base64(image_data);
    match data {
        Some(data) => Some(ImageFile { mime: mime.to_owned(), data }),
        None => None,
    }
}

} // verus!
