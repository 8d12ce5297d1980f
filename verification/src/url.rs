//! Percent-encoding of URL pieces (through the `urlencoding` crate) and the
//! serve URLs built from catalog paths.

use vstd::prelude::*;
use vstd::utf8::{encode_utf8, decode_utf8, valid_utf8, encode_scalar};
use crate::text::{chars_of, string_of, split_chars, split_spec, join_spec, push_all, push_chars, string_push};

verus! {

// ---------------------------------------------------------------------------
// Specifications of the crate's two functions
// ---------------------------------------------------------------------------

/// Value of an ASCII hex digit byte (either case).
pub open spec fn hex_digit_value(b: u8) -> Option<u8> {
    if 48 <= b <= 57 {
        Some((b - 48) as u8)
    } else if 65 <= b <= 70 {
        Some((b - 55) as u8)
    } else if 97 <= b <= 102 {
        Some((b - 87) as u8)
    } else {
        None
    }
}

/// Percent-decoding of bytes: `%` followed by two hex digits becomes that
/// byte; any other byte, a lone `%` included, is kept as it is.
pub open spec fn percent_decode(b: Seq<u8>) -> Seq<u8>
    decreases b.len(),
{
    if b.len() == 0 {
        Seq::<u8>::empty()
    } else if b[0] == 37 && b.len() >= 3 && hex_digit_value(b[1]) is Some && hex_digit_value(
        b[2],
    ) is Some {
        seq![(hex_digit_value(b[1])->0 * 16 + hex_digit_value(b[2])->0) as u8] + percent_decode(
            b.skip(3),
        )
    } else {
        seq![b[0]] + percent_decode(b.skip(1))
    }
}

/// Bytes left as they are by percent-encoding: ASCII letters, digits and `-._~`.
pub open spec fn url_safe_byte(b: u8) -> bool {
    ||| 48 <= b <= 57
    ||| 65 <= b <= 90
    ||| 97 <= b <= 122
    ||| b == 45
    ||| b == 46
    ||| b == 95
    ||| b == 126
}

/// Upper-case hex digit for `d < 16`.
pub open spec fn hex_upper(d: int) -> char {
    if d < 10 {
        ((48 + d) as u32) as char
    } else {
        ((55 + d) as u32) as char
    }
}

/// Percent-encoding of bytes: safe bytes stay, every other byte becomes `%XX`.
pub open spec fn percent_encode(b: Seq<u8>) -> Seq<char>
    decreases b.len(),
{
    if b.len() == 0 {
        Seq::<char>::empty()
    } else {
        let head = if url_safe_byte(b[0]) {
            seq![(b[0] as u32) as char]
        } else {
            seq!['%', hex_upper(b[0] as int / 16), hex_upper(b[0] as int % 16)]
        };
        head + percent_encode(b.skip(1))
    }
}

/// `urlencoding::encode` of a text, as characters.
pub open spec fn url_encode_spec(s: Seq<char>) -> Seq<char> {
    percent_encode(encode_utf8(s))
}

/// `urlencoding::decode` of a text: `None` when the decoded bytes are not UTF-8.
pub open spec fn url_decode_spec(s: Seq<char>) -> Option<Seq<char>> {
    let d = percent_decode(encode_utf8(s));
    if valid_utf8(d) {
        Some(decode_utf8(d))
    } else {
        None
    }
}

/// The UTF-8 bytes of an ASCII text without `%` hold no `%` byte.
proof fn lemma_encode_ascii_no_percent(q: Seq<char>)
    requires
        forall|k: int| 0 <= k < q.len() ==> (#[trigger] q[k] as u32) < 128 && (q[k] as u32) != 37,
    ensures
        forall|k: int| 0 <= k < encode_utf8(q).len() ==> #[trigger] encode_utf8(q)[k] != 37,
    decreases q.len(),
{
    if q.len() > 0 {
        lemma_encode_ascii_no_percent(q.drop_first());
        let c = q[0] as u32;
        assert(c < 128);
        assert(c != 37);
        assert(((c & 0x7F) as u8) as u32 == c) by (bit_vector)
            requires
                c < 128,
        ;
        let head = encode_scalar(c);
        assert(head == seq![(c & 0x7F) as u8]);
        let rest = encode_utf8(q.drop_first());
        assert(encode_utf8(q) == head + rest);
        assert forall|k: int| 0 <= k < encode_utf8(q).len() implies #[trigger] encode_utf8(q)[k]
            != 37 by {
            if k > 0 {
                assert(encode_utf8(q)[k] == rest[k - 1]);
            }
        }
    }
}

/// Percent-decoding leaves bytes without `%` unchanged.
proof fn lemma_percent_decode_plain(b: Seq<u8>)
    requires
        forall|k: int| 0 <= k < b.len() ==> #[trigger] b[k] != 37,
    ensures
        percent_decode(b) == b,
    decreases b.len(),
{
    if b.len() > 0 {
        assert forall|k: int| 0 <= k < b.skip(1).len() implies #[trigger] b.skip(1)[k] != 37 by {
            assert(b.skip(1)[k] == b[k + 1]);
        }
        lemma_percent_decode_plain(b.skip(1));
        assert(seq![b[0]] + b.skip(1) =~= b);
    }
}

/// An ASCII text without `%` decodes to itself.
pub proof fn lemma_decode_plain_ascii(q: Seq<char>)
    requires
        forall|k: int| 0 <= k < q.len() ==> (#[trigger] q[k] as u32) < 128 && (q[k] as u32) != 37,
    ensures
        url_decode_spec(q) == Some(q),
{
    broadcast use vstd::utf8::encode_utf8_valid_utf8, vstd::utf8::encode_utf8_decode_utf8;

    lemma_encode_ascii_no_percent(q);
    lemma_percent_decode_plain(encode_utf8(q));
}

/// The UTF-8 encoding of a concatenation is the concatenation of the encodings.
proof fn lemma_encode_utf8_concat(a: Seq<char>, b: Seq<char>)
    ensures
        encode_utf8(a + b) == encode_utf8(a) + encode_utf8(b),
    decreases a.len(),
{
    if a.len() == 0 {
        assert(a + b =~= b);
        assert(encode_utf8(a) =~= Seq::<u8>::empty());
        assert(encode_utf8(a) + encode_utf8(b) =~= encode_utf8(b));
    } else {
        assert((a + b)[0] == a[0]);
        assert((a + b).drop_first() =~= a.drop_first() + b);
        lemma_encode_utf8_concat(a.drop_first(), b);
        assert(encode_scalar(a[0] as u32) + (encode_utf8(a.drop_first()) + encode_utf8(b))
            =~= (encode_scalar(a[0] as u32) + encode_utf8(a.drop_first())) + encode_utf8(b));
    }
}

/// An ASCII character is its own single UTF-8 byte.
proof fn lemma_encode_ascii_char(c: char)
    requires
        (c as u32) < 128,
    ensures
        encode_utf8(seq![c]) == seq![(c as u32) as u8],
{
    let u = c as u32;
    assert(((u & 0x7F) as u8) == (u as u8)) by (bit_vector)
        requires
            u < 128,
    ;
    assert(seq![c].drop_first() =~= Seq::<char>::empty());
    assert(encode_utf8(seq![c]) =~= encode_scalar(u) + encode_utf8(Seq::<char>::empty()));
}

/// The characters of the encoding of one byte.
pub open spec fn encode_byte(b: u8) -> Seq<char> {
    if url_safe_byte(b) {
        seq![(b as u32) as char]
    } else {
        seq!['%', hex_upper(b as int / 16), hex_upper(b as int % 16)]
    }
}

/// A hex digit's character reads back as that digit.
proof fn lemma_hex_upper(d: int)
    requires
        0 <= d < 16,
    ensures
        (hex_upper(d) as u32) < 128,
        hex_digit_value(((hex_upper(d) as u32) as u8)) == Some(d as u8),
        ((hex_upper(d) as u32) as u8) != 37,
{
}

/// Decoding the encoding of one byte, followed by more bytes, gives the byte back first.
proof fn lemma_decode_encoded_byte(b: u8, rest: Seq<u8>)
    ensures
        percent_decode(encode_utf8(encode_byte(b)) + rest) == seq![b] + percent_decode(rest),
{
    if url_safe_byte(b) {
        let c = (b as u32) as char;
        assert(c as u32 == b as u32);
        lemma_encode_ascii_char(c);
        let t = seq![b] + rest;
        assert(encode_utf8(encode_byte(b)) + rest =~= t);
        assert(t[0] == b && b != 37);
        assert(t.skip(1) =~= rest);
    } else {
        let hi = b as int / 16;
        let lo = b as int % 16;
        lemma_hex_upper(hi);
        lemma_hex_upper(lo);
        let h = hex_upper(hi);
        let l = hex_upper(lo);
        lemma_encode_ascii_char('%');
        lemma_encode_ascii_char(h);
        lemma_encode_ascii_char(l);
        assert(encode_byte(b) =~= seq!['%'] + seq![h] + seq![l]);
        lemma_encode_utf8_concat(seq!['%'] + seq![h], seq![l]);
        lemma_encode_utf8_concat(seq!['%'], seq![h]);
        let hb = (h as u32) as u8;
        let lb = (l as u32) as u8;
        let t = seq![37u8, hb, lb] + rest;
        assert(encode_utf8(encode_byte(b)) + rest =~= t);
        assert(t[0] == 37u8 && t[1] == hb && t[2] == lb);
        assert(t.skip(3) =~= rest);
        assert((hi * 16 + lo) as u8 == b);
    }
}

/// The encoding of a byte string is the encodings of its bytes in turn.
proof fn lemma_percent_encode_first(b: Seq<u8>)
    requires
        b.len() > 0,
    ensures
        percent_encode(b) == encode_byte(b[0]) + percent_encode(b.skip(1)),
{
}

/// Percent-decoding undoes percent-encoding, byte for byte.
proof fn lemma_decode_encode_bytes(b: Seq<u8>)
    ensures
        percent_decode(encode_utf8(percent_encode(b))) == b,
    decreases b.len(),
{
    if b.len() == 0 {
        assert(percent_encode(b) =~= Seq::<char>::empty());
        assert(encode_utf8(Seq::<char>::empty()) =~= Seq::<u8>::empty());
    } else {
        lemma_percent_encode_first(b);
        lemma_encode_utf8_concat(encode_byte(b[0]), percent_encode(b.skip(1)));
        lemma_decode_encoded_byte(b[0], encode_utf8(percent_encode(b.skip(1))));
        lemma_decode_encode_bytes(b.skip(1));
        assert(seq![b[0]] + b.skip(1) =~= b);
    }
}

/// Decoding an encoded component gives back the original text, whatever it holds.
pub proof fn law_decode_after_encode(s: Seq<char>)
    ensures
        url_decode_spec(url_encode_spec(s)) == Some(s),
{
    broadcast use vstd::utf8::encode_utf8_valid_utf8, vstd::utf8::encode_utf8_decode_utf8;

    lemma_decode_encode_bytes(encode_utf8(s));
}

/// `urlencoding::encode`: every byte of the UTF-8 text but ASCII letters,
/// digits and `-._~` becomes `%XX` with upper-case hex digits.
#[verifier::external_body]
fn url_encode(s: &str) -> (r: String)
    ensures
        r@ == url_encode_spec(s@),
{
    urlencoding::encode(s).into_owned()
}

/// `urlencoding::decode`: `%XX` escapes become bytes (a `%` without two hex
/// digits stays), then the bytes are read as UTF-8; `None` where the crate
/// returns its UTF-8 error.
#[verifier::external_body]
fn url_decode(s: &str) -> (r: Option<String>)
    ensures
        r matches Some(t) ==> url_decode_spec(s@) == Some(t@),
        r is None ==> url_decode_spec(s@) is None,
{
    match urlencoding::decode(s) {
        Ok(t) => Some(t.into_owned()),
        Err(_) => None,
    }
}

/// Percent-encodes one URL component.
pub fn encode_component(s: &str) -> (r: String)
    ensures
        r@ == url_encode_spec(s@),
{
    url_encode(s)
}

/// Percent-decodes one URL component; `None` when the result is not UTF-8.
pub fn decode_component(s: &str) -> (r: Option<String>)
    ensures
        r matches Some(t) ==> url_decode_spec(s@) == Some(t@),
        r is None ==> url_decode_spec(s@) is None,
{
    url_decode(s)
}

// ---------------------------------------------------------------------------
// Serve URLs
// ---------------------------------------------------------------------------

/// Each `/`-separated segment of a catalog path encoded, the slashes kept.
pub open spec fn entry_path_spec(path: Seq<char>) -> Seq<char> {
    join_spec(split_spec(path, '/').map_values(|seg: Seq<char>| url_encode_spec(seg)), seq!['/'])
}

/// Encodes a catalog-relative path for `/entries/{*path}`: keeps `/`, encodes each segment.
pub fn encode_entry_path(path: &str) -> (r: String)
    ensures
        r@ == entry_path_spec(path@),
{
    let v = chars_of(path);
    let pieces = split_chars(&v, '/');
    let ghost segs = split_spec(path@, '/');
    let ghost enc = segs.map_values(|seg: Seq<char>| url_encode_spec(seg));
    let mut out = String::new();
    let mut i: usize = 0;
    while i < pieces.len()
        invariant
            i <= pieces@.len(),
            pieces@.len() == segs.len(),
            enc.len() == segs.len(),
            forall|k: int| 0 <= k < pieces@.len() ==> #[trigger] pieces@[k]@ == segs[k],
            forall|k: int| 0 <= k < segs.len() ==> #[trigger] enc[k] == url_encode_spec(segs[k]),
            out@ == join_spec(enc.take(i as int), seq!['/']),
        decreases pieces@.len() - i,
    {
        let seg = string_of(&pieces[i]);
        let e = url_encode(seg.as_str());
        let ghost before = out@;
        if i > 0 {
            string_push(&mut out, '/');
        }
        push_all(&mut out, e.as_str());
        proof {
            let t = enc.take(i + 1);
            assert(t.drop_last() =~= enc.take(i as int));
            assert(t.last() == enc[i as int]);
            if i > 0 {
                assert(out@ =~= join_spec(enc.take(i as int), seq!['/']) + seq!['/'] + enc[i as int]);
            } else {
                assert(t.len() == 1);
                assert(out@ =~= enc[0]);
            }
        }
        i += 1;
    }
    assert(enc.take(enc.len() as int) =~= enc);
    out
}

/// `/lenses/{name}` with the name encoded segment by segment.
pub open spec fn lens_url_spec(name: Seq<char>) -> Seq<char> {
    "/lenses/"@ + entry_path_spec(name)
}

/// URL of a named lens.
pub fn lens_url(name: &str) -> (r: String)
    ensures
        r@ == lens_url_spec(name@),
{
    let mut r = String::new();
    push_all(&mut r, "/lenses/");
    let e = encode_entry_path(name);
    push_all(&mut r, e.as_str());
    r
}

/// URL of a lens's member paths.
pub fn lens_paths_url(name: &str) -> (r: String)
    ensures
        r@ == lens_url_spec(name@) + "/paths"@,
{
    let mut r = lens_url(name);
    push_all(&mut r, "/paths");
    r
}

/// URL of one catalog entry with its Zahir JSON.
pub fn entry_zahir_url(path: &str) -> (r: String)
    ensures
        r@ == "/entries/"@ + entry_path_spec(path@) + "?zahir=1"@,
{
    let mut r = String::new();
    push_all(&mut r, "/entries/");
    let e = encode_entry_path(path);
    push_all(&mut r, e.as_str());
    push_all(&mut r, "?zahir=1");
    r
}

/// URL that opens a catalog file's raw bytes in a browser tab.
pub fn raw_content_url(path: &str) -> (r: String)
    ensures
        r@ == "/content/"@ + entry_path_spec(path@) + "?format=raw"@,
{
    let mut r = String::new();
    push_all(&mut r, "/content/");
    let e = encode_entry_path(path);
    push_all(&mut r, e.as_str());
    push_all(&mut r, "?format=raw");
    r
}

/// No byte's encoding holds a `/`.
proof fn lemma_encoded_has_no_slash(b: Seq<u8>)
    ensures
        forall|k: int| 0 <= k < percent_encode(b).len() ==> #[trigger] percent_encode(b)[k] != '/',
    decreases b.len(),
{
    if b.len() > 0 {
        lemma_percent_encode_first(b);
        lemma_encoded_has_no_slash(b.skip(1));
        let h = encode_byte(b[0]);
        let t = percent_encode(b.skip(1));
        if !url_safe_byte(b[0]) {
            lemma_hex_upper(b[0] as int / 16);
            lemma_hex_upper(b[0] as int % 16);
        }
        assert forall|k: int| 0 <= k < h.len() implies #[trigger] h[k] != '/' by {
            if url_safe_byte(b[0]) {
                assert(((b[0] as u32) as char) as u32 == b[0] as u32);
            }
        }
        assert forall|k: int| 0 <= k < percent_encode(b).len() implies #[trigger] percent_encode(b)[k] != '/' by {
            if k < h.len() {
                assert(percent_encode(b)[k] == h[k]);
            } else {
                assert(percent_encode(b)[k] == t[k - h.len()]);
            }
        }
    }
}

/// Splitting an encoded entry path at `/` and decoding each segment gives back
/// the segments of the original path, which joined with `/` are the path: what
/// a server reads from `/entries/{*path}` or `/lenses/{name}`.
pub proof fn law_entry_path_round_trip(p: Seq<char>)
    ensures
        join_spec(split_spec(p, '/'), seq!['/']) == p,
        split_spec(entry_path_spec(p), '/').len() == split_spec(p, '/').len(),
        forall|i: int|
            0 <= i < split_spec(p, '/').len() ==> url_decode_spec(
                #[trigger] split_spec(entry_path_spec(p), '/')[i],
            ) == Some(split_spec(p, '/')[i]),
{
    let segs = split_spec(p, '/');
    let enc = segs.map_values(|seg: Seq<char>| url_encode_spec(seg));
    crate::text::lemma_split_nonempty(p, '/');
    assert forall|i: int, k: int| 0 <= i < enc.len() && 0 <= k < enc[i].len() implies #[trigger] enc[i][k] != '/' by {
        lemma_encoded_has_no_slash(encode_utf8(segs[i]));
    }
    crate::text::lemma_split_join(enc, '/');
    crate::text::lemma_join_split(p, '/');
    assert forall|i: int| 0 <= i < segs.len() implies url_decode_spec(#[trigger] split_spec(entry_path_spec(p), '/')[i]) == Some(segs[i]) by {
        law_decode_after_encode(segs[i]);
    }
}

} // verus!
