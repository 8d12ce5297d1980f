//! The right-pane Viewer's decisions: which body a catalog category gets,
//! HTML escaping, literal find ranges, Templates filtering and pattern
//! parts, Delta's timed path rows, and the page / window status texts.

use vstd::prelude::*;
use vstd::utf8::{encode_utf8, encode_scalar, has_width_1_encoding, has_width_2_encoding, has_width_3_encoding};
use crate::text::{
    chars_of, string_of, chars_is, str_eq, str_eq_ignore_case, eq_ignore_case, lower_chars,
    lower_seq, rfind_char, sub_chars, push_all, push_chars, string_push, trim_chars, trim_spec,
    rsplit_once_spec, lemma_last_index_of_bounds, decimal_spec, signed_decimal_spec,
    signed_decimal_chars, is_ascii_digit, first_index_of, lemma_first_index_of_bounds, find_char,
    decimal_string,
};

verus! {

// ---------------------------------------------------------------------------
// Categories
// ---------------------------------------------------------------------------

/// Categories highlighted with syntect.
pub open spec fn syntect_categories() -> Seq<Seq<char>> {
    seq!["JSON"@, "TOML"@, "YAML"@, "XML"@, "HTML"@, "INI"@, "Log"@, "Code"@]
}

/// Zahir Markdown.
pub fn is_markdown_category(category: &str) -> (r: bool)
    ensures
        r == (category@ == "Markdown"@),
{
    str_eq(category, "Markdown")
}

/// A syntect-highlighted category (exact names).
pub fn is_syntect_category(category: &str) -> (r: bool)
    ensures
        r == syntect_categories().contains(category@),
{
    let names = ["JSON", "TOML", "YAML", "XML", "HTML", "INI", "Log", "Code"];
    let mut i: usize = 0;
    while i < 8
        invariant
            i <= 8,
            forall|k: int| 0 <= k < 8 ==> (#[trigger] names@[k])@ == syntect_categories()[k],
            forall|k: int| 0 <= k < i ==> syntect_categories()[k] != category@,
        decreases 8 - i,
    {
        if str_eq(category, names[i]) {
            assert(syntect_categories()[i as int] == category@);
            return true;
        }
        i += 1;
    }
    false
}

/// CSV.
pub fn is_csv_category(category: &str) -> (r: bool)
    ensures
        r == (category@ == "CSV"@),
{
    str_eq(category, "CSV")
}

/// Plain text.
pub fn is_text_category(category: &str) -> (r: bool)
    ensures
        r == (category@ == "Text"@),
{
    str_eq(category, "Text")
}

/// Images.
pub fn is_image_category(category: &str) -> (r: bool)
    ensures
        r == (category@ == "Image"@),
{
    str_eq(category, "Image")
}

/// PDF.
pub fn is_pdf_category(category: &str) -> (r: bool)
    ensures
        r == (category@ == "PDF"@),
{
    str_eq(category, "PDF")
}

/// Video.
pub fn is_video_category(category: &str) -> (r: bool)
    ensures
        r == (category@ == "Video"@),
{
    str_eq(category, "Video")
}

/// Audio / Epub show embedded cover art (ASCII case ignored).
pub fn is_cover_category(category: &str) -> (r: bool)
    ensures
        r == (eq_ignore_case(category@, "Audio"@) || eq_ignore_case(category@, "Epub"@)),
{
    str_eq_ignore_case(category, "Audio") || str_eq_ignore_case(category, "Epub")
}

/// Directories (and Zarr stores) show a tree.
pub fn is_directory_category(category: &str) -> (r: bool)
    ensures
        r == (category@ == "Directory"@ || eq_ignore_case(category@, "Zarr"@)),
{
    str_eq(category, "Directory") || str_eq_ignore_case(category, "Zarr")
}

/// Extension after the last `.`, if the path has one.
pub open spec fn ext_spec(path: Seq<char>) -> Option<Seq<char>> {
    match rsplit_once_spec(path, '.') {
        Some((_, ext)) => Some(ext),
        None => None,
    }
}

/// The extension after the last `.`.
fn ext_of(path: &str) -> (r: Option<String>)
    ensures
        r matches Some(e) ==> ext_spec(path@) == Some(e@),
        r is None ==> ext_spec(path@) is None,
{
    let v = chars_of(path);
    proof {
        lemma_last_index_of_bounds(v@, '.');
    }
    match rfind_char(&v, '.') {
        Some(i) => {
            let n = v.len();
            assert(i < n);
            let j: usize = i + 1;
            let e = sub_chars(&v, j, n);
            assert(e@ =~= v@.skip(i + 1));
            Some(string_of(&e))
        },
        None => None,
    }
}

/// `.epub` (any case).
pub open spec fn looks_epub_spec(path: Seq<char>) -> bool {
    ext_spec(path) matches Some(e) && eq_ignore_case(e, "epub"@)
}

/// `.svg` (any case).
pub open spec fn looks_svg_spec(path: Seq<char>) -> bool {
    ext_spec(path) matches Some(e) && eq_ignore_case(e, "svg"@)
}

/// `.csv` / `.tsv` / `.tab` / `.psv` (any case).
pub open spec fn looks_delimited_spec(path: Seq<char>) -> bool {
    ext_spec(path) matches Some(e) && (lower_seq(e) == "csv"@ || lower_seq(e) == "tsv"@ || lower_seq(e)
        == "tab"@ || lower_seq(e) == "psv"@)
}

/// The path ends in `.epub`.
pub fn path_looks_epub(path: &str) -> (r: bool)
    ensures
        r == looks_epub_spec(path@),
{
    match ext_of(path) {
        Some(e) => str_eq_ignore_case(e.as_str(), "epub"),
        None => false,
    }
}

/// The path ends in `.svg`.
pub fn path_looks_svg(path: &str) -> (r: bool)
    ensures
        r == looks_svg_spec(path@),
{
    match ext_of(path) {
        Some(e) => str_eq_ignore_case(e.as_str(), "svg"),
        None => false,
    }
}

/// The path ends in a delimited-table extension.
pub fn path_looks_delimited(path: &str) -> (r: bool)
    ensures
        r == looks_delimited_spec(path@),
{
    match ext_of(path) {
        Some(e) => {
            let v = chars_of(e.as_str());
            let l = lower_chars(&v);
            chars_is(&l, "csv") || chars_is(&l, "tsv") || chars_is(&l, "tab") || chars_is(&l, "psv")
        },
        None => false,
    }
}

/// Categories and paths the host renders to HTML for the Viewer.
pub open spec fn uses_html_viewer_spec(category: Seq<char>, path: Seq<char>) -> bool {
    ||| category == "Markdown"@
    ||| syntect_categories().contains(category)
    ||| category == "CSV"@
    ||| category == "Text"@
    ||| category == "Image"@
    ||| category == "PDF"@
    ||| category == "Video"@
    ||| eq_ignore_case(category, "Audio"@) || eq_ignore_case(category, "Epub"@)
    ||| looks_epub_spec(path)
    ||| looks_delimited_spec(path)
    ||| looks_svg_spec(path)
}

/// Whether the Viewer shows host-rendered HTML for this entry.
pub fn uses_html_viewer(category: &str, path: &str) -> (r: bool)
    ensures
        r == uses_html_viewer_spec(category@, path@),
{
    is_markdown_category(category) || is_syntect_category(category) || is_csv_category(category)
        || is_text_category(category) || is_image_category(category) || is_pdf_category(category)
        || is_video_category(category) || is_cover_category(category) || path_looks_epub(path)
        || path_looks_delimited(path) || path_looks_svg(path)
}

/// CSS class of the Viewer body.
pub open spec fn viewer_class_spec(category: Seq<char>, path: Seq<char>) -> Seq<char> {
    if category == "Markdown"@ {
        "md-viewer"@
    } else if category == "CSV"@ || looks_delimited_spec(path) {
        "csv-viewer"@
    } else if category == "Text"@ {
        "text-viewer"@
    } else if category == "Image"@ || category == "PDF"@ || category == "Video"@ || eq_ignore_case(
        category,
        "Audio"@,
    ) || eq_ignore_case(category, "Epub"@) || looks_epub_spec(path) || looks_svg_spec(path) {
        "img-viewer-host"@
    } else {
        "code-viewer"@
    }
}

/// CSS class of the Viewer body for this entry.
pub fn viewer_html_class(category: &str, path: &str) -> (r: &'static str)
    ensures
        r@ == viewer_class_spec(category@, path@),
{
    if is_markdown_category(category) {
        "md-viewer"
    } else if is_csv_category(category) || path_looks_delimited(path) {
        "csv-viewer"
    } else if is_text_category(category) {
        "text-viewer"
    } else if is_image_category(category) || is_pdf_category(category) || is_video_category(category)
        || is_cover_category(category) || path_looks_epub(path) || path_looks_svg(path) {
        "img-viewer-host"
    } else {
        "code-viewer"
    }
}

/// Files from this size on view Text / Code in byte windows.
pub const CONTENT_WINDOW_MIN_FILE_BYTES: u64 = 524288;

/// Default byte window for large text.
pub const CONTENT_WINDOW_BYTES: u64 = 262144;

/// Large Text / Code files are viewed in byte windows.
pub fn wants_byte_window(category: &str, size: u64) -> (r: bool)
    ensures
        r == (size >= CONTENT_WINDOW_MIN_FILE_BYTES && (category@ == "Text"@
            || syntect_categories().contains(category@))),
{
    size >= CONTENT_WINDOW_MIN_FILE_BYTES && (is_text_category(category) || is_syntect_category(category))
}

/// The Viewer body chosen for an entry.
#[derive(Clone, Copy, Debug, PartialEq, Eq, Structural)]
pub enum ViewerBody {
    Pdf,
    Cover,
    DirectoryTree,
    WindowedText,
    HostHtml,
    HostText,
}

/// Which body the Viewer mounts: PDF, cover art, directory tree, byte
/// windows, host HTML, else host text.
pub open spec fn viewer_body_spec(category: Seq<char>, path: Seq<char>, size: u64) -> ViewerBody {
    if category == "PDF"@ {
        ViewerBody::Pdf
    } else if eq_ignore_case(category, "Audio"@) || eq_ignore_case(category, "Epub"@) || looks_epub_spec(path) {
        ViewerBody::Cover
    } else if category == "Directory"@ || eq_ignore_case(category, "Zarr"@) {
        ViewerBody::DirectoryTree
    } else if size >= CONTENT_WINDOW_MIN_FILE_BYTES && (category == "Text"@ || syntect_categories().contains(category)) {
        ViewerBody::WindowedText
    } else if uses_html_viewer_spec(category, path) {
        ViewerBody::HostHtml
    } else {
        ViewerBody::HostText
    }
}

/// The Viewer body for an entry.
pub fn viewer_body(category: &str, path: &str, size: u64) -> (r: ViewerBody)
    ensures
        r == viewer_body_spec(category@, path@, size),
{
    if is_pdf_category(category) {
        ViewerBody::Pdf
    } else if is_cover_category(category) || path_looks_epub(path) {
        ViewerBody::Cover
    } else if is_directory_category(category) {
        ViewerBody::DirectoryTree
    } else if wants_byte_window(category, size) {
        ViewerBody::WindowedText
    } else if uses_html_viewer(category, path) {
        ViewerBody::HostHtml
    } else {
        ViewerBody::HostText
    }
}

// ---------------------------------------------------------------------------
// HTML escaping
// ---------------------------------------------------------------------------

/// The escape of one character.
pub open spec fn escape_char(c: char) -> Seq<char> {
    if c == '&' {
        "&amp;"@
    } else if c == '<' {
        "&lt;"@
    } else if c == '>' {
        "&gt;"@
    } else if c == '"' {
        "&quot;"@
    } else {
        seq![c]
    }
}

/// `&`, `<`, `>` and `"` escaped for HTML text.
pub open spec fn html_escape_spec(s: Seq<char>) -> Seq<char>
    decreases s.len(),
{
    if s.len() == 0 {
        Seq::empty()
    } else {
        html_escape_spec(s.drop_last()) + escape_char(s.last())
    }
}

/// Escapes text for an HTML fragment.
pub fn html_escape_text(s: &str) -> (r: String)
    ensures
        r@ == html_escape_spec(s@),
{
    let v = chars_of(s);
    let mut r = String::new();
    let mut i: usize = 0;
    while i < v.len()
        invariant
            i <= v@.len(),
            r@ == html_escape_spec(v@.take(i as int)),
        decreases v@.len() - i,
    {
        let c = v[i];
        if c == '&' {
            push_all(&mut r, "&amp;");
        } else if c == '<' {
            push_all(&mut r, "&lt;");
        } else if c == '>' {
            push_all(&mut r, "&gt;");
        } else if c == '"' {
            push_all(&mut r, "&quot;");
        } else {
            string_push(&mut r, c);
        }
        proof {
            assert(v@.take(i + 1).drop_last() =~= v@.take(i as int));
        }
        i += 1;
    }
    assert(v@.take(v@.len() as int) =~= v@);
    r
}

} // verus!

verus! {

// ---------------------------------------------------------------------------
// Find ranges
// ---------------------------------------------------------------------------

/// ASCII lowercase of a byte.
pub open spec fn byte_lower(b: u8) -> u8 {
    if 65 <= b <= 90 {
        (b + 32) as u8
    } else {
        b
    }
}

/// `n` occurs in `h` at byte `i` (ASCII case ignored when `ci`).
pub open spec fn match_at(h: Seq<u8>, n: Seq<u8>, i: int, ci: bool) -> bool {
    forall|k: int|
        0 <= k < n.len() ==> if ci {
            byte_lower(#[trigger] h[i + k]) == byte_lower(n[k])
        } else {
            h[i + k] == n[k]
        }
}

/// Leftmost non-overlapping occurrences of a non-empty `n` in `h` from byte
/// `i`, as byte ranges.
pub open spec fn ranges_from(h: Seq<u8>, n: Seq<u8>, i: int, ci: bool) -> Seq<(int, int)>
    decreases h.len() - i,
{
    if n.len() == 0 || i < 0 || i + n.len() > h.len() {
        Seq::empty()
    } else if match_at(h, n, i, ci) {
        seq![(i, i + n.len())] + ranges_from(h, n, i + n.len(), ci)
    } else {
        ranges_from(h, n, i + 1, ci)
    }
}

/// Bytes of a character's UTF-8 encoding.
pub open spec fn utf8_width(c: char) -> int {
    encode_scalar(c as u32).len() as int
}

/// Empty matches at every character boundary of `s`, starting at byte `base`.
pub open spec fn boundaries_from(s: Seq<char>, base: int) -> Seq<(int, int)>
    decreases s.len(),
{
    if s.len() == 0 {
        seq![(base, base)]
    } else {
        seq![(base, base)] + boundaries_from(s.drop_first(), base + utf8_width(s[0]))
    }
}

/// `str::match_indices` as byte ranges: leftmost non-overlapping matches, and
/// for an empty needle every character boundary.
pub open spec fn literal_ranges_spec(haystack: Seq<char>, needle: Seq<char>) -> Seq<(int, int)> {
    if needle.len() == 0 {
        boundaries_from(haystack, 0)
    } else {
        ranges_from(encode_utf8(haystack), encode_utf8(needle), 0, false)
    }
}

fn char_width(c: char) -> (w: usize)
    ensures
        w == utf8_width(c),
{
    proof {
        vstd::utf8::char_is_scalar(c);
    }
    let u = c as u32;
    if u < 0x80 {
        1
    } else if u < 0x800 {
        2
    } else if u < 0x10000 {
        3
    } else {
        4
    }
}

/// Byte ranges as plain pairs.
pub open spec fn ranges_view(r: Seq<(usize, usize)>) -> Seq<(int, int)> {
    r.map_values(|p: (usize, usize)| (p.0 as int, p.1 as int))
}

proof fn lemma_ranges_step(h: Seq<u8>, n: Seq<u8>, i: int, ci: bool)
    requires
        n.len() > 0,
        0 <= i,
        i + n.len() <= h.len(),
    ensures
        ranges_from(h, n, i, ci) == (if match_at(h, n, i, ci) {
            seq![(i, i + n.len())] + ranges_from(h, n, i + n.len(), ci)
        } else {
            ranges_from(h, n, i + 1, ci)
        }),
{
}

/// Greedy leftmost matches of non-empty `nb` in `hb` (bytes).
fn byte_ranges(hb: &[u8], nb: &[u8], ci: bool) -> (r: Vec<(usize, usize)>)
    ensures
        ranges_view(r@) == ranges_from(hb@, nb@, 0, ci),
{
    let mut out: Vec<(usize, usize)> = Vec::new();
    if nb.len() == 0 || hb.len() < nb.len() {
        return out;
    }
    let hl = hb.len();
    let nl = nb.len();
    let mut i: usize = 0;
    while i <= hl - nl
        invariant
            hl == hb@.len(),
            nl == nb@.len(),
            nb@.len() > 0,
            nb@.len() <= hb@.len(),
            i <= hb@.len(),
            ranges_view(out@) + ranges_from(hb@, nb@, i as int, ci) == ranges_from(hb@, nb@, 0, ci),
        decreases hb@.len() - i,
    {
        let mut k: usize = 0;
        let mut ok = true;
        while k < nl
            invariant
                hl == hb@.len(),
                nl == nb@.len(),
                i + nb@.len() <= hb@.len(),
                k <= nb@.len(),
                ok <==> forall|j: int|
                    0 <= j < k ==> if ci {
                        byte_lower(#[trigger] hb@[i + j]) == byte_lower(nb@[j])
                    } else {
                        hb@[i + j] == nb@[j]
                    },
            decreases nb@.len() - k,
        {
            let a = hb[i + k];
            let b = nb[k];
            let same = if ci {
                let la = if 65 <= a && a <= 90 { a + 32 } else { a };
                let lb = if 65 <= b && b <= 90 { b + 32 } else { b };
                la == lb
            } else {
                a == b
            };
            if !same {
                ok = false;
            }
            k += 1;
        }
        proof {
            lemma_ranges_step(hb@, nb@, i as int, ci);
        }
        if ok {
            let ghost before = out@;
            out.push((i, i + nl));
            proof {
                assert(ranges_view(out@) =~= ranges_view(before).push((i as int, i + nb@.len())));
                assert(ranges_view(out@) + ranges_from(hb@, nb@, i + nb@.len(), ci) =~= ranges_view(before)
                    + (seq![(i as int, i + nb@.len())] + ranges_from(hb@, nb@, i + nb@.len(), ci)));
            }
            i += nl;
        } else {
            i += 1;
        }
    }
    proof {
        assert(ranges_from(hb@, nb@, i as int, ci) =~= Seq::<(int, int)>::empty());
        assert(ranges_view(out@) + Seq::<(int, int)>::empty() =~= ranges_view(out@));
    }
    out
}

/// Byte ranges of `needle` in `haystack` (`str::match_indices`).
pub fn literal_match_ranges(haystack: &str, needle: &str) -> (r: Vec<(usize, usize)>)
    ensures
        ranges_view(r@) == literal_ranges_spec(haystack@, needle@),
{
    if needle.is_empty() {
        let v = chars_of(haystack);
        let hb = haystack.as_bytes();
        let total = hb.len();
        let mut out: Vec<(usize, usize)> = Vec::new();
        let mut base: usize = 0;
        let mut i: usize = 0;
        assert(v@.skip(0) =~= v@);
        while i < v.len()
            invariant
                i <= v@.len(),
                v@ == haystack@,
                base as int + encode_utf8(v@.skip(i as int)).len() == total,
                encode_utf8(v@).len() == total,
                ranges_view(out@) + boundaries_from(v@.skip(i as int), base as int) == boundaries_from(v@, 0),
            decreases v@.len() - i,
        {
            let c = v[i];
            let w = char_width(c);
            let ghost rest = v@.skip(i as int);
            proof {
                assert(rest[0] == c);
                assert(rest.drop_first() =~= v@.skip(i + 1));
                assert(encode_utf8(rest) == encode_scalar(c as u32) + encode_utf8(rest.drop_first()));
            }
            let ghost before = out@;
            out.push((base, base));
            proof {
                assert(ranges_view(out@) =~= ranges_view(before).push((base as int, base as int)));
                assert(ranges_view(out@) + boundaries_from(v@.skip(i + 1), base + w) =~= ranges_view(before)
                    + boundaries_from(rest, base as int));
            }
            base = base + w;
            i += 1;
        }
        let ghost before = out@;
        out.push((base, base));
        proof {
            assert(v@.skip(i as int).len() == 0);
            assert(ranges_view(out@) =~= ranges_view(before) + boundaries_from(v@.skip(i as int), base as int));
        }
        return out;
    }
    let hb = haystack.as_bytes();
    let nb = needle.as_bytes();
    byte_ranges(hb, nb, false)
}

/// Byte ranges of `needle` in `haystack`, ASCII case ignored; empty for an empty needle.
pub fn literal_match_ranges_ascii_insensitive(haystack: &str, needle: &str) -> (r: Vec<(usize, usize)>)
    ensures
        ranges_view(r@) == ranges_from(encode_utf8(haystack@), encode_utf8(needle@), 0, true),
{
    let hb = haystack.as_bytes();
    let nb = needle.as_bytes();
    byte_ranges(hb, nb, true)
}

} // verus!

verus! {

// ---------------------------------------------------------------------------
// Templates
// ---------------------------------------------------------------------------

/// What `str::to_lowercase` gives for a text (full Unicode case mapping).
pub uninterp spec fn unicode_lowercase(s: Seq<char>) -> Seq<char>;

/// `str::to_lowercase`: the Unicode lowercase of the text; depends on the
/// text alone, the mapping itself is not stated.
#[verifier::external_body]
fn to_lowercase(s: &str) -> (r: String)
    ensures
        r@ == unicode_lowercase(s@),
{
    s.to_lowercase()
}

/// `n` occurs in `h` as a contiguous run of characters.
pub open spec fn contains_seq(h: Seq<char>, n: Seq<char>) -> bool {
    exists|i: int| 0 <= i && i + n.len() <= h.len() && #[trigger] h.subrange(i, i + n.len()) == n
}

/// `h.contains(n)` on character vectors.
pub fn chars_contains(h: &Vec<char>, n: &Vec<char>) -> (r: bool)
    ensures
        r == contains_seq(h@, n@),
{
    if n.len() > h.len() {
        return false;
    }
    let hl = h.len();
    let mut i: usize = 0;
    while i <= h.len() - n.len()
        invariant
            hl == h@.len(),
            n@.len() <= h@.len(),
            i <= h@.len() - n@.len() + 1,
            forall|k: int| 0 <= k < i ==> #[trigger] h@.subrange(k, k + n@.len()) != n@,
        decreases h@.len() - n@.len() + 1 - i,
    {
        let mut j: usize = 0;
        while j < n.len() && h[i + j] == n[j]
            invariant
                hl == h@.len(),
                i + n@.len() <= h@.len(),
                j <= n@.len(),
                forall|m: int| 0 <= m < j ==> h@[i + m] == n@[m],
            decreases n@.len() - j,
        {
            j += 1;
        }
        if j == n.len() {
            assert(h@.subrange(i as int, i + n@.len()) =~= n@);
            return true;
        }
        assert(h@.subrange(i as int, i + n@.len())[j as int] != n@[j as int]);
        i += 1;
    }
    proof {
        assert forall|k: int| 0 <= k && k + n@.len() <= h@.len() implies #[trigger] h@.subrange(k, k + n@.len()) != n@ by {
            assert(k < i);
        }
    }
    false
}

/// A template pattern with its placeholder examples (placeholder names sorted).
pub struct TemplateView {
    pub pattern: String,
    pub count: usize,
    pub examples: Vec<(String, Vec<String>)>,
}

/// Some example value of a placeholder contains `q` once lowercased.
pub open spec fn values_match(vals: Seq<String>, q: Seq<char>) -> bool {
    exists|j: int| 0 <= j < vals.len() && contains_seq(unicode_lowercase((#[trigger] vals[j])@), q)
}

/// The Templates filter: an empty query keeps everything; otherwise the
/// lowercased pattern, a placeholder name or an example value contains it.
pub open spec fn matches_filter_spec(t: TemplateView, q: Seq<char>) -> bool {
    ||| q.len() == 0
    ||| contains_seq(unicode_lowercase(t.pattern@), q)
    ||| exists|i: int|
        0 <= i < t.examples@.len() && (contains_seq(unicode_lowercase((#[trigger] t.examples@[i]).0@), q)
            || values_match(t.examples@[i].1@, q))
}

fn lower_contains(s: &str, q: &Vec<char>) -> (r: bool)
    ensures
        r == contains_seq(unicode_lowercase(s@), q@),
{
    let l = to_lowercase(s);
    let lv = chars_of(l.as_str());
    chars_contains(&lv, q)
}

impl TemplateView {
    /// Whether the pattern passes the Templates filter `q` (already lowercased by the caller).
    pub fn matches_filter(&self, q: &str) -> (r: bool)
        ensures
            r == matches_filter_spec(*self, q@),
    {
        let qv = chars_of(q);
        if qv.len() == 0 {
            return true;
        }
        if lower_contains(self.pattern.as_str(), &qv) {
            return true;
        }
        let mut i: usize = 0;
        while i < self.examples.len()
            invariant
                i <= self.examples@.len(),
                qv@ == q@,
                forall|k: int|
                    0 <= k < i ==> !(contains_seq(unicode_lowercase((#[trigger] self.examples@[k]).0@), q@)
                        || values_match(self.examples@[k].1@, q@)),
            decreases self.examples@.len() - i,
        {
            let (ph, vals) = &self.examples[i];
            if lower_contains(ph.as_str(), &qv) {
                assert(contains_seq(unicode_lowercase(self.examples@[i as int].0@), q@));
                return true;
            }
            let mut j: usize = 0;
            while j < vals.len()
                invariant
                    i < self.examples@.len(),
                    vals@ == self.examples@[i as int].1@,
                    j <= vals@.len(),
                    qv@ == q@,
                    forall|m: int| 0 <= m < j ==> !contains_seq(unicode_lowercase((#[trigger] vals@[m])@), q@),
                decreases vals@.len() - j,
            {
                if lower_contains(vals[j].as_str(), &qv) {
                    assert(values_match(self.examples@[i as int].1@, q@));
                    return true;
                }
                j += 1;
            }
            i += 1;
        }
        false
    }
}

/// Index of the first `]` at or after `i`.
pub open spec fn close_after(s: Seq<char>, i: int) -> Option<int> {
    match first_index_of(s.skip(i), ']') {
        Some(r) => Some(i + r),
        None => None,
    }
}

/// Pieces of a pattern from character `i` on, with plain text pending from `start`.
pub open spec fn parts_from(s: Seq<char>, i: int, start: int) -> Seq<(Seq<char>, bool)>
    decreases s.len() - i,
{
    if i < 0 || i >= s.len() {
        if 0 <= start < s.len() {
            seq![(s.subrange(start, s.len() as int), false)]
        } else {
            Seq::empty()
        }
    } else if s[i] == '[' && close_after(s, i) is Some {
        let end = close_after(s, i)->0 + 1;
        proof {
            lemma_first_index_of_bounds(s.skip(i), ']');
        }
        (if start < i { seq![(s.subrange(start, i), false)] } else { Seq::empty() }) + seq![
            (s.subrange(i, end), true),
        ] + if end > i {
            parts_from(s, end, end)
        } else {
            Seq::empty()
        }
    } else {
        parts_from(s, i + 1, start)
    }
}

/// A pattern split into plain text and `[placeholder]` pieces (the whole
/// pattern as one plain piece when nothing else comes out).
pub open spec fn pattern_parts_spec(s: Seq<char>) -> Seq<(Seq<char>, bool)> {
    let r = parts_from(s, 0, 0);
    if r.len() == 0 {
        seq![(s, false)]
    } else {
        r
    }
}

/// Splits a template pattern into plain and placeholder pieces.
pub fn pattern_parts(pattern: &str) -> (r: Vec<(String, bool)>)
    ensures
        r@.map_values(|p: (String, bool)| (p.0@, p.1)) == pattern_parts_spec(pattern@),
{
    let v = chars_of(pattern);
    let ghost s = v@;
    let mut out: Vec<(String, bool)> = Vec::new();
    let mut i: usize = 0;
    let mut plain_start: usize = 0;
    while i < v.len()
        invariant
            s == v@,
            s == pattern@,
            plain_start <= i <= v@.len(),
            out@.map_values(|p: (String, bool)| (p.0@, p.1)) + parts_from(s, i as int, plain_start as int)
                == parts_from(s, 0, 0),
        decreases v@.len() - i,
    {
        if v[i] == '[' {
            let rest = sub_chars(&v, i, v.len());
            proof {
                lemma_first_index_of_bounds(rest@, ']');
                assert(rest@ =~= s.skip(i as int));
            }
            match find_char(&rest, ']') {
                Some(rel) => {
                    let end = i + rel + 1;
                    let ghost before = out@;
                    if plain_start < i {
                        let t = sub_chars(&v, plain_start, i);
                        out.push((string_of(&t), false));
                    }
                    let t = sub_chars(&v, i, end);
                    out.push((string_of(&t), true));
                    proof {
                        let m = |p: (String, bool)| (p.0@, p.1);
                        assert(close_after(s, i as int) == Some(i + rel));
                        let pre = if plain_start < i {
                            seq![(s.subrange(plain_start as int, i as int), false)]
                        } else {
                            Seq::<(Seq<char>, bool)>::empty()
                        };
                        assert(out@.map_values(m) =~= before.map_values(m) + pre + seq![
                            (s.subrange(i as int, end as int), true),
                        ]);
                    }
                    i = end;
                    plain_start = end;
                    continue;
                },
                None => {},
            }
        }
        i += 1;
    }
    let ghost before = out@;
    if plain_start < v.len() {
        let t = sub_chars(&v, plain_start, v.len());
        out.push((string_of(&t), false));
        proof {
            let m = |p: (String, bool)| (p.0@, p.1);
            assert(out@.map_values(m) =~= before.map_values(m) + seq![
                (s.subrange(plain_start as int, s.len() as int), false),
            ]);
        }
    } else {
        proof {
            let m = |p: (String, bool)| (p.0@, p.1);
            assert(out@.map_values(m) =~= before.map_values(m) + Seq::<(Seq<char>, bool)>::empty());
        }
    }
    if out.len() == 0 {
        let mut whole = String::new();
        push_all(&mut whole, pattern);
        out.push((whole, false));
        proof {
            let m = |p: (String, bool)| (p.0@, p.1);
            assert(out@.map_values(m) =~= seq![(pattern@, false)]);
        }
    }
    out
}

} // verus!

verus! {

/// Indices of the templates that pass the filter box (trimmed, lowercased).
pub fn filter_templates(views: &Vec<TemplateView>, filter: &str) -> (r: Vec<usize>)
    ensures
        r@.len() <= views@.len(),
        forall|i: int| 0 <= i < r@.len() ==> (#[trigger] r@[i]) < views@.len(),
        forall|i: int, j: int| 0 <= i < j < r@.len() ==> #[trigger] r@[i] < #[trigger] r@[j],
        forall|k: int|
            0 <= k < views@.len() ==> (r@.contains(k as usize) <==> matches_filter_spec(
                #[trigger] views@[k],
                unicode_lowercase(trim_spec(filter@)),
            )),
{
    let t = crate::text::trim_str(filter);
    let q = to_lowercase(t.as_str());
    let mut r: Vec<usize> = Vec::new();
    let mut i: usize = 0;
    while i < views.len()
        invariant
            i <= views@.len(),
            q@ == unicode_lowercase(trim_spec(filter@)),
            r@.len() <= i,
            forall|a: int| 0 <= a < r@.len() ==> (#[trigger] r@[a]) < i,
            forall|a: int, b: int| 0 <= a < b < r@.len() ==> #[trigger] r@[a] < #[trigger] r@[b],
            forall|k: int| 0 <= k < i ==> (r@.contains(k as usize) <==> matches_filter_spec(
                #[trigger] views@[k],
                q@,
            )),
        decreases views@.len() - i,
    {
        let ghost before = r@;
        if views[i].matches_filter(q.as_str()) {
            r.push(i);
        }
        proof {
            assert forall|k: int| 0 <= k < i + 1 implies (r@.contains(k as usize) <==> matches_filter_spec(
                #[trigger] views@[k],
                q@,
            )) by {
                if k < i {
                    if r@.contains(k as usize) {
                        let a = choose|a: int| 0 <= a < r@.len() && r@[a] == k as usize;
                        if a < before.len() {
                            assert(before[a] == k as usize);
                        }
                    }
                    if before.contains(k as usize) {
                        let a = choose|a: int| 0 <= a < before.len() && before[a] == k as usize;
                        assert(r@[a] == k as usize);
                    }
                } else {
                    if r@.contains(k as usize) {
                        let a = choose|a: int| 0 <= a < r@.len() && r@[a] == k as usize;
                        if a < before.len() {
                            assert(before[a] < i);
                        }
                    }
                    if matches_filter_spec(views@[k], q@) {
                        assert(r@[before.len() as int] == i);
                    }
                }
            }
        }
        i += 1;
    }
    r
}

/// `×{count}` after a pattern.
pub fn template_count_label(count: usize) -> (r: String)
    ensures
        r@ == "×"@ + decimal_spec(count as nat),
{
    let mut r = String::new();
    push_all(&mut r, "×");
    let d = crate::text::decimal_string(count as u64);
    push_all(&mut r, d.as_str());
    r
}

/// A placeholder's example values, comma-separated.
pub fn examples_text(vals: &Vec<String>) -> (r: String)
    ensures
        r@ == crate::text::join_spec(vals@.map_values(|v: String| v@), ", "@),
{
    crate::api::join_strings(vals, ", ")
}

// ---------------------------------------------------------------------------
// Delta path rows
// ---------------------------------------------------------------------------

/// A middle-pane row of Delta: a timestamp header, or an indented path whose
/// key is `created_ns`, a NUL, then the path.
#[derive(Clone, Debug)]
pub enum TimedRow {
    Header { created_ns: i64 },
    Path { label: String, key: String },
}

/// The label and key of a delta path row.
pub open spec fn path_row_ok(row: TimedRow, ns: i64, path: Seq<char>) -> bool {
    row matches TimedRow::Path { label, key } && label@ == "  "@ + path && key@ == signed_decimal_spec(
        ns as int,
    ) + seq!['\0'] + path
}

/// Rows from `(created_ns, path)` pairs: before each path, a header when its
/// stamp differs from the previous pair's (always before the first).
pub open spec fn timed_rows_ok(rows: Seq<(i64, String)>, out: Seq<TimedRow>) -> bool
    decreases rows.len(),
{
    if rows.len() == 0 {
        out.len() == 0
    } else {
        let (ns, path) = rows.last();
        let header = rows.len() == 1 || rows[rows.len() - 2].0 != ns;
        let k: int = if header { 2 } else { 1 };
        &&& out.len() >= k
        &&& timed_rows_ok(rows.drop_last(), out.take(out.len() - k))
        &&& header ==> out[out.len() - 2] == (TimedRow::Header { created_ns: ns })
        &&& path_row_ok(out.last(), ns, path@)
    }
}

/// Delta middle-pane rows: timestamp headers (the shell formats the stamp)
/// and indented paths keyed by stamp and path.
pub fn display_paths_timed(rows: &Vec<(i64, String)>) -> (r: Vec<TimedRow>)
    ensures
        timed_rows_ok(rows@, r@),
{
    let mut out: Vec<TimedRow> = Vec::new();
    let mut current: Option<i64> = None;
    let mut i: usize = 0;
    while i < rows.len()
        invariant
            i <= rows@.len(),
            timed_rows_ok(rows@.take(i as int), out@),
            current == (if i == 0 { None } else { Some(rows@[i - 1].0) }),
        decreases rows@.len() - i,
    {
        let ns = rows[i].0;
        let path = &rows[i].1;
        let ghost before = out@;
        let mut label = String::new();
        push_all(&mut label, "  ");
        push_all(&mut label, path.as_str());
        let mut key = String::new();
        let d = signed_decimal_chars(ns);
        push_chars(&mut key, &d);
        string_push(&mut key, '\0');
        push_all(&mut key, path.as_str());
        assert(key@ =~= signed_decimal_spec(ns as int) + seq!['\0'] + path@);
        let header = current != Some(ns);
        if header {
            current = Some(ns);
            out.push(TimedRow::Header { created_ns: ns });
        }
        out.push(TimedRow::Path { label, key });
        proof {
            let t = rows@.take(i + 1);
            assert(t.drop_last() =~= rows@.take(i as int));
            assert(t.last() == rows@[i as int]);
            if i > 0 {
                assert(t[t.len() - 2] == rows@[i - 1]);
            }
            let k: int = if header { 2 } else { 1 };
            assert(out@.take(out@.len() - k) =~= before);
            assert(header == (t.len() == 1 || t[t.len() - 2].0 != ns));
            assert(path_row_ok(out@.last(), ns, path@));
            assert(header ==> out@[out@.len() - 2] == (TimedRow::Header { created_ns: ns }));
            assert(timed_rows_ok(t.drop_last(), out@.take(out@.len() - k)));
        }
        current = Some(ns);
        i += 1;
    }
    assert(rows@.take(rows@.len() as int) =~= rows@);
    out
}

// ---------------------------------------------------------------------------
// Status texts
// ---------------------------------------------------------------------------

/// `u32::from_str` of a trimmed draft: an optional `+`, then at least one
/// digit, with a value that fits.
pub open spec fn parse_u32_spec(t: Seq<char>) -> Option<u32> {
    let d = sign_stripped(t);
    if d.len() == 0 || !all_digits(d) {
        None
    } else if digits_value(d) > u32::MAX {
        None
    } else {
        Some(digits_value(d) as u32)
    }
}

/// `t` without one leading `+`.
pub open spec fn sign_stripped(t: Seq<char>) -> Seq<char> {
    if t.len() > 0 && t[0] == '+' {
        t.skip(1)
    } else {
        t
    }
}

/// Every character is an ASCII digit.
pub open spec fn all_digits(d: Seq<char>) -> bool {
    forall|i: int| 0 <= i < d.len() ==> is_ascii_digit(#[trigger] d[i])
}

/// Value of a run of decimal digits.
pub open spec fn digits_value(d: Seq<char>) -> nat
    decreases d.len(),
{
    if d.len() == 0 {
        0
    } else {
        digits_value(d.drop_last()) * 10 + ((d.last() as u32) - 48) as nat
    }
}

/// The page typed into the PDF page box: `None` when blank or not a `u32`.
pub fn parse_page_draft(draft: &str) -> (r: Option<u32>)
    ensures
        trim_spec(draft@).len() == 0 ==> r is None,
        trim_spec(draft@).len() > 0 ==> r == parse_u32_spec(trim_spec(draft@)),
{
    let v = chars_of(draft);
    let t = trim_chars(&v);
    if t.len() == 0 {
        return None;
    }
    let start: usize = if t[0] == '+' { 1 } else { 0 };
    let ghost d = sign_stripped(t@);
    assert(d =~= t@.skip(start as int));
    if start == t.len() {
        assert(d.len() == 0);
        return None;
    }
    let mut value: u64 = 0;
    let mut i: usize = start;
    while i < t.len()
        invariant
            t@ == trim_spec(draft@),
            d == sign_stripped(t@),
            start <= i <= t@.len(),
            d == t@.skip(start as int),
            value == digits_value(t@.subrange(start as int, i as int)),
            value <= u32::MAX,
            forall|k: int| start <= k < i ==> is_ascii_digit(#[trigger] t@[k]),
        decreases t@.len() - i,
    {
        let c = t[i];
        if !('0' <= c && c <= '9') {
            proof {
                assert(d[i - start] == c);
                assert(!is_ascii_digit(d[i - start]));
            }
            return None;
        }
        proof {
            assert(t@.subrange(start as int, i + 1).drop_last() =~= t@.subrange(start as int, i as int));
        }
        let digit = (c as u32 - 48) as u64;
        let next = value * 10 + digit;
        proof {
            let sub = t@.subrange(start as int, i + 1);
            assert(sub.last() == c);
            assert(next == digits_value(sub));
        }
        if next > 4294967295 {
            proof {
                lemma_digits_value_monotone(d, (i + 1 - start) as int);
                assert(t@.subrange(start as int, i + 1) =~= d.take(i + 1 - start));
                assert(digits_value(d) > u32::MAX);
            }
            return None;
        }
        value = next;
        i += 1;
    }
    proof {
        assert(t@.subrange(start as int, t@.len() as int) =~= d);
    }
    Some(value as u32)
}

/// A longer run of digits is worth at least as much as its prefix.
proof fn lemma_digits_value_monotone(d: Seq<char>, k: int)
    requires
        0 <= k <= d.len(),
    ensures
        digits_value(d) >= digits_value(d.take(k)),
    decreases d.len() - k,
{
    if k < d.len() {
        lemma_digits_value_monotone(d, k + 1);
        assert(d.take(k + 1).drop_last() =~= d.take(k));
    } else {
        assert(d.take(k) =~= d);
    }
}

/// Width of the page box: the digits of the page count (or page), kept in 2–6.
pub fn page_input_size(page_count: Option<u32>, page: u32) -> (r: usize)
    ensures
        r == crate::menu::clamp_int(
            decimal_spec(
                (match page_count {
                    Some(n) => n,
                    None => page,
                }) as nat,
            ).len() as int,
            2,
            6,
        ),
{
    let n = match page_count {
        Some(n) => n,
        None => page,
    };
    let digits = crate::text::decimal_chars(n as u64);
    let w = digits.len();
    if w < 2 {
        2
    } else if w > 6 {
        6
    } else {
        w
    }
}

/// `a–b / total` for a byte window (sizes as in the footer).
pub open spec fn window_label_spec(offset: u64, byte_len: u64, total: u64) -> Seq<char> {
    let end: int = if byte_len == 0 {
        offset as int
    } else if offset + byte_len - 1 > u64::MAX {
        u64::MAX as int
    } else {
        offset + byte_len - 1
    };
    crate::format::format_bytes_spec(offset as nat) + "–"@ + crate::format::format_bytes_spec(end as nat)
        + " / "@ + crate::format::format_bytes_spec(total as nat)
}

/// Footer text of a byte-windowed text view.
pub fn text_window_label(offset: u64, byte_len: u64, total: u64) -> (r: String)
    ensures
        r@ == window_label_spec(offset, byte_len, total),
{
    let end = if byte_len == 0 {
        offset
    } else if offset > u64::MAX - (byte_len - 1) {
        u64::MAX
    } else {
        offset + (byte_len - 1)
    };
    let mut r = crate::format::format_bytes(offset);
    push_all(&mut r, "–");
    let b = crate::format::format_bytes(end);
    push_all(&mut r, b.as_str());
    push_all(&mut r, " / ");
    let c = crate::format::format_bytes(total);
    push_all(&mut r, c.as_str());
    r
}

// ---------------------------------------------------------------------------
// Find marks over text nodes
// ---------------------------------------------------------------------------

/// Sum of the lengths.
pub open spec fn seq_sum(s: Seq<usize>) -> int
    decreases s.len(),
{
    if s.len() == 0 {
        0
    } else {
        seq_sum(s.drop_last()) + s.last()
    }
}

proof fn lemma_prefix_sum_le(s: Seq<usize>, i: int)
    requires
        0 <= i <= s.len(),
    ensures
        seq_sum(s.take(i)) <= seq_sum(s),
    decreases s.len(),
{
    if i < s.len() {
        assert(s.drop_last().take(i) =~= s.take(i));
        lemma_prefix_sum_le(s.drop_last(), i);
    } else {
        assert(s.take(i) =~= s);
    }
}

/// Each text node as `(offset in the joined text, length)`: offsets are the
/// running sums of the lengths.
pub fn span_starts(lens: &Vec<usize>) -> (r: Vec<(usize, usize)>)
    requires
        seq_sum(lens@) <= usize::MAX,
    ensures
        r@.len() == lens@.len(),
        forall|i: int| 0 <= i < r@.len() ==> (#[trigger] r@[i]).0 == seq_sum(lens@.take(i)) && r@[i].1 == lens@[i],
{
    let mut r: Vec<(usize, usize)> = Vec::new();
    let mut acc: usize = 0;
    let mut i: usize = 0;
    while i < lens.len()
        invariant
            i <= lens@.len(),
            seq_sum(lens@) <= usize::MAX,
            acc == seq_sum(lens@.take(i as int)),
            r@.len() == i,
            forall|k: int| 0 <= k < i ==> (#[trigger] r@[k]).0 == seq_sum(lens@.take(k)) && r@[k].1 == lens@[k],
        decreases lens@.len() - i,
    {
        proof {
            assert(lens@.take(i + 1).drop_last() =~= lens@.take(i as int));
            lemma_prefix_sum_le(lens@, i + 1);
        }
        r.push((acc, lens[i]));
        acc = acc + lens[i];
        i += 1;
    }
    r
}

/// The part of the match `[start, end)` inside the text node at offset
/// `node_start` of length `len`, as offsets within the node, when they overlap.
pub open spec fn node_slice(node_start: int, len: int, start: int, end: int) -> Option<(int, int)> {
    let clamp = |x: int| if x < 0 { 0 } else if x > len { len } else { x };
    if node_start + len <= start || node_start >= end {
        None
    } else if clamp(start - node_start) >= clamp(end - node_start) {
        None
    } else {
        Some((clamp(start - node_start), clamp(end - node_start)))
    }
}

/// The pieces of a match in nodes `j..`, last node first: `(node, from, to)`.
pub open spec fn slices_from(spans: Seq<(usize, usize)>, j: int, start: int, end: int) -> Seq<(usize, usize, usize)>
    decreases spans.len() - j,
{
    if j < 0 || j >= spans.len() {
        Seq::empty()
    } else {
        slices_from(spans, j + 1, start, end) + match node_slice(spans[j].0 as int, spans[j].1 as int, start, end) {
            Some((a, b)) => seq![(j as usize, a as usize, b as usize)],
            None => Seq::empty(),
        }
    }
}

/// Where the highlight of match `[start, end)` of the joined text falls:
/// `(node, from, to)` for each text node it overlaps, last node first (so
/// earlier offsets stay valid while nodes are split).
pub fn range_slices(spans: &Vec<(usize, usize)>, start: usize, end: usize) -> (r: Vec<(usize, usize, usize)>)
    requires
        forall|i: int| 0 <= i < spans@.len() ==> (#[trigger] spans@[i]).0 + spans@[i].1 <= usize::MAX,
    ensures
        r@ == slices_from(spans@, 0, start as int, end as int),
{
    let mut out: Vec<(usize, usize, usize)> = Vec::new();
    let mut j: usize = spans.len();
    while j > 0
        invariant
            j <= spans@.len(),
            forall|i: int| 0 <= i < spans@.len() ==> (#[trigger] spans@[i]).0 + spans@[i].1 <= usize::MAX,
            out@ == slices_from(spans@, j as int, start as int, end as int),
        decreases j,
    {
        j -= 1;
        let (node_start, len) = spans[j];
        let node_end = node_start + len;
        let ghost before = out@;
        if !(node_end <= start || node_start >= end) {
            let ls0: usize = if start > node_start { start - node_start } else { 0 };
            let le0: usize = if end > node_start { end - node_start } else { 0 };
            let ls = if ls0 > len { len } else { ls0 };
            let le = if le0 > len { len } else { le0 };
            if ls < le {
                out.push((j, ls, le));
            }
        }
        assert(out@ =~= slices_from(spans@, j as int, start as int, end as int));
    }
    out
}

} // verus!

verus! {

// ---------------------------------------------------------------------------
// CSV column widths
// ---------------------------------------------------------------------------

/// Body rows measured for the column widths.
pub const CSV_WIDTH_SAMPLE_ROWS: usize = 40;

/// The measured width of cell `i` of a row; a missing or unmeasured cell counts 0.
pub open spec fn cell_width(row: Seq<Option<i32>>, i: int) -> int {
    if 0 <= i < row.len() {
        match row[i] {
            Some(w) => w as int,
            None => 0,
        }
    } else {
        0
    }
}

/// The widest cell `i` among the first `n` body rows (0 when none is wider).
pub open spec fn rows_max_width(body: Seq<Seq<Option<i32>>>, i: int, n: nat) -> int
    decreases n,
{
    if n == 0 {
        0
    } else {
        let w = rows_max_width(body, i, (n - 1) as nat);
        let c = cell_width(body[n - 1], i);
        if c > w { c } else { w }
    }
}

/// The width of column `i`: the widest of its header cell and its cells in
/// the first [`CSV_WIDTH_SAMPLE_ROWS`] body rows, and at least 0.
pub open spec fn column_width_spec(head: Seq<Option<i32>>, body: Seq<Seq<Option<i32>>>, i: int) -> int {
    let n = if body.len() < CSV_WIDTH_SAMPLE_ROWS { body.len() } else { CSV_WIDTH_SAMPLE_ROWS as nat };
    let h = cell_width(head, i);
    let b = rows_max_width(body, i, n);
    if h > b { h } else { b }
}

/// The widths given to the columns of a CSV table, one per header cell, from
/// the header and body cells' measured widths (`None` where a cell could not
/// be measured).
pub fn csv_column_widths(head: &Vec<Option<i32>>, body: &Vec<Vec<Option<i32>>>) -> (r: Vec<i32>)
    ensures
        r@.len() == head@.len(),
        forall|i: int| 0 <= i < r@.len() ==> #[trigger] r@[i] as int == column_width_spec(
            head@,
            body@.map_values(|row: Vec<Option<i32>>| row@),
            i,
        ),
{
    let ghost rows = body@.map_values(|row: Vec<Option<i32>>| row@);
    let sample: usize = if body.len() < CSV_WIDTH_SAMPLE_ROWS { body.len() } else { CSV_WIDTH_SAMPLE_ROWS };
    let mut out: Vec<i32> = Vec::new();
    let mut i: usize = 0;
    while i < head.len()
        invariant
            i <= head@.len(),
            sample as int == (if body@.len() < CSV_WIDTH_SAMPLE_ROWS { body@.len() as int } else { CSV_WIDTH_SAMPLE_ROWS as int }),
            rows == body@.map_values(|row: Vec<Option<i32>>| row@),
            out@.len() == i,
            forall|k: int| 0 <= k < i ==> #[trigger] out@[k] as int == column_width_spec(head@, rows, k),
        decreases head@.len() - i,
    {
        let mut w: i32 = 0;
        let mut r: usize = 0;
        while r < sample
            invariant
                i < head@.len(),
                r <= sample <= body@.len(),
                rows == body@.map_values(|row: Vec<Option<i32>>| row@),
                w as int == rows_max_width(rows, i as int, r as nat),
            decreases sample - r,
        {
            let row = &body[r];
            let c: i32 = if i < row.len() {
                match row[i] {
                    Some(x) => x,
                    None => 0,
                }
            } else {
                0
            };
            proof {
                assert(rows[r as int] == body@[r as int]@);
            }
            if c > w {
                w = c;
            }
            r += 1;
        }
        let h: i32 = match head[i] {
            Some(x) => x,
            None => 0,
        };
        let col = if h > w { h } else { w };
        out.push(col);
        i += 1;
    }
    out
}

/// A column width as a CSS length: at least one pixel.
pub fn css_px(width: i32) -> (r: String)
    ensures
        r@ == decimal_spec((if width < 1 { 1 } else { width as int }) as nat) + "px"@,
{
    let w: u64 = if width < 1 { 1 } else { width as u64 };
    let mut s = decimal_string(w);
    push_all(&mut s, "px");
    s
}

} // verus!

verus! {

// ---------------------------------------------------------------------------
// The shape of a split pattern
// ---------------------------------------------------------------------------

/// The texts of the pieces, one after another.
pub open spec fn pieces_text(p: Seq<(Seq<char>, bool)>) -> Seq<char>
    decreases p.len(),
{
    if p.len() == 0 {
        Seq::empty()
    } else {
        p[0].0 + pieces_text(p.drop_first())
    }
}

/// A placeholder: `[`, then anything without `]`, then `]`.
pub open spec fn bracketed(t: Seq<char>) -> bool {
    &&& t.len() >= 2
    &&& t[0] == '['
    &&& t.last() == ']'
    &&& forall|k: int| 0 <= k < t.len() - 1 ==> t[k] != ']'
}

/// Placeholders are bracketed, plain pieces are not empty, and a plain piece
/// is never followed by another plain piece.
pub open spec fn pieces_well_formed(p: Seq<(Seq<char>, bool)>) -> bool {
    &&& forall|j: int| 0 <= j < p.len() && (#[trigger] p[j]).1 ==> bracketed(p[j].0)
    &&& forall|j: int| 0 <= j < p.len() && !(#[trigger] p[j]).1 ==> p[j].0.len() > 0
    &&& forall|j: int| 0 <= j < p.len() - 1 && !(#[trigger] p[j]).1 ==> p[j + 1].1
}

proof fn lemma_pieces_text_append(a: Seq<(Seq<char>, bool)>, b: Seq<(Seq<char>, bool)>)
    ensures
        pieces_text(a + b) == pieces_text(a) + pieces_text(b),
    decreases a.len(),
{
    if a.len() == 0 {
        assert(a + b =~= b);
    } else {
        assert((a + b).drop_first() =~= a.drop_first() + b);
        lemma_pieces_text_append(a.drop_first(), b);
    }
}

proof fn lemma_pieces_text_one(x: (Seq<char>, bool))
    ensures
        pieces_text(seq![x]) == x.0,
{
    let p = seq![x];
    assert(p.drop_first() =~= Seq::<(Seq<char>, bool)>::empty());
    assert(pieces_text(p.drop_first()) == Seq::<char>::empty());
    assert(x.0 + Seq::<char>::empty() =~= x.0);
}

proof fn lemma_parts_from_shape(s: Seq<char>, i: int, start: int)
    requires
        0 <= start <= i <= s.len(),
    ensures
        pieces_text(parts_from(s, i, start)) == s.subrange(start, s.len() as int),
        pieces_well_formed(parts_from(s, i, start)),
    decreases s.len() - i,
{
    if i >= s.len() {
        if start < s.len() {
            lemma_pieces_text_one((s.subrange(start, s.len() as int), false));
        } else {
            assert(s.subrange(start, s.len() as int) =~= Seq::<char>::empty());
        }
    } else if s[i] == '[' && close_after(s, i) is Some {
        lemma_first_index_of_bounds(s.skip(i), ']');
        let c = close_after(s, i)->0;
        let end = c + 1;
        lemma_parts_from_shape(s, end, end);
        let pre = if start < i { seq![(s.subrange(start, i), false)] } else { Seq::<(Seq<char>, bool)>::empty() };
        let ph = seq![(s.subrange(i, end), true)];
        let rest = parts_from(s, end, end);
        assert(parts_from(s, i, start) == pre + ph + rest);
        lemma_pieces_text_append(pre + ph, rest);
        lemma_pieces_text_append(pre, ph);
        lemma_pieces_text_one((s.subrange(i, end), true));
        if start < i {
            lemma_pieces_text_one((s.subrange(start, i), false));
        } else {
            assert(pieces_text(pre) =~= Seq::<char>::empty());
        }
        assert(s.subrange(start, s.len() as int) =~= pieces_text(pre) + s.subrange(i, end) + s.subrange(end, s.len() as int));
        let t = s.subrange(i, end);
        assert(s.skip(i)[c - i] == ']');
        assert forall|k: int| 0 <= k < t.len() - 1 implies t[k] != ']' by {
            assert(t[k] == s.skip(i)[k]);
        }
        assert(bracketed(t));
        let all = pre + ph + rest;
        let n = pre.len();
        assert forall|j: int| 0 <= j < all.len() && (#[trigger] all[j]).1 implies bracketed(all[j].0) by {
            if j >= n + 1 {
                assert(all[j] == rest[j - n - 1]);
            }
        }
        assert forall|j: int| 0 <= j < all.len() && !(#[trigger] all[j]).1 implies all[j].0.len() > 0 by {
            if j >= n + 1 {
                assert(all[j] == rest[j - n - 1]);
            }
        }
        assert forall|j: int| 0 <= j < all.len() - 1 && !(#[trigger] all[j]).1 implies all[j + 1].1 by {
            if j >= n + 1 {
                assert(all[j] == rest[j - n - 1]);
                assert(all[j + 1] == rest[j + 1 - n - 1]);
            }
        }
    } else {
        lemma_parts_from_shape(s, i + 1, start);
    }
}

/// A split pattern reads back as the pattern, each placeholder is `[`,
/// text without `]`, then `]`, no two plain pieces stand side by side, and
/// plain pieces are never empty unless the pattern is.
pub proof fn law_pattern_parts_shape(s: Seq<char>)
    ensures
        pieces_text(pattern_parts_spec(s)) == s,
        forall|j: int|
            0 <= j < pattern_parts_spec(s).len() && (#[trigger] pattern_parts_spec(s)[j]).1 ==> bracketed(
                pattern_parts_spec(s)[j].0,
            ),
        forall|j: int|
            0 <= j < pattern_parts_spec(s).len() - 1 && !(#[trigger] pattern_parts_spec(s)[j]).1
                ==> pattern_parts_spec(s)[j + 1].1,
        s.len() > 0 ==> forall|j: int|
            0 <= j < pattern_parts_spec(s).len() && !(#[trigger] pattern_parts_spec(s)[j]).1
                ==> pattern_parts_spec(s)[j].0.len() > 0,
{
    lemma_parts_from_shape(s, 0, 0);
    assert(s.subrange(0, s.len() as int) =~= s);
    if parts_from(s, 0, 0).len() == 0 {
        lemma_pieces_text_one((s, false));
        if s.len() > 0 {
            assert(pieces_text(parts_from(s, 0, 0)) =~= Seq::<char>::empty());
        }
    }
}

/// The Viewer body: a PDF gets the PDF viewer; audio, EPUB and `.epub`
/// files their cover; directories and Zarr stores the tree; large text and
/// code files byte windows. Every other entry the host renders to HTML
/// (markdown, code, CSV, text, images, video, SVG, delimited files) gets the
/// host HTML body, and the plain host text body is only for entries the host
/// does not render to HTML. An image that is not an `.epub` always gets the
/// host HTML body.
pub proof fn law_viewer_body_choice(category: Seq<char>, path: Seq<char>, size: u64)
    ensures
        (viewer_body_spec(category, path, size) == ViewerBody::Pdf) == (category == "PDF"@),
        ({
            let special = category == "PDF"@ || eq_ignore_case(category, "Audio"@) || eq_ignore_case(
                category,
                "Epub"@,
            ) || looks_epub_spec(path) || category == "Directory"@ || eq_ignore_case(category, "Zarr"@)
                || (size >= CONTENT_WINDOW_MIN_FILE_BYTES && (category == "Text"@
                || syntect_categories().contains(category)));
            &&& (viewer_body_spec(category, path, size) == ViewerBody::HostHtml) == (!special
                && uses_html_viewer_spec(category, path))
            &&& (viewer_body_spec(category, path, size) == ViewerBody::HostText) == (!special
                && !uses_html_viewer_spec(category, path))
        }),
        category == "Image"@ && !looks_epub_spec(path) ==> viewer_body_spec(category, path, size)
            == ViewerBody::HostHtml,
{
    reveal_strlit("Image");
    reveal_strlit("PDF");
    reveal_strlit("Audio");
    reveal_strlit("Epub");
    reveal_strlit("Directory");
    reveal_strlit("Zarr");
    reveal_strlit("Text");
    reveal_strlit("JSON");
    reveal_strlit("TOML");
    reveal_strlit("YAML");
    reveal_strlit("XML");
    reveal_strlit("HTML");
    reveal_strlit("INI");
    reveal_strlit("Log");
    reveal_strlit("Code");
    if category == "Image"@ {
        assert(category.len() != "PDF"@.len());
        assert(lower_seq(category)[0] == 'i');
        assert(lower_seq("Audio"@)[0] == 'a');
        assert(lower_seq(category).len() != lower_seq("Epub"@).len());
        assert(lower_seq(category).len() != lower_seq("Zarr"@).len());
        assert(category.len() != "Directory"@.len());
        assert(category.len() != "Text"@.len());
        assert(!syntect_categories().contains(category)) by {
            let cats = syntect_categories();
            assert forall|k: int| 0 <= k < cats.len() implies cats[k].len() != 5 by {}
        }
    }
}

} // verus!
