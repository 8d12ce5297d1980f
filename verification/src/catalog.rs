//! Catalog naming and path helpers: cached settings, index-file names, the
//! hash suffix of a database stem, snapshot path normalisation and the
//! creation timestamp of a delta-log row.

use vstd::prelude::*;
use vstd::string::StrSliceExecFns;
use std::path::PathBuf;
use std::time::{Duration, SystemTime, SystemTimeError, UNIX_EPOCH};
use crate::text::{
    chars_of, string_of, trim_chars, is_hex, rfind_char, trim_spec, starts_with_spec,
    is_ascii_hex, rsplit_once_spec, push_all, lemma_last_index_of_bounds, last_index_of,
};

verus! {

// ---------------------------------------------------------------------------
// Plain data
// ---------------------------------------------------------------------------

/// Cached disk/tuning settings stored in the catalog database, so the disk
/// check can be skipped when an index file already exists.
#[derive(Clone, Debug)]
pub struct UblxSettings {
    pub num_threads: usize,
    pub drive_type: String,
    pub parallel_walk: bool,
    /// When a global config exists: "local" uses the directory config, "global" the global one.
    pub config_source: Option<String>,
}

/// Fixed names of the package and of its on-disk files.
#[derive(Clone, Copy, Debug)]
pub struct UblxNames;

/// The names used for every indexed root.
pub const UBLX_NAMES: UblxNames = UblxNames;

impl UblxNames {
    /// The package name, which also names the per-user directories.
    pub fn pkg_name(&self) -> (r: &'static str)
        ensures
            r@ == "ublx"@,
    {
        "ublx"
    }

    /// The extension of a root's index database file.
    pub fn index_db_file_ext(&self) -> (r: &'static str)
        ensures
            r@ == ".ublx"@,
    {
        ".ublx"
    }
}

// ---------------------------------------------------------------------------
// Hash suffixes
// ---------------------------------------------------------------------------

/// Exactly sixteen ASCII hex digits.
pub open spec fn hex_hash16_spec(s: Seq<char>) -> bool {
    s.len() == 16 && forall|i: int| 0 <= i < s.len() ==> is_ascii_hex(#[trigger] s[i])
}

/// The part after the last `_` of a database stem, when it is a 16-digit hex hash.
pub open spec fn hash_suffix_spec(stem: Seq<char>) -> Option<Seq<char>> {
    match rsplit_once_spec(stem, '_') {
        Some((_, suffix)) => if hex_hash16_spec(suffix) {
            Some(suffix)
        } else {
            None
        },
        None => None,
    }
}

/// True when `s` is exactly sixteen hex digits (a path hash).
pub fn is_hex_hash16(s: &str) -> (r: bool)
    ensures
        r == hex_hash16_spec(s@),
{
    let v = chars_of(s);
    if v.len() != 16 {
        return false;
    }
    let mut i: usize = 0;
    while i < v.len()
        invariant
            i <= v@.len(),
            v@ == s@,
            forall|k: int| 0 <= k < i ==> is_ascii_hex(#[trigger] v@[k]),
        decreases v@.len() - i,
    {
        if !is_hex(v[i]) {
            return false;
        }
        i += 1;
    }
    true
}

/// The 16-digit hex hash that ends a database stem such as `mydir_729a9c26db109730`.
pub fn hash_suffix_from_db_stem(stem: &str) -> (r: Option<&str>)
    ensures
        r matches Some(t) ==> hash_suffix_spec(stem@) == Some(t@),
        r is None ==> hash_suffix_spec(stem@) is None,
{
    let v = chars_of(stem);
    match rfind_char(&v, '_') {
        None => None,
        Some(i) => {
            proof {
                lemma_last_index_of_bounds(v@, '_');
            }
            let suffix = stem.substring_char(i + 1, v.len());
            if is_hex_hash16(suffix) {
                Some(suffix)
            } else {
                None
            }
        },
    }
}

// ---------------------------------------------------------------------------
// Snapshot paths
// ---------------------------------------------------------------------------

/// `s` without the two-character prefix `p`, when it starts with it.
pub open spec fn strip_prefix2(s: Seq<char>, p: Seq<char>) -> Seq<char> {
    if starts_with_spec(s, p) {
        s.skip(2)
    } else {
        s
    }
}

/// Backslashes turned into forward slashes.
pub open spec fn forward_slashes(s: Seq<char>) -> Seq<char> {
    s.map_values(|c: char| if c == '\\' { '/' } else { c })
}

/// A snapshot `path` column as a relative path key: trimmed, without a
/// leading `./` and then `.\`, with every `\` replaced by `/`.
pub open spec fn normalize_rel_path_spec(path: Seq<char>) -> Seq<char> {
    forward_slashes(strip_prefix2(strip_prefix2(trim_spec(path), seq!['.', '/']), seq!['.', '\\']))
}

/// Drops the two-character prefix `a b` from `v` when present.
fn strip_two(v: Vec<char>, a: char, b: char) -> (r: Vec<char>)
    ensures
        r@ == strip_prefix2(v@, seq![a, b]),
{
    if v.len() >= 2 && v[0] == a && v[1] == b {
        assert(v@.take(2) =~= seq![a, b]);
        let mut r: Vec<char> = Vec::new();
        let mut i: usize = 2;
        while i < v.len()
            invariant
                2 <= i <= v@.len(),
                r@ == v@.subrange(2, i as int),
            decreases v@.len() - i,
        {
            r.push(v[i]);
            i += 1;
            assert(r@ =~= v@.subrange(2, i as int));
        }
        assert(r@ =~= v@.skip(2));
        r
    } else {
        proof {
            if v@.len() >= 2 {
                assert(v@.take(2)[0] == v@[0]);
                assert(v@.take(2)[1] == v@[1]);
            }
        }
        v
    }
}

/// Normalises a snapshot `path` column so it matches the indexer's relative
/// path strings: trims, strips a leading `./` or `.\`, then replaces `\` with `/`.
pub fn normalize_snapshot_rel_path_str(path: &str) -> (r: String)
    ensures
        r@ == normalize_rel_path_spec(path@),
{
    let v = chars_of(path);
    let t = trim_chars(&v);
    let t = strip_two(t, '.', '/');
    let t = strip_two(t, '.', '\\');
    let mut out: Vec<char> = Vec::new();
    let mut i: usize = 0;
    while i < t.len()
        invariant
            i <= t@.len(),
            out@ == forward_slashes(t@.take(i as int)),
        decreases t@.len() - i,
    {
        let c = t[i];
        out.push(if c == '\\' { '/' } else { c });
        i += 1;
        assert(out@ =~= forward_slashes(t@.take(i as int)));
    }
    assert(t@.take(t@.len() as int) =~= t@);
    string_of(&out)
}

#[verifier::external_type_specification]
#[verifier::external_body]
pub struct ExPathBuf(std::path::PathBuf);

/// The text a path holds.
pub uninterp spec fn path_text(p: PathBuf) -> Seq<char>;

/// `PathBuf::from(String)`: the path takes over the string's buffer, so it
/// holds exactly the string's text. Only the text is stated: the buffer's
/// capacity, which the value also carries, is left unsaid.
#[verifier::external_body]
fn path_buf_of(s: String) -> (p: PathBuf)
    ensures
        path_text(p) == s@,
{
    PathBuf::from(s)
}

/// Path key for indexer-style maps, from a snapshot `path` column.
pub fn snapshot_rel_path_buf(path_str: &str) -> (p: PathBuf)
    ensures
        path_text(p) == normalize_rel_path_spec(path_str@),
{
    path_buf_of(normalize_snapshot_rel_path_str(path_str))
}

/// A normalized snapshot path never holds a backslash: every separator is `/`.
pub proof fn law_normalized_path_has_no_backslash(path: Seq<char>)
    ensures
        forall|i: int| 0 <= i < normalize_rel_path_spec(path).len()
            ==> #[trigger] normalize_rel_path_spec(path)[i] != '\\',
{
}

/// The hash found in a database stem is sixteen hex digits, and the stem is
/// whatever came before it, an underscore, then the hash.
pub proof fn law_hash_suffix_ends_stem(stem: Seq<char>)
    ensures
        hash_suffix_spec(stem) matches Some(h) ==> hex_hash16_spec(h) && stem.len() >= 17
            && stem == stem.take(stem.len() - 17) + seq!['_'] + h,
{
    lemma_last_index_of_bounds(stem, '_');
    if let Some(h) = hash_suffix_spec(stem) {
        let i = last_index_of(stem, '_')->0;
        assert(h == stem.skip(i + 1));
        assert(stem.len() - 17 == i);
        assert(stem =~= stem.take(i) + seq!['_'] + stem.skip(i + 1));
    }
}

// ---------------------------------------------------------------------------
// Directory arguments
// ---------------------------------------------------------------------------

/// What follows a leading `~/`, if the argument has one.
pub open spec fn home_rest_spec(s: Seq<char>) -> Option<Seq<char>> {
    if starts_with_spec(s, seq!['~', '/']) {
        Some(s.skip(2))
    } else {
        None
    }
}

/// The rest of a `~/…` directory argument, to be joined onto the home directory.
pub fn home_relative_rest(arg: &str) -> (r: Option<String>)
    ensures
        r matches Some(t) ==> home_rest_spec(arg@) == Some(t@),
        r is None ==> home_rest_spec(arg@) is None,
{
    let v = chars_of(arg);
    if v.len() >= 2 && v[0] == '~' && v[1] == '/' {
        assert(v@.take(2) =~= seq!['~', '/']);
        let rest = strip_two(v, '~', '/');
        Some(string_of(&rest))
    } else {
        proof {
            if v@.len() >= 2 {
                assert(v@.take(2)[0] == v@[0]);
                assert(v@.take(2)[1] == v@[1]);
            }
        }
        None
    }
}

/// The error for a directory argument, given what the file system reported:
/// missing, then not a directory; `None` when both checks pass.
pub fn dir_check_error(display: &str, exists: bool, is_dir: bool) -> (r: Option<String>)
    ensures
        !exists ==> (r matches Some(m) && m@ == "no such file or directory: "@ + display@),
        exists && !is_dir ==> (r matches Some(m) && m@ == "not a directory: "@ + display@),
        exists && is_dir ==> r is None,
{
    if !exists {
        let mut m = String::new();
        push_all(&mut m, "no such file or directory: ");
        push_all(&mut m, display);
        Some(m)
    } else if !is_dir {
        let mut m = String::new();
        push_all(&mut m, "not a directory: ");
        push_all(&mut m, display);
        Some(m)
    } else {
        None
    }
}

/// The error when a directory exists but cannot be canonicalised.
pub fn canonicalize_error(display: &str, err: &str) -> (m: String)
    ensures
        m@ == "cannot canonicalize '"@ + display@ + "': "@ + err@,
{
    let mut m = String::new();
    push_all(&mut m, "cannot canonicalize '");
    push_all(&mut m, display);
    push_all(&mut m, "': ");
    push_all(&mut m, err);
    m
}

// ---------------------------------------------------------------------------
// Creation timestamps
// ---------------------------------------------------------------------------

#[verifier::external_type_specification]
#[verifier::external_body]
pub struct ExSystemTime(std::time::SystemTime);

#[verifier::external_type_specification]
#[verifier::external_body]
pub struct ExSystemTimeError(std::time::SystemTimeError);

/// `SystemTime::now()`: the wall clock; nothing is known of the reading.
#[verifier::external_body]
fn system_time_now() -> SystemTime {
    SystemTime::now()
}

/// `SystemTime::duration_since(UNIX_EPOCH)`: `Err` when the clock reads
/// before 1970; nothing is stated of the duration.
#[verifier::external_body]
fn since_unix_epoch(t: &SystemTime) -> Result<Duration, SystemTimeError> {
    t.duration_since(UNIX_EPOCH)
}

/// `Duration::as_nanos()`: the whole duration in nanoseconds. The duration
/// comes from the clock, so no value is stated.
#[verifier::external_body]
fn duration_as_nanos(d: &Duration) -> u128 {
    d.as_nanos()
}

/// Nanoseconds as an `i64`, saturating at `i64::MAX`.
pub fn created_ns_from_nanos(nanos: u128) -> (r: i64)
    ensures
        r == (if nanos <= i64::MAX as u128 { nanos as int } else { i64::MAX as int }),
{
    if nanos <= i64::MAX as u128 {
        nanos as i64
    } else {
        i64::MAX
    }
}

/// A creation stamp from the clock's reading: its nanoseconds since 1970
/// (saturating at `i64::MAX`), or 0 when the clock reads before 1970 (`None`).
pub fn created_ns_from_clock(since_epoch_nanos: Option<u128>) -> (r: i64)
    ensures
        r == match since_epoch_nanos {
            Some(n) => if n <= i64::MAX as u128 { n as int } else { i64::MAX as int },
            None => 0,
        },
{
    match since_epoch_nanos {
        Some(n) => created_ns_from_nanos(n),
        None => 0,
    }
}

/// Current Unix time in nanoseconds (a delta-log row's `created_ns`): zero
/// when the clock reads before 1970, saturating at `i64::MAX` (see
/// [`created_ns_from_clock`]). The reading itself is the clock's.
pub fn get_created_ns() -> (r: i64)
    ensures
        r >= 0,
{
    let now = system_time_now();
    let since: Option<u128> = match since_unix_epoch(&now) {
        Ok(d) => Some(duration_as_nanos(&d)),
        Err(_) => None,
    };
    created_ns_from_clock(since)
}

} // verus!
