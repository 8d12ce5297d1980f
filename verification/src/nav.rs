//! Main-mode navigation for the web chrome.
//!
//! The modes are tabs, not URLs: the browser stays on `/` with an optional
//! `?mode=` query, while the JSON API lives at serve paths (`/delta`,
//! `/lenses`, …) that are never UI pages.

use vstd::prelude::*;
use crate::text::{
    chars_of, chars_is, string_of, trim_chars, lower_chars, trim_char_chars, find_char,
    split_chars, str_eq_ignore_case, push_all, push_chars, string_push, decimal_spec,
    decimal_chars, trim_spec, lower_seq, trim_char_spec, trim_char_start_spec, first_index_of,
    split_spec, lower_char, eq_ignore_case, lemma_first_index_of_bounds, lemma_first_index_of,
    lemma_first_index_of_none, lemma_split_without_sep, trim_start_spec, trim_end_spec,
};
use crate::url::{decode_component, url_decode_spec, lemma_decode_plain_ascii};

verus! {

/// Top-level chrome modes.
#[derive(Clone, Copy, Debug, PartialEq, Eq, Structural)]
pub enum MainMode {
    Snapshot,
    Lenses,
    Delta,
    Duplicates,
    Settings,
}

impl Default for MainMode {
    fn default() -> (r: Self)
        ensures
            r == MainMode::Snapshot,
    {
        MainMode::Snapshot
    }
}

/// The modes in tab order.
pub open spec fn all_modes_spec() -> Seq<MainMode> {
    seq![
        MainMode::Snapshot,
        MainMode::Lenses,
        MainMode::Delta,
        MainMode::Duplicates,
        MainMode::Settings,
    ]
}

/// The trimmed, ASCII-lowercased query value read as a mode.
pub open spec fn mode_from_query_spec(s: Seq<char>) -> Option<MainMode> {
    let t = lower_seq(trim_spec(s));
    if t == "snapshot"@ || t.len() == 0 {
        Some(MainMode::Snapshot)
    } else if t == "lenses"@ || t == "lens"@ {
        Some(MainMode::Lenses)
    } else if t == "delta"@ {
        Some(MainMode::Delta)
    } else if t == "duplicates"@ || t == "dupes"@ || t == "duplicate"@ {
        Some(MainMode::Duplicates)
    } else if t == "settings"@ || t == "config"@ {
        Some(MainMode::Settings)
    } else {
        None
    }
}

impl MainMode {
    pub open spec fn label_spec(self) -> Seq<char> {
        match self {
            MainMode::Snapshot => "Snapshot"@,
            MainMode::Lenses => "Lenses"@,
            MainMode::Delta => "Delta"@,
            MainMode::Duplicates => "Duplicates"@,
            MainMode::Settings => "Settings"@,
        }
    }

    pub open spec fn digit_spec(self) -> u8 {
        match self {
            MainMode::Snapshot => 1,
            MainMode::Lenses => 2,
            MainMode::Delta => 7,
            MainMode::Duplicates => 8,
            MainMode::Settings => 9,
        }
    }

    pub open spec fn query_spec(self) -> Seq<char> {
        match self {
            MainMode::Snapshot => "snapshot"@,
            MainMode::Lenses => "lenses"@,
            MainMode::Delta => "delta"@,
            MainMode::Duplicates => "duplicates"@,
            MainMode::Settings => "settings"@,
        }
    }

    pub open spec fn visible_spec(self, has_lenses: bool, has_delta: bool, has_duplicates: bool) -> bool {
        match self {
            MainMode::Snapshot | MainMode::Settings => true,
            MainMode::Lenses => has_lenses,
            MainMode::Delta => has_delta,
            MainMode::Duplicates => has_duplicates,
        }
    }

    /// Every mode, in tab order.
    pub fn all() -> (r: Vec<MainMode>)
        ensures
            r@ == all_modes_spec(),
    {
        let r = vec![
            MainMode::Snapshot,
            MainMode::Lenses,
            MainMode::Delta,
            MainMode::Duplicates,
            MainMode::Settings,
        ];
        assert(r@ =~= all_modes_spec());
        r
    }

    /// Tab label.
    pub fn label(self) -> (r: &'static str)
        ensures
            r@ == self.label_spec(),
    {
        match self {
            MainMode::Snapshot => "Snapshot",
            MainMode::Lenses => "Lenses",
            MainMode::Delta => "Delta",
            MainMode::Duplicates => "Duplicates",
            MainMode::Settings => "Settings",
        }
    }

    /// Hotkey digit of the tab.
    pub fn digit(self) -> (r: u8)
        ensures
            r == self.digit_spec(),
    {
        match self {
            MainMode::Snapshot => 1,
            MainMode::Lenses => 2,
            MainMode::Delta => 7,
            MainMode::Duplicates => 8,
            MainMode::Settings => 9,
        }
    }

    /// Tab-bar title with its digit hint, such as `Settings (9)`.
    pub fn tab_title(self) -> (r: String)
        ensures
            r@ == self.label_spec() + " ("@ + decimal_spec(self.digit_spec() as nat) + ")"@,
    {
        let mut r = String::new();
        push_all(&mut r, self.label());
        push_all(&mut r, " (");
        let d = decimal_chars(self.digit() as u64);
        push_chars(&mut r, &d);
        push_all(&mut r, ")");
        r
    }

    /// Value of `/?mode=…` for this mode.
    pub fn query_value(self) -> (r: &'static str)
        ensures
            r@ == self.query_spec(),
    {
        match self {
            MainMode::Snapshot => "snapshot",
            MainMode::Lenses => "lenses",
            MainMode::Delta => "delta",
            MainMode::Duplicates => "duplicates",
            MainMode::Settings => "settings",
        }
    }

    /// Reads a `?mode=` value: trimmed, case-insensitive, with a few aliases.
    pub fn from_query_value(s: &str) -> (r: Option<MainMode>)
        ensures
            r == mode_from_query_spec(s@),
    {
        let v = chars_of(s);
        let t = trim_chars(&v);
        let t = lower_chars(&t);
        if chars_is(&t, "snapshot") || t.len() == 0 {
            Some(MainMode::Snapshot)
        } else if chars_is(&t, "lenses") || chars_is(&t, "lens") {
            Some(MainMode::Lenses)
        } else if chars_is(&t, "delta") {
            Some(MainMode::Delta)
        } else if chars_is(&t, "duplicates") || chars_is(&t, "dupes") || chars_is(&t, "duplicate") {
            Some(MainMode::Duplicates)
        } else if chars_is(&t, "settings") || chars_is(&t, "config") {
            Some(MainMode::Settings)
        } else {
            None
        }
    }

    /// Whether the tab shows for these catalog flags (empty Lenses, Delta and
    /// Duplicates tabs are hidden).
    pub fn is_visible(self, has_lenses: bool, has_delta: bool, has_duplicates: bool) -> (r: bool)
        ensures
            r == self.visible_spec(has_lenses, has_delta, has_duplicates),
    {
        match self {
            MainMode::Snapshot | MainMode::Settings => true,
            MainMode::Lenses => has_lenses,
            MainMode::Delta => has_delta,
            MainMode::Duplicates => has_duplicates,
        }
    }
}

// ---------------------------------------------------------------------------
// Reserved API paths
// ---------------------------------------------------------------------------

/// First path segments of the serve JSON routes.
pub open spec fn reserved_segments_spec() -> Seq<Seq<char>> {
    seq![
        "health"@,
        "roots"@,
        "doctor"@,
        "snapshot"@,
        "categories"@,
        "entries"@,
        "delta"@,
        "duplicates"@,
        "lenses"@,
        "settings"@,
    ]
}

/// The serve JSON routes' first segments; never UI page paths.
pub fn reserved_api_path_segments() -> (r: Vec<&'static str>)
    ensures
        r@.len() == reserved_segments_spec().len(),
        forall|i: int| 0 <= i < r@.len() ==> (#[trigger] r@[i])@ == reserved_segments_spec()[i],
{
    let r = vec![
        "health",
        "roots",
        "doctor",
        "snapshot",
        "categories",
        "entries",
        "delta",
        "duplicates",
        "lenses",
        "settings",
    ];
    r
}

/// `segment`, trimmed of whitespace and then of `/`, names a reserved route
/// (ignoring ASCII case).
pub open spec fn reserved_segment_spec(segment: Seq<char>) -> bool {
    let s = trim_char_spec(trim_spec(segment), '/');
    exists|i: int|
        0 <= i < reserved_segments_spec().len() && eq_ignore_case(
            s,
            #[trigger] reserved_segments_spec()[i],
        )
}

/// True if `segment` is reserved for the JSON API (case-insensitive).
pub fn is_reserved_api_segment(segment: &str) -> (r: bool)
    ensures
        r == reserved_segment_spec(segment@),
{
    let v = chars_of(segment);
    let t = trim_chars(&v);
    let t = trim_char_chars(&t, '/');
    let s = string_of(&t);
    let segs = reserved_api_path_segments();
    let mut i: usize = 0;
    while i < segs.len()
        invariant
            i <= segs@.len(),
            segs@.len() == reserved_segments_spec().len(),
            forall|k: int| 0 <= k < segs@.len() ==> (#[trigger] segs@[k])@ == reserved_segments_spec()[k],
            s@ == trim_char_spec(trim_spec(segment@), '/'),
            forall|k: int| 0 <= k < i ==> !eq_ignore_case(s@, #[trigger] reserved_segments_spec()[k]),
        decreases segs@.len() - i,
    {
        if str_eq_ignore_case(s.as_str(), segs[i]) {
            return true;
        }
        i += 1;
    }
    false
}

/// Characters before the first `/` (the first item of `split('/')`).
pub open spec fn first_segment_spec(s: Seq<char>) -> Seq<char> {
    match first_index_of(s, '/') {
        Some(i) => s.take(i),
        None => s,
    }
}

/// The pathname's first segment, after trimming whitespace and `/`.
pub open spec fn pathname_segment_spec(pathname: Seq<char>) -> Seq<char> {
    first_segment_spec(trim_char_spec(trim_spec(pathname), '/'))
}

/// A pathname is safe for the single-page app when its first segment is empty
/// or not an API route.
pub open spec fn ui_pathname_safe_spec(pathname: Seq<char>) -> bool {
    let seg = pathname_segment_spec(pathname);
    seg.len() == 0 || !reserved_segment_spec(seg)
}

/// The characters before the first `/`.
fn first_segment(v: &Vec<char>) -> (r: Vec<char>)
    ensures
        r@ == first_segment_spec(v@),
{
    proof {
        lemma_first_index_of_bounds(v@, '/');
    }
    match find_char(v, '/') {
        Some(i) => crate::text::sub_chars(v, 0, i),
        None => {
            let r = crate::text::sub_chars(v, 0, v.len());
            assert(r@ =~= v@);
            r
        },
    }
}

/// True when the pathname is safe for the single-page app (not an API route segment).
pub fn ui_pathname_is_safe(pathname: &str) -> (r: bool)
    ensures
        r == ui_pathname_safe_spec(pathname@),
{
    let v = chars_of(pathname);
    let t = trim_chars(&v);
    let t = trim_char_chars(&t, '/');
    let seg = first_segment(&t);
    if seg.len() == 0 {
        return true;
    }
    let s = string_of(&seg);
    !is_reserved_api_segment(s.as_str())
}

/// `/` for the Snapshot tab, `/?mode=…` for the others.
pub open spec fn mode_url_spec(mode: MainMode) -> Seq<char> {
    if mode == MainMode::Snapshot {
        "/"@
    } else {
        "/?mode="@ + mode.query_spec()
    }
}

/// Where an address bar on an API path is sent: the mode named by its first
/// segment (Snapshot when none), and the URL that replaces it.
pub open spec fn recover_spec(pathname: Seq<char>) -> Option<(MainMode, Seq<char>)> {
    if ui_pathname_safe_spec(pathname) {
        None
    } else {
        let seg = first_segment_spec(trim_char_spec(pathname, '/'));
        let mode = match mode_from_query_spec(seg) {
            Some(m) => m,
            None => MainMode::Snapshot,
        };
        Some((mode, mode_url_spec(mode)))
    }
}

/// URL of the single-page app on the tab of `mode`.
pub fn mode_url(mode: MainMode) -> (r: String)
    ensures
        r@ == mode_url_spec(mode),
{
    let mut r = String::new();
    if mode == MainMode::Snapshot {
        push_all(&mut r, "/");
    } else {
        push_all(&mut r, "/?mode=");
        push_all(&mut r, mode.query_value());
    }
    r
}

/// If the pathname is an API path (say an accidental `/delta`), the mode it
/// names and the URL to rewrite the address bar to.
pub fn recover_mode_from_pathname(pathname: &str) -> (r: Option<(MainMode, String)>)
    ensures
        r matches Some((m, u)) ==> recover_spec(pathname@) == Some((m, u@)),
        r is None ==> recover_spec(pathname@) is None,
{
    if ui_pathname_is_safe(pathname) {
        return None;
    }
    let v = chars_of(pathname);
    let t = trim_char_chars(&v, '/');
    let seg = first_segment(&t);
    let s = string_of(&seg);
    let mode = match MainMode::from_query_value(s.as_str()) {
        Some(m) => m,
        None => MainMode::Snapshot,
    };
    let url = mode_url(mode);
    Some((mode, url))
}

/// Key of a `key=value` query pair: everything before the first `=`.
pub open spec fn pair_key_spec(pair: Seq<char>) -> Seq<char> {
    match first_index_of(pair, '=') {
        Some(i) => pair.take(i),
        None => pair,
    }
}

/// Value of a `key=value` query pair: everything after the first `=`, or empty.
pub open spec fn pair_value_spec(pair: Seq<char>) -> Seq<char> {
    match first_index_of(pair, '=') {
        Some(i) => pair.skip(i + 1),
        None => Seq::<char>::empty(),
    }
}

/// A `mode` value: percent-decoded when that gives UTF-8, then read as a mode
/// (Snapshot when it names none).
pub open spec fn mode_from_value_spec(val: Seq<char>) -> MainMode {
    let text = match url_decode_spec(val) {
        Some(d) => d,
        None => val,
    };
    match mode_from_query_spec(text) {
        Some(m) => m,
        None => MainMode::Snapshot,
    }
}

/// The first `mode` pair decides; no such pair means Snapshot.
pub open spec fn mode_from_pairs_spec(pairs: Seq<Seq<char>>) -> MainMode
    decreases pairs.len(),
{
    if pairs.len() == 0 {
        MainMode::Snapshot
    } else if pair_key_spec(pairs[0]) == "mode"@ {
        mode_from_value_spec(pair_value_spec(pairs[0]))
    } else {
        mode_from_pairs_spec(pairs.drop_first())
    }
}

/// The mode named by a location's `search` string (`?a=b&mode=…`).
pub open spec fn mode_from_search_spec(search: Seq<char>) -> MainMode {
    mode_from_pairs_spec(split_spec(trim_char_start_spec(search, '?'), '&'))
}

/// `s` without its leading `c`s.
fn trim_start_char(s: &Vec<char>, c: char) -> (r: Vec<char>)
    ensures
        r@ == trim_char_start_spec(s@, c),
{
    let mut i: usize = 0;
    assert(s@.skip(0) =~= s@);
    while i < s.len() && s[i] == c
        invariant
            i <= s@.len(),
            trim_char_start_spec(s@, c) == trim_char_start_spec(s@.skip(i as int), c),
        decreases s@.len() - i,
    {
        assert(s@.skip(i as int).drop_first() =~= s@.skip(i + 1));
        i += 1;
    }
    let r = crate::text::sub_chars(s, i, s.len());
    assert(r@ =~= s@.skip(i as int));
    r
}

/// The mode read from one `mode` value.
fn mode_from_value(val: &Vec<char>) -> (r: MainMode)
    ensures
        r == mode_from_value_spec(val@),
{
    let raw = string_of(val);
    let text = match decode_component(raw.as_str()) {
        Some(d) => d,
        None => raw,
    };
    match MainMode::from_query_value(text.as_str()) {
        Some(m) => m,
        None => MainMode::Snapshot,
    }
}

/// Reads `?mode=` from a location's `search` string (Snapshot by default).
pub fn mode_from_search(search: &str) -> (r: MainMode)
    ensures
        r == mode_from_search_spec(search@),
{
    let v = chars_of(search);
    let raw = trim_start_char(&v, '?');
    let pairs = split_chars(&raw, '&');
    let ghost ps = split_spec(raw@, '&');
    let mut i: usize = 0;
    assert(ps.skip(0) =~= ps);
    while i < pairs.len()
        invariant
            i <= pairs@.len(),
            pairs@.len() == ps.len(),
            forall|k: int| 0 <= k < pairs@.len() ==> #[trigger] pairs@[k]@ == ps[k],
            mode_from_search_spec(search@) == mode_from_pairs_spec(ps.skip(i as int)),
        decreases pairs@.len() - i,
    {
        let pair = &pairs[i];
        let ghost rest = ps.skip(i as int);
        assert(rest[0] == ps[i as int]);
        assert(rest.drop_first() =~= ps.skip(i + 1));
        proof {
            lemma_first_index_of_bounds(pair@, '=');
        }
        let (key, val) = match find_char(pair, '=') {
            Some(j) => (crate::text::sub_chars(pair, 0, j), crate::text::sub_chars(pair, j + 1, pair.len())),
            None => (crate::text::sub_chars(pair, 0, pair.len()), Vec::new()),
        };
        assert(key@ =~= pair_key_spec(pair@));
        assert(val@ =~= pair_value_spec(pair@));
        if chars_is(&key, "mode") {
            return mode_from_value(&val);
        }
        i += 1;
    }
    MainMode::Snapshot
}

/// The address-bar URL after switching to `mode` on `pathname`: the bare
/// pathname for Snapshot, `pathname?mode=…` otherwise.
pub open spec fn synced_url_spec(pathname: Seq<char>, mode: MainMode) -> Seq<char> {
    if mode == MainMode::Snapshot {
        pathname
    } else {
        pathname + "?mode="@ + mode.query_spec()
    }
}

/// URL written to the address bar when the mode changes (no navigation).
pub fn synced_mode_url(pathname: &str, mode: MainMode) -> (r: String)
    ensures
        r@ == synced_url_spec(pathname@, mode),
{
    let mut r = String::new();
    push_all(&mut r, pathname);
    if mode != MainMode::Snapshot {
        push_all(&mut r, "?mode=");
        push_all(&mut r, mode.query_value());
    }
    r
}

/// `mode` when its tab is visible, Snapshot otherwise.
pub open spec fn clamp_spec(mode: MainMode, has_lenses: bool, has_delta: bool, has_duplicates: bool) -> MainMode {
    if mode.visible_spec(has_lenses, has_delta, has_duplicates) {
        mode
    } else {
        MainMode::Snapshot
    }
}

/// Falls back to Snapshot when catalog flags hide the requested tab.
pub fn clamp_mode_to_visible(
    mode: MainMode,
    has_lenses: bool,
    has_delta: bool,
    has_duplicates: bool,
) -> (r: MainMode)
    ensures
        r == clamp_spec(mode, has_lenses, has_delta, has_duplicates),
{
    if mode.is_visible(has_lenses, has_delta, has_duplicates) {
        mode
    } else {
        MainMode::Snapshot
    }
}

/// The visible modes, in tab order.
pub open spec fn visible_modes_spec(has_lenses: bool, has_delta: bool, has_duplicates: bool) -> Seq<MainMode> {
    all_modes_spec().filter(|m: MainMode| m.visible_spec(has_lenses, has_delta, has_duplicates))
}

/// Index of the first `x` in `s`, if any (`Iterator::position`).
pub open spec fn position_spec<T>(s: Seq<T>, x: T) -> Option<int>
    decreases s.len(),
{
    if s.len() == 0 {
        None
    } else if s[0] == x {
        Some(0)
    } else {
        match position_spec(s.drop_first(), x) {
            Some(i) => Some(i + 1),
            None => None,
        }
    }
}

pub proof fn lemma_position_found<T>(s: Seq<T>, x: T, j: int)
    requires
        0 <= j < s.len(),
        s[j] == x,
        forall|k: int| 0 <= k < j ==> s[k] != x,
    ensures
        position_spec(s, x) == Some(j),
    decreases j,
{
    if j > 0 {
        lemma_position_found(s.drop_first(), x, j - 1);
    }
}

/// Where `position_spec` points, `x` is; when it finds nothing, `x` is absent.
pub proof fn lemma_position_spec<T>(s: Seq<T>, x: T)
    ensures
        position_spec(s, x) matches Some(i) ==> 0 <= i < s.len() && s[i] == x,
        position_spec(s, x) is None ==> !s.contains(x),
    decreases s.len(),
{
    if s.len() > 0 {
        lemma_position_spec(s.drop_first(), x);
        if s[0] != x && position_spec(s.drop_first(), x) is None {
            assert forall|k: int| 0 <= k < s.len() implies s[k] != x by {
                if k > 0 {
                    assert(s[k] == s.drop_first()[k - 1]);
                }
            }
        }
    }
}

pub proof fn lemma_position_absent<T>(s: Seq<T>, x: T)
    requires
        forall|k: int| 0 <= k < s.len() ==> s[k] != x,
    ensures
        position_spec(s, x) is None,
    decreases s.len(),
{
    if s.len() > 0 {
        lemma_position_absent(s.drop_first(), x);
    }
}

/// The visible tab after `current` (wrapping); from a hidden tab, the one
/// after the first visible tab.
pub open spec fn next_visible_spec(
    current: MainMode,
    has_lenses: bool,
    has_delta: bool,
    has_duplicates: bool,
) -> MainMode {
    let vis = visible_modes_spec(has_lenses, has_delta, has_duplicates);
    let idx = match position_spec(vis, current) {
        Some(i) => i,
        None => 0,
    };
    vis[(idx + 1) % (vis.len() as int)]
}

/// Tab order restricted to the visible tabs.
fn visible_modes(has_lenses: bool, has_delta: bool, has_duplicates: bool) -> (r: Vec<MainMode>)
    ensures
        r@ == visible_modes_spec(has_lenses, has_delta, has_duplicates),
{
    let all = MainMode::all();
    let mut r: Vec<MainMode> = Vec::new();
    let mut i: usize = 0;
    while i < all.len()
        invariant
            i <= all@.len(),
            all@ == all_modes_spec(),
            r@ == all@.take(i as int).filter(|m: MainMode| m.visible_spec(has_lenses, has_delta, has_duplicates)),
        decreases all@.len() - i,
    {
        let m = all[i];
        proof {
            reveal_with_fuel(Seq::<_>::filter, 1);
            assert(all@.take(i + 1).drop_last() =~= all@.take(i as int));
        }
        if m.is_visible(has_lenses, has_delta, has_duplicates) {
            r.push(m);
        }
        i += 1;
    }
    assert(all@.take(all@.len() as int) =~= all@);
    r
}

/// `~`: the next visible main tab, wrapping around.
pub fn next_visible_mode(
    current: MainMode,
    has_lenses: bool,
    has_delta: bool,
    has_duplicates: bool,
) -> (r: MainMode)
    ensures
        r == next_visible_spec(current, has_lenses, has_delta, has_duplicates),
        r.visible_spec(has_lenses, has_delta, has_duplicates),
{
    let visible = visible_modes(has_lenses, has_delta, has_duplicates);
    proof {
        let f = |m: MainMode| m.visible_spec(has_lenses, has_delta, has_duplicates);
        all_modes_spec().lemma_filter_contains(f, 0);
    }
    let ghost vis = visible@;
    let mut j: usize = 0;
    while j < visible.len() && visible[j] != current
        invariant
            j <= vis.len(),
            vis == visible@,
            forall|k: int| 0 <= k < j ==> vis[k] != current,
        decreases vis.len() - j,
    {
        j += 1;
    }
    let idx: usize = if j < visible.len() {
        proof {
            lemma_position_found(vis, current, j as int);
        }
        j
    } else {
        proof {
            lemma_position_absent(vis, current);
        }
        0
    };
    let n = visible.len();
    let r = visible[(idx + 1) % n];
    proof {
        let f = |m: MainMode| m.visible_spec(has_lenses, has_delta, has_duplicates);
        all_modes_spec().lemma_filter_pred(f, (idx as int + 1) % (n as int));
    }
    r
}

} // verus!

verus! {

// ---------------------------------------------------------------------------
// Laws
// ---------------------------------------------------------------------------

/// Every mode's `?mode=` value reads back as that mode.
pub proof fn law_query_value_round_trip(m: MainMode)
    ensures
        mode_from_query_spec(m.query_spec()) == Some(m),
{
    reveal_strlit("snapshot");
    reveal_strlit("lenses");
    reveal_strlit("lens");
    reveal_strlit("delta");
    reveal_strlit("duplicates");
    reveal_strlit("dupes");
    reveal_strlit("duplicate");
    reveal_strlit("settings");
    reveal_strlit("config");
    let q = m.query_spec();
    assert(trim_start_spec(q) == q);
    assert(trim_end_spec(q) == q);
    assert(lower_seq(q) =~= q);
}

/// What the address bar holds after a mode switch reads back as that mode: the
/// `?mode=` query written for every mode other than Snapshot, and no query at all
/// for Snapshot.
pub proof fn law_synced_search_reads_back(m: MainMode)
    ensures
        mode_from_search_spec("?mode="@ + m.query_spec()) == m,
        mode_from_search_spec(""@) == MainMode::Snapshot,
{
    reveal_strlit("?mode=");
    reveal_strlit("mode=");
    reveal_strlit("mode");
    reveal_strlit("");
    reveal_strlit("snapshot");
    reveal_strlit("lenses");
    reveal_strlit("delta");
    reveal_strlit("duplicates");
    reveal_strlit("settings");
    reveal_with_fuel(trim_char_start_spec, 2);
    reveal_with_fuel(mode_from_pairs_spec, 2);
    let q = m.query_spec();
    let s = "?mode="@ + q;
    let t = "mode="@ + q;
    assert(s.drop_first() =~= t);
    assert(t[0] == 'm');
    assert forall|k: int| 0 <= k < q.len() implies 'a' <= #[trigger] q[k] <= 'z' by {}
    assert forall|k: int| 0 <= k < t.len() implies #[trigger] t[k] != '&' by {
        if k >= 5 {
            assert(t[k] == q[k - 5]);
        }
    }
    lemma_split_without_sep(t, '&');
    lemma_first_index_of(t, '=', 4);
    assert(t.take(4) =~= "mode"@);
    assert(t.skip(5) =~= q);
    lemma_decode_plain_ascii(q);
    law_query_value_round_trip(m);
    assert(split_spec(""@, '&') == seq![Seq::<char>::empty()]);
    lemma_first_index_of_none(Seq::<char>::empty(), '=');
}

/// Reading a query value that was trimmed and ASCII-lowercased first gives
/// the same mode: the reading ignores surrounding whitespace and ASCII case.
pub proof fn law_query_value_normalized_first(s: Seq<char>)
    ensures
        mode_from_query_spec(lower_seq(trim_spec(s))) == mode_from_query_spec(s),
{
    let u = trim_spec(s);
    crate::text::lemma_trim_idempotent(s);
    let l = lower_seq(u);
    if l.len() > 0 {
        assert(l[0] == lower_char(u[0]));
        assert(l.last() == lower_char(u.last()));
    }
    assert(trim_start_spec(l) == l);
    assert(trim_end_spec(l) == l);
    assert(lower_seq(l) =~= l);
}

/// Clamping always lands on a visible tab, and keeps a visible one.
pub proof fn law_clamp_is_visible(m: MainMode, has_lenses: bool, has_delta: bool, has_duplicates: bool)
    ensures
        clamp_spec(m, has_lenses, has_delta, has_duplicates).visible_spec(has_lenses, has_delta, has_duplicates),
        m.visible_spec(has_lenses, has_delta, has_duplicates) ==> clamp_spec(m, has_lenses, has_delta, has_duplicates) == m,
{
}

} // verus!
