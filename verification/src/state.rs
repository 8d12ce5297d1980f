//! Small pieces of shell state and their transitions: the middle-pane
//! multi-selection, scoped catalog refresh generations, the help overlay,
//! catalog search, viewer find, list navigation and preview paging.

use vstd::prelude::*;
use crate::nav::MainMode;
use crate::sort::{Order, insertion_sort, sorted_by};
use crate::text::{chars_of, chars_lt, lex_le, lex_lt, lemma_lex_lt_total, lemma_lex_le_transitive, trim_spec, trim_str};

verus! {

broadcast use vstd::seq_lib::group_to_multiset_ensures;

// ---------------------------------------------------------------------------
// Multi-selection
// ---------------------------------------------------------------------------

/// The texts of a list of strings.
pub open spec fn texts(v: Seq<String>) -> Seq<Seq<char>> {
    v.map_values(|s: String| s@)
}

/// No text occurs twice.
pub open spec fn distinct_texts(v: Seq<String>) -> bool {
    forall|i: int, j: int| 0 <= i < j < v.len() ==> (#[trigger] v[i])@ != (#[trigger] v[j])@
}

/// Middle-pane multi-select: Ctrl+Space enters / leaves (Snapshot and Lenses,
/// contents focused); Space toggles the cursor row; Esc leaves.
pub struct Multiselect {
    pub active: bool,
    /// Checked paths, each text once.
    pub selected: Vec<String>,
    /// Path under the middle-pane cursor.
    pub cursor: Option<String>,
}

/// The checked paths as a set of texts.
pub open spec fn selected_set(m: Multiselect) -> Set<Seq<char>> {
    texts(m.selected@).to_set()
}

/// String order of `str` (by characters).
pub struct TextOrder;

impl Order<String> for TextOrder {
    open spec fn le(&self, a: String, b: String) -> bool {
        lex_le(a@, b@)
    }

    proof fn lemma_total(&self, a: String, b: String) {
        lemma_lex_lt_total(a@, b@);
    }

    proof fn lemma_trans(&self, a: String, b: String, c: String) {
        lemma_lex_le_transitive(a@, b@, c@);
    }

    fn le_exec(&self, a: &String, b: &String) -> (r: bool) {
        let x = chars_of(a.as_str());
        let y = chars_of(b.as_str());
        chars_lt(&x, &y) || *a == *b
    }
}

/// Index of the first string with text `t`, if any.
fn find_text(v: &Vec<String>, t: &String) -> (r: Option<usize>)
    ensures
        r matches Some(i) ==> i < v@.len() && v@[i as int]@ == t@,
        r is None ==> !texts(v@).contains(t@),
{
    let mut i: usize = 0;
    while i < v.len()
        invariant
            i <= v@.len(),
            forall|k: int| 0 <= k < i ==> (#[trigger] v@[k])@ != t@,
        decreases v@.len() - i,
    {
        if v[i] == *t {
            return Some(i);
        }
        i += 1;
    }
    proof {
        if texts(v@).contains(t@) {
            let k = choose|k: int| 0 <= k < texts(v@).len() && texts(v@)[k] == t@;
            assert(v@[k]@ == t@);
        }
    }
    None
}

/// Esc: multi-select is left with nothing checked; the cursor stays.
pub open spec fn multiselect_cleared(old: Multiselect, new: Multiselect) -> bool {
    &&& !new.active
    &&& new.selected@.len() == 0
    &&& new.cursor == old.cursor
}

/// Ctrl+Space in `mode`: consumed in Snapshot and Lenses with the contents
/// focused; leaves multi-select (nothing checked) or enters it with the cursor
/// row checked.
pub open spec fn toggle_mode_post(old: Multiselect, mode: MainMode, middle_focused: bool, new: Multiselect, r: bool) -> bool {
    &&& r == ((mode == MainMode::Snapshot || mode == MainMode::Lenses) && middle_focused)
    &&& distinct_texts(new.selected@)
    &&& new.cursor == old.cursor
    &&& !r ==> new == old
    &&& r && old.active ==> !new.active && new.selected@.len() == 0
    &&& r && !old.active ==> new.active && selected_set(new) == match old.cursor {
        Some(p) => selected_set(old).insert(p@),
        None => selected_set(old),
    }
}

/// Space: the cursor path is unchecked when checked, checked otherwise.
pub open spec fn toggle_row_post(old: Multiselect, new: Multiselect) -> bool {
    &&& distinct_texts(new.selected@)
    &&& new.active == old.active
    &&& new.cursor == old.cursor
    &&& match old.cursor {
        None => new == old,
        Some(p) => if selected_set(old).contains(p@) {
            selected_set(new) == selected_set(old).remove(p@)
        } else {
            selected_set(new) == selected_set(old).insert(p@)
        },
    }
}

impl Multiselect {
    /// Inactive, nothing checked, no cursor.
    pub fn new() -> (r: Self)
        ensures
            !r.active && r.selected@.len() == 0 && r.cursor is None,
    {
        Multiselect { active: false, selected: Vec::new(), cursor: None }
    }

    /// Leaves multi-select and unchecks everything.
    pub fn clear(&mut self)
        ensures
            multiselect_cleared(*old(self), *final(self)),
    {
        self.active = false;
        self.selected = Vec::new();
    }

    /// Multi-select exists in Snapshot and Lenses only.
    pub fn applies(mode: MainMode) -> (r: bool)
        ensures
            r == (mode == MainMode::Snapshot || mode == MainMode::Lenses),
    {
        match mode {
            MainMode::Snapshot | MainMode::Lenses => true,
            _ => false,
        }
    }

    /// Ctrl+Space: enters multi-select (checking the cursor row) or leaves it.
    /// Returns whether the key was consumed.
    pub fn try_toggle_mode(&mut self, mode: MainMode, middle_focused: bool) -> (r: bool)
        requires
            distinct_texts(old(self).selected@),
        ensures
            toggle_mode_post(*old(self), mode, middle_focused, *final(self), r),
    {
        if !Self::applies(mode) || !middle_focused {
            return false;
        }
        if !self.active {
            self.active = true;
            let cur = self.cursor.clone();
            match cur {
                Some(p) => {
                    self.insert_text(p);
                },
                None => {},
            }
        } else {
            self.clear();
        }
        true
    }

    /// Adds `p` unless its text is already checked.
    fn insert_text(&mut self, p: String)
        requires
            distinct_texts(old(self).selected@),
        ensures
            distinct_texts(final(self).selected@),
            selected_set(*final(self)) == selected_set(*old(self)).insert(p@),
            final(self).active == old(self).active,
            final(self).cursor == old(self).cursor,
    {
        match find_text(&self.selected, &p) {
            Some(i) => {
                assert(texts(self.selected@)[i as int] == p@);
                assert(texts(self.selected@).contains(p@));
                assert(selected_set(*self).insert(p@) =~= selected_set(*self));
            },
            None => {
                let ghost before = self.selected@;
                assert forall|k: int| 0 <= k < before.len() implies (#[trigger] before[k])@ != p@ by {
                    assert(texts(before)[k] == before[k]@);
                }
                self.selected.push(p);
                assert(texts(self.selected@) =~= texts(before).push(p@));
                assert(texts(before).push(p@).to_set() =~= texts(before).to_set().insert(p@)) by {
                    vstd::seq_lib::lemma_seq_contains_after_push(texts(before), p@, p@);
                    assert forall|x: Seq<char>| texts(before).push(p@).to_set().contains(x) <==> texts(
                        before,
                    ).to_set().insert(p@).contains(x) by {
                        if texts(before).push(p@).contains(x) && x != p@ {
                            let k = choose|k: int| 0 <= k < texts(before).push(p@).len() && texts(before).push(p@)[k] == x;
                            assert(texts(before)[k] == x);
                        }
                        if texts(before).contains(x) {
                            let k = choose|k: int| 0 <= k < texts(before).len() && texts(before)[k] == x;
                            assert(texts(before).push(p@)[k] == x);
                        }
                        if x == p@ {
                            assert(texts(before).push(p@)[texts(before).len() as int] == x);
                        }
                    }
                }
            },
        }
    }

    /// Space while active: toggles the cursor path.
    pub fn toggle_row(&mut self)
        requires
            distinct_texts(old(self).selected@),
        ensures
            toggle_row_post(*old(self), *final(self)),
    {
        let p = match &self.cursor {
            Some(p) => p.clone(),
            None => {
                return;
            },
        };
        match find_text(&self.selected, &p) {
            Some(i) => {
                let ghost before = self.selected@;
                assert(texts(before).contains(p@)) by {
                    assert(texts(before)[i as int] == p@);
                }
                self.selected.remove(i);
                proof {
                    assert(self.selected@ =~= before.remove(i as int));
                    assert forall|x: Seq<char>| #![auto] texts(self.selected@).to_set().contains(x) <==> texts(
                        before,
                    ).to_set().remove(p@).contains(x) by {
                        if texts(self.selected@).contains(x) {
                            let k = choose|k: int| 0 <= k < texts(self.selected@).len() && texts(self.selected@)[k] == x;
                            if k < i {
                                assert(texts(before)[k] == x);
                                assert(x != p@);
                            } else {
                                assert(texts(before)[k + 1] == x);
                                assert(x != p@);
                            }
                        }
                        if texts(before).contains(x) && x != p@ {
                            let k = choose|k: int| 0 <= k < texts(before).len() && texts(before)[k] == x;
                            if k < i {
                                assert(texts(self.selected@)[k] == x);
                            } else {
                                assert(k != i);
                                assert(texts(self.selected@)[k - 1] == x);
                            }
                        }
                    }
                    assert(texts(self.selected@).to_set() =~= texts(before).to_set().remove(p@));
                }
            },
            None => {
                self.insert_text(p);
            },
        }
    }

    /// Whether `path` is checked (only while active).
    pub fn is_checked(&self, path: &String) -> (r: bool)
        ensures
            r == (self.active && selected_set(*self).contains(path@)),
    {
        if !self.active {
            return false;
        }
        match find_text(&self.selected, path) {
            Some(i) => {
                assert(texts(self.selected@)[i as int] == path@);
                true
            },
            None => false,
        }
    }

    /// Number of checked rows (zero when inactive).
    pub fn count(&self) -> (r: usize)
        ensures
            r == (if self.active { self.selected@.len() } else { 0 }),
    {
        if self.active {
            self.selected.len()
        } else {
            0
        }
    }

    /// The checked paths, sorted, for bulk menus.
    pub fn bulk_paths(&self) -> (r: Vec<String>)
        ensures
            r@.to_multiset() == self.selected@.to_multiset(),
            sorted_by(&TextOrder, r@),
    {
        let v = crate::menu::clone_strings(&self.selected);
        insertion_sort(v, &TextOrder)
    }
}

/// Toggling the same row twice restores the checked set.
pub proof fn law_toggle_row_twice(before: Set<Seq<char>>, mid: Set<Seq<char>>, after: Set<Seq<char>>, p: Seq<char>)
    requires
        before.contains(p) ==> mid == before.remove(p),
        !before.contains(p) ==> mid == before.insert(p),
        mid.contains(p) ==> after == mid.remove(p),
        !mid.contains(p) ==> after == mid.insert(p),
    ensures
        after == before,
{
    if before.contains(p) {
        assert(before.remove(p).insert(p) =~= before);
    } else {
        assert(before.insert(p).remove(p) =~= before);
    }
}

// ---------------------------------------------------------------------------
// Scoped refresh
// ---------------------------------------------------------------------------

/// Which shared catalog payloads a mutation invalidated (bit set).
#[derive(Clone, Copy, Debug, PartialEq, Eq, Structural)]
pub struct CatalogScope(pub u8);

impl CatalogScope {
    /// Nothing changed: toast only.
    pub fn none() -> (r: Self)
        ensures
            r.0 == 0,
    {
        CatalogScope(0)
    }

    /// `/entries` and `/categories`.
    pub fn entries() -> (r: Self)
        ensures
            r.0 == 1,
    {
        CatalogScope(1)
    }

    /// `/lenses` names plus per-lens members.
    pub fn lenses() -> (r: Self)
        ensures
            r.0 == 2,
    {
        CatalogScope(2)
    }

    /// `/duplicates`.
    pub fn duplicates() -> (r: Self)
        ensures
            r.0 == 4,
    {
        CatalogScope(4)
    }

    /// `/delta`.
    pub fn delta() -> (r: Self)
        ensures
            r.0 == 8,
    {
        CatalogScope(8)
    }

    /// Every payload: snapshots, root switches and path mutations.
    pub fn all() -> (r: Self)
        ensures
            r.0 == 15,
    {
        CatalogScope(15)
    }

    /// The scopes of both.
    pub fn union(self, other: Self) -> (r: Self)
        ensures
            r.0 == self.0 | other.0,
    {
        CatalogScope(self.0 | other.0)
    }

    /// Some payload is in both scopes.
    pub fn overlaps(self, other: Self) -> (r: bool)
        ensures
            r == (self.0 & other.0 != 0),
    {
        self.0 & other.0 != 0
    }
}

/// Generations of the four catalog payloads; resources refetch when theirs moves.
pub struct CatalogRefresh {
    pub entries: u32,
    pub lenses: u32,
    pub duplicates: u32,
    pub delta: u32,
}

/// `g + 1`, wrapping.
pub open spec fn wrap_inc(g: u32) -> u32 {
    if g == u32::MAX {
        0
    } else {
        (g + 1) as u32
    }
}

/// `g` bumped when `bit` is in `scope`.
pub open spec fn bumped(g: u32, scope: u8, bit: u8) -> u32 {
    if scope & bit != 0 {
        wrap_inc(g)
    } else {
        g
    }
}

/// `a + b`, wrapping.
pub open spec fn wrap_add(a: u32, b: u32) -> u32 {
    ((a as int + b as int) % 0x1_0000_0000) as u32
}

/// Wrapping sum of the generations in `scope`.
pub open spec fn tick_spec(r: CatalogRefresh, scope: u8) -> u32 {
    wrap_add(
        wrap_add(
            wrap_add(
                if scope & 1 != 0 { r.entries } else { 0 },
                if scope & 2 != 0 { r.lenses } else { 0 },
            ),
            if scope & 4 != 0 { r.duplicates } else { 0 },
        ),
        if scope & 8 != 0 { r.delta } else { 0 },
    )
}

fn wrapping_inc(g: u32) -> (r: u32)
    ensures
        r == wrap_inc(g),
{
    if g == u32::MAX {
        0
    } else {
        g + 1
    }
}

fn wrapping_add(a: u32, b: u32) -> (r: u32)
    ensures
        r == wrap_add(a, b),
{
    let s: u64 = a as u64 + b as u64;
    if s >= 0x1_0000_0000 {
        (s - 0x1_0000_0000) as u32
    } else {
        s as u32
    }
}

impl CatalogRefresh {
    /// All generations at zero.
    pub fn new() -> (r: Self)
        ensures
            r.entries == 0 && r.lenses == 0 && r.duplicates == 0 && r.delta == 0,
    {
        CatalogRefresh { entries: 0, lenses: 0, duplicates: 0, delta: 0 }
    }

    /// Invalidates the payloads in `scope`.
    pub fn bump(&mut self, scope: CatalogScope)
        ensures
            final(self).entries == bumped(old(self).entries, scope.0, 1),
            final(self).lenses == bumped(old(self).lenses, scope.0, 2),
            final(self).duplicates == bumped(old(self).duplicates, scope.0, 4),
            final(self).delta == bumped(old(self).delta, scope.0, 8),
    {
        if scope.overlaps(CatalogScope::entries()) {
            self.entries = wrapping_inc(self.entries);
        }
        if scope.overlaps(CatalogScope::lenses()) {
            self.lenses = wrapping_inc(self.lenses);
        }
        if scope.overlaps(CatalogScope::duplicates()) {
            self.duplicates = wrapping_inc(self.duplicates);
        }
        if scope.overlaps(CatalogScope::delta()) {
            self.delta = wrapping_inc(self.delta);
        }
    }

    /// The generation of `scope` (wrapping sum over its payloads).
    pub fn tick(&self, scope: CatalogScope) -> (r: u32)
        ensures
            r == tick_spec(*self, scope.0),
    {
        let mut acc: u32 = 0;
        if scope.overlaps(CatalogScope::entries()) {
            acc = wrapping_add(acc, self.entries);
        } else {
            acc = wrapping_add(acc, 0);
        }
        let mut b: u32 = 0;
        if scope.overlaps(CatalogScope::lenses()) {
            b = self.lenses;
        }
        acc = wrapping_add(acc, b);
        let mut c: u32 = 0;
        if scope.overlaps(CatalogScope::duplicates()) {
            c = self.duplicates;
        }
        acc = wrapping_add(acc, c);
        let mut d: u32 = 0;
        if scope.overlaps(CatalogScope::delta()) {
            d = self.delta;
        }
        acc = wrapping_add(acc, d);
        proof {
            assert(wrap_add(0, if scope.0 & 1 != 0 { self.entries } else { 0 }) == (if scope.0 & 1 != 0 { self.entries } else { 0 }));
        }
        acc
    }
}

/// A single payload's generation moves by exactly one when its bit is
/// bumped, and not at all otherwise.
pub proof fn law_bump_moves_only_its_scope(r: CatalogRefresh, t: CatalogRefresh, scope: u8)
    requires
        t.entries == bumped(r.entries, scope, 1),
        t.lenses == bumped(r.lenses, scope, 2),
        t.duplicates == bumped(r.duplicates, scope, 4),
        t.delta == bumped(r.delta, scope, 8),
    ensures
        tick_spec(t, 1) == (if scope & 1 != 0 { wrap_inc(tick_spec(r, 1)) } else { tick_spec(r, 1) }),
        tick_spec(t, 2) == (if scope & 2 != 0 { wrap_inc(tick_spec(r, 2)) } else { tick_spec(r, 2) }),
        tick_spec(t, 4) == (if scope & 4 != 0 { wrap_inc(tick_spec(r, 4)) } else { tick_spec(r, 4) }),
        tick_spec(t, 8) == (if scope & 8 != 0 { wrap_inc(tick_spec(r, 8)) } else { tick_spec(r, 8) }),
{
    assert(1u8 & 1 != 0 && 1u8 & 2 == 0 && 1u8 & 4 == 0 && 1u8 & 8 == 0) by (bit_vector);
    assert(2u8 & 1 == 0 && 2u8 & 2 != 0 && 2u8 & 4 == 0 && 2u8 & 8 == 0) by (bit_vector);
    assert(4u8 & 1 == 0 && 4u8 & 2 == 0 && 4u8 & 4 != 0 && 4u8 & 8 == 0) by (bit_vector);
    assert(8u8 & 1 == 0 && 8u8 & 2 == 0 && 8u8 & 4 == 0 && 8u8 & 8 != 0) by (bit_vector);
}

/// A combined scope overlaps exactly what either part overlaps; the full
/// scope overlaps every payload and the empty one none.
pub proof fn law_scope_union_overlaps(a: u8, b: u8, c: u8)
    ensures
        ((a | b) & c != 0) == ((a & c != 0) || (b & c != 0)),
        (15u8 & 1 != 0) && (15u8 & 2 != 0) && (15u8 & 4 != 0) && (15u8 & 8 != 0),
        0u8 & c == 0,
{
    assert(((a | b) & c != 0) == ((a & c != 0) || (b & c != 0))) by (bit_vector);
    assert((15u8 & 1 != 0) && (15u8 & 2 != 0) && (15u8 & 4 != 0) && (15u8 & 8 != 0)) by (bit_vector);
    assert(0u8 & c == 0) by (bit_vector);
}

} // verus!

verus! {

// ---------------------------------------------------------------------------
// Help overlay
// ---------------------------------------------------------------------------

/// Key hint of the digit row shown in some help sections.
pub const DIGIT_ROW_KEY: &'static str = "1 2 7 8 9";

/// Description of the digit row.
pub const DIGIT_ROW_DESC: &'static str = "Jump to Main Tab when that tab is visible.";

/// Footnote under every help table.
pub const FOOTNOTE: &'static str = "Only bindings that work in the web UI are listed. Find and menus land in later PRs.";

/// Bindings shared by the browsing modes.
pub open spec fn general_browser_spec() -> Seq<(Seq<char>, Seq<char>)> {
    seq![
        ("~"@, "Alternate between Main tabs"@),
        ("/"@, "Fuzzy catalog filter; Enter (apply) · Esc (clear)"@),
        ("Tab"@, "Switch left or middle pane focus (categories ↔ contents)"@),
        ("h | l · ← →"@, "Focus Left or Middle pane"@),
        ("j | k · ↑ ↓"@, "Move down / up in focused pane"@),
        ("g | G"@, "Go to top / bottom of focused list"@),
        ("Ctrl+j/k · Ctrl+↑↓"@, "Jump by 10 in focused list"@),
        ("s"@, "Cycle middle-pane sort (Snapshot / Delta / Dupes)"@),
        ("?"@, "Toggle this help"@),
    ]
}

/// Right-pane bindings.
pub open spec fn right_pane_spec() -> Seq<(Seq<char>, Seq<char>)> {
    seq![
        ("v / t / m / w"@, "Viewer / Templates / Metadata / Writing (when available)"@),
        ("Shift+Tab"@, "Cycle right-pane tabs"@),
        ("Shift+J/↓ · Shift+K/↑"@, "Scroll right pane (or PDF: next / previous page)"@),
        ("Shift+B · Shift+E"@, "Jump right pane to top / bottom (or PDF: first / last page)"@),
        ("Shift+S"@, "Viewer find; Enter apply · Shift+S re-edit · n/N next/prev · Esc clear"@),
    ]
}

/// Settings-mode bindings.
pub open spec fn general_settings_spec() -> Seq<(Seq<char>, Seq<char>)> {
    seq![
        ("h | l · ← →"@, "Focus Scope or Options pane"@),
        ("j | k · ↑ ↓"@, "Move in the focused list (Scope / Options)"@),
        ("Tab"@, "Cycle left ↔ middle pane focus"@),
        ("?"@, "Toggle this help"@),
    ]
}

/// One help section: title, rows, and whether the digit row leads it.
pub struct HelpSection {
    pub title: &'static str,
    pub rows: Vec<(&'static str, &'static str)>,
    pub include_digit_row: bool,
}

/// The rows of a section as text pairs.
pub open spec fn section_rows(s: HelpSection) -> Seq<(Seq<char>, Seq<char>)> {
    s.rows@.map_values(|r: (&'static str, &'static str)| (r.0@, r.1@))
}

/// Number of help sections per mode.
pub open spec fn section_count_spec(mode: MainMode) -> nat {
    match mode {
        MainMode::Snapshot | MainMode::Lenses | MainMode::Duplicates => 2,
        MainMode::Delta | MainMode::Settings => 1,
    }
}

fn general_browser() -> (r: Vec<(&'static str, &'static str)>)
    ensures
        r@.map_values(|x: (&'static str, &'static str)| (x.0@, x.1@)) == general_browser_spec(),
{
    let r = vec![
        ("~", "Alternate between Main tabs"),
        ("/", "Fuzzy catalog filter; Enter (apply) · Esc (clear)"),
        ("Tab", "Switch left or middle pane focus (categories ↔ contents)"),
        ("h | l · ← →", "Focus Left or Middle pane"),
        ("j | k · ↑ ↓", "Move down / up in focused pane"),
        ("g | G", "Go to top / bottom of focused list"),
        ("Ctrl+j/k · Ctrl+↑↓", "Jump by 10 in focused list"),
        ("s", "Cycle middle-pane sort (Snapshot / Delta / Dupes)"),
        ("?", "Toggle this help"),
    ];
    assert(r@.map_values(|x: (&'static str, &'static str)| (x.0@, x.1@)) =~= general_browser_spec());
    r
}

fn right_pane() -> (r: Vec<(&'static str, &'static str)>)
    ensures
        r@.map_values(|x: (&'static str, &'static str)| (x.0@, x.1@)) == right_pane_spec(),
{
    let r = vec![
        ("v / t / m / w", "Viewer / Templates / Metadata / Writing (when available)"),
        ("Shift+Tab", "Cycle right-pane tabs"),
        ("Shift+J/↓ · Shift+K/↑", "Scroll right pane (or PDF: next / previous page)"),
        ("Shift+B · Shift+E", "Jump right pane to top / bottom (or PDF: first / last page)"),
        ("Shift+S", "Viewer find; Enter apply · Shift+S re-edit · n/N next/prev · Esc clear"),
    ];
    assert(r@.map_values(|x: (&'static str, &'static str)| (x.0@, x.1@)) =~= right_pane_spec());
    r
}

fn general_settings() -> (r: Vec<(&'static str, &'static str)>)
    ensures
        r@.map_values(|x: (&'static str, &'static str)| (x.0@, x.1@)) == general_settings_spec(),
{
    let r = vec![
        ("h | l · ← →", "Focus Scope or Options pane"),
        ("j | k · ↑ ↓", "Move in the focused list (Scope / Options)"),
        ("Tab", "Cycle left ↔ middle pane focus"),
        ("?", "Toggle this help"),
    ];
    assert(r@.map_values(|x: (&'static str, &'static str)| (x.0@, x.1@)) =~= general_settings_spec());
    r
}

/// The help sections of a mode.
pub fn sections_for(mode: MainMode) -> (r: Vec<HelpSection>)
    ensures
        r@.len() == section_count_spec(mode),
        r@[0].title@ == "General"@,
        r@[0].include_digit_row,
        section_rows(r@[0]) == (if mode == MainMode::Settings {
            general_settings_spec()
        } else {
            general_browser_spec()
        }),
        r@.len() == 2 ==> r@[1].title@ == "Right Pane"@ && !r@[1].include_digit_row && section_rows(
            r@[1],
        ) == right_pane_spec(),
{
    let mut r: Vec<HelpSection> = Vec::new();
    match mode {
        MainMode::Snapshot | MainMode::Lenses | MainMode::Duplicates => {
            r.push(HelpSection { title: "General", rows: general_browser(), include_digit_row: true });
            r.push(HelpSection { title: "Right Pane", rows: right_pane(), include_digit_row: false });
        },
        MainMode::Delta => {
            r.push(HelpSection { title: "General", rows: general_browser(), include_digit_row: true });
        },
        MainMode::Settings => {
            r.push(HelpSection { title: "General", rows: general_settings(), include_digit_row: true });
        },
    }
    r
}

/// One-line description of the current mode at the top of the help.
pub open spec fn context_blurb_spec(mode: MainMode) -> Seq<char> {
    match mode {
        MainMode::Snapshot => "Current Mode: category tree, file list, and right-pane viewer."@,
        MainMode::Delta => "Current Mode: snapshot overview and added / modified / removed lists."@,
        MainMode::Lenses => "Current Mode: lens names, member paths, and right-pane viewer."@,
        MainMode::Duplicates => "Current Mode: duplicate groups, member paths, and right-pane viewer."@,
        MainMode::Settings => "Current Mode: edit Global or Local settings."@,
    }
}

/// The help blurb for a mode.
pub fn context_blurb(mode: MainMode) -> (r: &'static str)
    ensures
        r@ == context_blurb_spec(mode),
{
    match mode {
        MainMode::Snapshot => "Current Mode: category tree, file list, and right-pane viewer.",
        MainMode::Delta => "Current Mode: snapshot overview and added / modified / removed lists.",
        MainMode::Lenses => "Current Mode: lens names, member paths, and right-pane viewer.",
        MainMode::Duplicates => "Current Mode: duplicate groups, member paths, and right-pane viewer.",
        MainMode::Settings => "Current Mode: edit Global or Local settings.",
    }
}

/// Help overlay: visible flag and the shown section.
pub struct HelpOverlay {
    pub visible: bool,
    pub section: usize,
}

impl HelpOverlay {
    /// Hidden, first section.
    pub fn new() -> (r: Self)
        ensures
            !r.visible && r.section == 0,
    {
        HelpOverlay { visible: false, section: 0 }
    }

    /// Shows the help at its first section.
    pub fn open(&mut self)
        ensures
            final(self).visible && final(self).section == 0,
    {
        self.section = 0;
        self.visible = true;
    }

    /// Hides the help (the section is kept).
    pub fn close(&mut self)
        ensures
            *final(self) == (HelpOverlay { visible: false, ..*old(self) }),
    {
        self.visible = false;
    }

    /// `?`: opens or closes the help.
    pub fn toggle(&mut self)
        ensures
            *final(self) == (HelpOverlay {
                visible: !old(self).visible,
                section: if old(self).visible { old(self).section } else { 0 },
            }),
    {
        if self.visible {
            self.close();
        } else {
            self.open();
        }
    }

    /// Tab / arrows in the help: the next or previous section, wrapping.
    pub fn cycle_section(&mut self, mode: MainMode, delta: i32)
        ensures
            final(self).section < section_count_spec(mode),
            *final(self) == (HelpOverlay {
                section: ((old(self).section as int + delta as int) % (section_count_spec(mode) as int)) as usize,
                ..*old(self)
            }),
    {
        let n: usize = match mode {
            MainMode::Snapshot | MainMode::Lenses | MainMode::Duplicates => 2,
            MainMode::Delta | MainMode::Settings => 1,
        };
        self.section = crate::command::wrap_index(self.section, delta, n);
    }
}

/// The section actually shown: the stored one, capped to the mode's last section.
pub fn shown_section(section: usize, mode: MainMode) -> (r: usize)
    ensures
        r == (if section < section_count_spec(mode) { section } else { (section_count_spec(mode) - 1) as usize }),
{
    let n: usize = match mode {
        MainMode::Snapshot | MainMode::Lenses | MainMode::Duplicates => 2,
        MainMode::Delta | MainMode::Settings => 1,
    };
    if section < n {
        section
    } else {
        n - 1
    }
}

/// Cycling the help forward and back returns to the same section.
pub proof fn law_help_cycle_round_trip(s: int, n: int)
    requires
        0 <= s < n,
    ensures
        ((s + 1) % n + -1) % n == s,
{
    vstd::arithmetic::div_mod::lemma_mod_bound(s + 1, n);
    if s + 1 < n {
        vstd::arithmetic::div_mod::lemma_small_mod((s + 1) as nat, n as nat);
        vstd::arithmetic::div_mod::lemma_small_mod(s as nat, n as nat);
    } else {
        vstd::arithmetic::div_mod::lemma_mod_self_0(n);
        vstd::arithmetic::div_mod::lemma_mod_add_multiples_vanish(-1, n);
        vstd::arithmetic::div_mod::lemma_small_mod((n - 1) as nat, n as nat);
    }
}

// ---------------------------------------------------------------------------
// Catalog search and viewer find
// ---------------------------------------------------------------------------

/// Catalog search (`/`): the typed query and whether the input is focused.
pub struct CatalogSearch {
    pub query: String,
    pub active: bool,
}

impl CatalogSearch {
    /// Empty and idle.
    pub fn new() -> (r: Self)
        ensures
            r.query@.len() == 0 && !r.active,
    {
        CatalogSearch { query: String::new(), active: false }
    }

    /// Esc: drops the query and leaves the input.
    pub fn clear(&mut self)
        ensures
            final(self).query@.len() == 0 && !final(self).active,
    {
        self.query = String::new();
        self.active = false;
    }

    /// Enter: leaves the input, keeping the query.
    pub fn submit(&mut self)
        ensures
            *final(self) == (CatalogSearch { active: false, ..*old(self) }),
    {
        self.active = false;
    }

    /// `/`: focuses the input.
    pub fn start(&mut self)
        ensures
            *final(self) == (CatalogSearch { active: true, ..*old(self) }),
    {
        self.active = true;
    }

    /// The query used by filters (trimmed).
    pub fn trimmed(&self) -> (r: String)
        ensures
            r@ == trim_spec(self.query@),
    {
        trim_str(self.query.as_str())
    }

    /// The search strip shows while typing or while a query remains.
    pub fn strip_visible(&self) -> (r: bool)
        ensures
            r == (self.active || trim_spec(self.query@).len() > 0),
    {
        if self.active {
            return true;
        }
        let t = trim_str(self.query.as_str());
        !t.as_str().is_empty()
    }
}

/// Viewer find (Shift+S): query, typing / committed flags, and the current
/// hit among `total` highlighted hits.
pub struct ViewerFind {
    pub query: String,
    pub active: bool,
    pub committed: bool,
    pub current: usize,
    pub total: usize,
    /// Bumped when the right-pane body remounts so highlights are redone.
    pub content_tick: u32,
}

/// Esc in the find strip: no query, no hits, neither typing nor committed.
pub open spec fn find_cleared(old: ViewerFind, new: ViewerFind) -> bool {
    &&& new.query@.len() == 0
    &&& !new.active && !new.committed
    &&& new.current == 0 && new.total == 0
    &&& new.content_tick == old.content_tick
}

/// The hit after `current` among `total`, wrapping (unchanged without hits).
pub open spec fn next_hit(current: usize, total: usize) -> usize {
    if total == 0 {
        current
    } else {
        ((current as int + 1) % (total as int)) as usize
    }
}

/// The hit before `current` among `total`: from the first, the last
/// (unchanged without hits).
pub open spec fn prev_hit(current: usize, total: usize) -> usize {
    if total == 0 {
        current
    } else if current == 0 {
        (total - 1) as usize
    } else {
        (current - 1) as usize
    }
}

impl ViewerFind {
    /// Empty and idle.
    pub fn new() -> (r: Self)
        ensures
            r.query@.len() == 0 && !r.active && !r.committed && r.current == 0 && r.total == 0
                && r.content_tick == 0,
    {
        ViewerFind { query: String::new(), active: false, committed: false, current: 0, total: 0, content_tick: 0 }
    }

    /// The right-pane body changed.
    pub fn bump_content(&mut self)
        ensures
            final(self).content_tick == wrap_inc(old(self).content_tick),
            final(self).query == old(self).query,
            final(self).active == old(self).active && final(self).committed == old(self).committed,
            final(self).current == old(self).current && final(self).total == old(self).total,
    {
        self.content_tick = wrapping_inc(self.content_tick);
    }

    /// Shift+S: typing.
    pub fn start(&mut self)
        ensures
            *final(self) == (ViewerFind { active: true, committed: false, ..*old(self) }),
    {
        self.active = true;
        self.committed = false;
    }

    /// Enter: commits the query.
    pub fn submit(&mut self)
        ensures
            *final(self) == (ViewerFind { active: false, committed: true, ..*old(self) }),
    {
        self.active = false;
        self.committed = true;
    }

    /// Esc: forgets the query and the hits.
    pub fn clear(&mut self)
        ensures
            find_cleared(*old(self), *final(self)),
    {
        self.query = String::new();
        self.active = false;
        self.committed = false;
        self.current = 0;
        self.total = 0;
    }

    /// `n`: the next hit, wrapping.
    pub fn next(&mut self)
        ensures
            *final(self) == (ViewerFind { current: next_hit(old(self).current, old(self).total), ..*old(self) }),
    {
        let n = self.total;
        if n == 0 {
            return;
        }
        self.current = crate::command::wrap_index(self.current, 1, n);
    }

    /// `N`: the previous hit (from the first, the last).
    pub fn prev(&mut self)
        ensures
            *final(self) == (ViewerFind { current: prev_hit(old(self).current, old(self).total), ..*old(self) }),
    {
        let n = self.total;
        if n == 0 {
            return;
        }
        self.current = if self.current == 0 { n - 1 } else { self.current - 1 };
    }

    /// Typing in the strip: the new query, counted from the first hit.
    pub fn set_query(&mut self, q: String)
        ensures
            *final(self) == (ViewerFind { query: q, current: 0, ..*old(self) }),
    {
        self.query = q;
        self.current = 0;
    }

    /// The input loses focus: typing ends, and a non-empty query stays
    /// committed; nothing changes when it was not typing.
    pub fn blur(&mut self)
        ensures
            !old(self).active ==> *final(self) == *old(self),
            old(self).active ==> *final(self) == (ViewerFind {
                active: false,
                committed: old(self).committed || trim_spec(old(self).query@).len() > 0,
                ..*old(self)
            }),
    {
        if self.active {
            self.active = false;
            let t = trim_str(self.query.as_str());
            if !t.as_str().is_empty() {
                self.committed = true;
            }
        }
    }

    /// The find strip shows while typing, after Enter, or with a query.
    pub fn strip_visible(&self) -> (r: bool)
        ensures
            r == (self.active || self.committed || trim_spec(self.query@).len() > 0),
    {
        if self.active || self.committed {
            return true;
        }
        let t = trim_str(self.query.as_str());
        !t.as_str().is_empty()
    }

    /// Highlights are drawn while typing or committed with a non-empty query.
    pub fn affects_view(&self) -> (r: bool)
        ensures
            r == ((self.active || self.committed) && trim_spec(self.query@).len() > 0),
    {
        if !(self.active || self.committed) {
            return false;
        }
        let t = trim_str(self.query.as_str());
        !t.as_str().is_empty()
    }
}

/// Index of the hit drawn as current: `current`, capped to the last hit.
pub fn current_hit_index(current: usize, total: usize) -> (r: usize)
    ensures
        r == (if total == 0 { 0 } else if current < total { current } else { (total - 1) as usize }),
{
    if total == 0 {
        0
    } else if current < total {
        current
    } else {
        total - 1
    }
}

} // verus!

verus! {

// ---------------------------------------------------------------------------
// List navigation
// ---------------------------------------------------------------------------

/// Index of the next selection after moving by `delta` over `n` rows:
/// from no selection, the last row when moving up and the first otherwise;
/// from row `i`, `i + delta` clamped to the list.
pub open spec fn step_index_spec(cur: Option<int>, delta: i32, n: int) -> int {
    match cur {
        None => if delta < 0 {
            n - 1
        } else {
            0
        },
        Some(i) => crate::menu::clamp_int(i + delta, 0, n - 1),
    }
}

fn step_index(cur: Option<usize>, delta: i32, n: usize) -> (r: usize)
    requires
        n > 0,
    ensures
        r < n,
        r == step_index_spec(
            match cur {
                Some(i) => Some(i as int),
                None => None,
            },
            delta,
            n as int,
        ),
{
    match cur {
        None => if delta < 0 {
            n - 1
        } else {
            0
        },
        Some(i) => {
            let want: i128 = i as i128 + delta as i128;
            if want < 0 {
                0
            } else if want > (n - 1) as i128 {
                n - 1
            } else {
                want as usize
            }
        },
    }
}

/// j / k over ordered keys: the new selection, or `None` for an empty list
/// (selection unchanged). The current selection is found by its text.
pub fn string_list_step(keys: &Vec<String>, selected: Option<&String>, delta: i32) -> (r: Option<String>)
    ensures
        keys@.len() == 0 ==> r is None,
        keys@.len() > 0 ==> r == Some(keys@[step_index_spec(
            match selected {
                Some(s) => crate::nav::position_spec(texts(keys@), s@),
                None => None,
            },
            delta,
            keys@.len() as int,
        )]),
{
    if keys.len() == 0 {
        return None;
    }
    let ghost ts = texts(keys@);
    let idx: Option<usize> = match selected {
        None => None,
        Some(s) => {
            let mut j: usize = 0;
            while j < keys.len() && keys[j] != *s
                invariant
                    j <= keys@.len(),
                    ts == texts(keys@),
                    forall|k: int| 0 <= k < j ==> ts[k] != s@,
                decreases keys@.len() - j,
            {
                j += 1;
            }
            if j < keys.len() {
                proof {
                    crate::nav::lemma_position_found(ts, s@, j as int);
                }
                Some(j)
            } else {
                proof {
                    crate::nav::lemma_position_absent(ts, s@);
                }
                None
            }
        },
    };
    let next = step_index(idx, delta, keys.len());
    Some(keys[next].clone())
}

/// j / k over ordered ids (duplicate groups).
pub fn id_list_step(ids: &Vec<usize>, selected: Option<usize>, delta: i32) -> (r: Option<usize>)
    ensures
        ids@.len() == 0 ==> r is None,
        ids@.len() > 0 ==> r == Some(ids@[step_index_spec(
            match selected {
                Some(s) => crate::nav::position_spec(ids@, s),
                None => None,
            },
            delta,
            ids@.len() as int,
        )]),
{
    if ids.len() == 0 {
        return None;
    }
    let idx: Option<usize> = match selected {
        None => None,
        Some(s) => {
            let mut j: usize = 0;
            while j < ids.len() && ids[j] != s
                invariant
                    j <= ids@.len(),
                    forall|k: int| 0 <= k < j ==> ids@[k] != s,
                decreases ids@.len() - j,
            {
                j += 1;
            }
            if j < ids.len() {
                proof {
                    crate::nav::lemma_position_found(ids@, s, j as int);
                }
                Some(j)
            } else {
                proof {
                    crate::nav::lemma_position_absent(ids@, s);
                }
                None
            }
        },
    };
    let next = step_index(idx, delta, ids.len());
    Some(ids[next])
}

/// g: the first key, if any.
pub fn list_first(keys: &Vec<String>) -> (r: Option<String>)
    ensures
        keys@.len() == 0 ==> r is None,
        keys@.len() > 0 ==> r == Some(keys@[0]),
{
    if keys.len() == 0 {
        None
    } else {
        Some(keys[0].clone())
    }
}

/// G: the last key, if any.
pub fn list_last(keys: &Vec<String>) -> (r: Option<String>)
    ensures
        keys@.len() == 0 ==> r is None,
        keys@.len() > 0 ==> r == Some(keys@.last()),
{
    if keys.len() == 0 {
        None
    } else {
        Some(keys[keys.len() - 1].clone())
    }
}

/// Stepping always lands on a row of the list.
pub proof fn law_step_stays_in_list(cur: Option<int>, delta: i32, n: int)
    requires
        n > 0,
        cur matches Some(i) ==> 0 <= i < n,
    ensures
        0 <= step_index_spec(cur, delta, n) < n,
{
}

/// A step moves the selection by exactly `delta` rows when that stays in
/// the list, and stops at the first or last row otherwise; from no selection
/// a step down starts at the first row and a step up at the last. So j / k
/// from an inner row land on its neighbours.
pub proof fn law_step_moves_by_delta(i: int, delta: i32, n: int)
    requires
        0 <= i < n,
    ensures
        0 <= i + delta < n ==> step_index_spec(Some(i), delta, n) == i + delta,
        i + delta >= n ==> step_index_spec(Some(i), delta, n) == n - 1,
        i + delta < 0 ==> step_index_spec(Some(i), delta, n) == 0,
        i + 1 < n ==> step_index_spec(Some(i), 1, n) == i + 1,
        i > 0 ==> step_index_spec(Some(i), -1i32, n) == i - 1,
        delta < 0 ==> step_index_spec(None, delta, n) == n - 1,
        delta >= 0 ==> step_index_spec(None, delta, n) == 0,
{
}

/// j on a listed key selects the key right after it (or keeps the last);
/// k the one right before it (or keeps the first).
pub proof fn law_list_step_neighbours(keys: Seq<String>, s: Seq<char>, i: int)
    requires
        0 <= i < keys.len(),
        crate::nav::position_spec(texts(keys), s) == Some(i),
    ensures
        keys[step_index_spec(crate::nav::position_spec(texts(keys), s), 1, keys.len() as int)] == keys[if i + 1
            < keys.len() { i + 1 } else { i }],
        keys[step_index_spec(crate::nav::position_spec(texts(keys), s), -1i32, keys.len() as int)] == keys[if i > 0 {
            i - 1
        } else {
            i
        }],
{
}

// ---------------------------------------------------------------------------
// Preview paging
// ---------------------------------------------------------------------------

/// Shift+J / K / B / E while a PDF or a text window is mounted.
#[derive(Clone, Copy, Debug, PartialEq, Eq, Structural)]
pub enum PdfPageNav {
    Next,
    Prev,
    Top,
    Bottom,
}

/// The PDF page after a paging key (pages are 1-based; the count may be unknown).
pub open spec fn pdf_page_after_spec(action: PdfPageNav, page: u32, page_count: Option<u32>) -> int {
    let cur: int = if page < 1 { 1 } else { page as int };
    match action {
        PdfPageNav::Next => {
            let n = if cur + 1 > u32::MAX { u32::MAX as int } else { cur + 1 };
            match page_count {
                Some(m) => {
                    let mx: int = if m < 1 { 1 } else { m as int };
                    if n < mx { n } else { mx }
                },
                None => n,
            }
        },
        PdfPageNav::Prev => if cur - 1 < 1 { 1 } else { cur - 1 },
        PdfPageNav::Top => 1,
        PdfPageNav::Bottom => {
            let b: int = match page_count {
                Some(m) => m as int,
                None => cur,
            };
            if b < 1 { 1 } else { b }
        },
    }
}

/// The page a paging key moves the PDF to (the caller sets it when it differs
/// from the current page, read as at least 1).
pub fn apply_pdf_page_action(action: PdfPageNav, page: u32, page_count: Option<u32>) -> (r: u32)
    ensures
        r == pdf_page_after_spec(action, page, page_count),
        r >= 1,
{
    let cur = if page < 1 { 1 } else { page };
    match action {
        PdfPageNav::Next => {
            let n = if cur == u32::MAX { u32::MAX } else { cur + 1 };
            match page_count {
                Some(m) => {
                    let mx = if m < 1 { 1 } else { m };
                    if n < mx { n } else { mx }
                },
                None => n,
            }
        },
        PdfPageNav::Prev => if cur - 1 < 1 { 1 } else { cur - 1 },
        PdfPageNav::Top => 1,
        PdfPageNav::Bottom => {
            let b = match page_count {
                Some(m) => m,
                None => cur,
            };
            if b < 1 { 1 } else { b }
        },
    }
}

/// Jump to page `n`, clamped to `1..=page_count` (no upper bound when unknown).
pub fn goto_pdf_page(n: u32, page_count: Option<u32>) -> (r: u32)
    ensures
        r == (if n < 1 {
            1
        } else {
            let mx: u32 = match page_count {
                Some(m) => if m < 1 { 1 } else { m },
                None => u32::MAX,
            };
            if n > mx { mx } else { n }
        }),
        r >= 1,
{
    let mx = match page_count {
        Some(m) => if m < 1 { 1 } else { m },
        None => u32::MAX,
    };
    if n < 1 {
        1
    } else if n > mx {
        mx
    } else {
        n
    }
}

/// The window start after a paging key in a byte-windowed text view.
pub open spec fn text_window_after_spec(nav: PdfPageNav, offset: u64, byte_len: u64, total: u64, limit: u64) -> int {
    let lim: int = if limit < 1 { 1 } else { limit as int };
    match nav {
        PdfPageNav::Next => {
            let step: int = if byte_len < 1 { 1 } else { byte_len as int };
            let n = if offset + step > u64::MAX { u64::MAX as int } else { offset + step };
            if n >= total { offset as int } else { n }
        },
        PdfPageNav::Prev => if offset - lim < 0 { 0 } else { offset - lim },
        PdfPageNav::Top => 0,
        PdfPageNav::Bottom => if total - lim < 0 { 0 } else { total - lim },
    }
}

/// Shift+J/K/B/E in a byte-windowed text view: the next window's start.
pub fn text_window_offset(nav: PdfPageNav, offset: u64, byte_len: u64, total: u64, limit: u64) -> (r: u64)
    ensures
        r == text_window_after_spec(nav, offset, byte_len, total, limit),
{
    let lim = if limit < 1 { 1 } else { limit };
    match nav {
        PdfPageNav::Next => {
            let step = if byte_len < 1 { 1 } else { byte_len };
            let n = if offset > u64::MAX - step { u64::MAX } else { offset + step };
            if n >= total { offset } else { n }
        },
        PdfPageNav::Prev => if offset < lim { 0 } else { offset - lim },
        PdfPageNav::Top => 0,
        PdfPageNav::Bottom => if total < lim { 0 } else { total - lim },
    }
}

/// Paging a PDF never leaves `1..=page_count`.
pub proof fn law_pdf_page_in_range(action: PdfPageNav, page: u32, m: u32)
    requires
        m >= 1,
        1 <= page <= m,
    ensures
        1 <= pdf_page_after_spec(action, page, Some(m)) <= m,
{
}

/// A text window never starts past the end once it is inside the file.
pub proof fn law_text_window_in_range(nav: PdfPageNav, offset: u64, byte_len: u64, total: u64, limit: u64)
    requires
        offset <= total,
    ensures
        0 <= text_window_after_spec(nav, offset, byte_len, total, limit) <= total,
{
}

} // verus!
