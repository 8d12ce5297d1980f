//! Middle-pane content sort: the mode-aware sort state and the row sorts it drives.

use vstd::prelude::*;
use vstd::multiset::Multiset;

use crate::nav::MainMode;
use crate::text::{chars_lt, chars_of, lex_le, lex_lt, lemma_lex_lt_total, lemma_lex_lt_transitive, lemma_lex_lt_asymmetric};

verus! {

broadcast use vstd::seq_lib::group_to_multiset_ensures;

// ---------------------------------------------------------------------------
// Generic insertion sort under a total preorder
// ---------------------------------------------------------------------------

/// A total preorder on `T` with an executable comparison.
pub trait Order<T> {
    spec fn le(&self, a: T, b: T) -> bool;

    proof fn lemma_total(&self, a: T, b: T)
        ensures
            self.le(a, b) || self.le(b, a),
    ;

    proof fn lemma_trans(&self, a: T, b: T, c: T)
        requires
            self.le(a, b),
            self.le(b, c),
        ensures
            self.le(a, c),
    ;

    fn le_exec(&self, a: &T, b: &T) -> (r: bool)
        ensures
            r == self.le(*a, *b),
    ;
}

/// Every earlier element is `le` every later one.
pub open spec fn sorted_by<T, O: Order<T>>(o: &O, s: Seq<T>) -> bool {
    forall|i: int, j: int| 0 <= i < j < s.len() ==> o.le(#[trigger] s[i], #[trigger] s[j])
}

proof fn lemma_insert_multiset<T>(s: Seq<T>, i: int, x: T)
    requires
        0 <= i <= s.len(),
    ensures
        s.insert(i, x).to_multiset() =~= s.to_multiset().insert(x),
{
    let t = s.insert(i, x);
    assert(t.remove(i) =~= s);
    assert(t[i] == x);
    assert(t.contains(x));
}

/// The elements of `v`, reordered so that they are sorted by `o`.
pub fn insertion_sort<T, O: Order<T>>(v: Vec<T>, o: &O) -> (r: Vec<T>)
    ensures
        r@.to_multiset() =~= v@.to_multiset(),
        sorted_by(o, r@),
{
    let mut rest = v;
    let mut out: Vec<T> = Vec::new();
    while rest.len() > 0
        invariant
            rest@.to_multiset().add(out@.to_multiset()) =~= v@.to_multiset(),
            sorted_by(o, out@),
        decreases rest@.len(),
    {
        let ghost before_rest = rest@;
        let x = rest.pop().unwrap();
        assert(before_rest =~= rest@.push(x));
        let mut j: usize = 0;
        while j < out.len() && o.le_exec(&out[j], &x)
            invariant
                j <= out@.len(),
                forall|k: int| 0 <= k < j ==> o.le(#[trigger] out@[k], x),
            decreases out@.len() - j,
        {
            j += 1;
        }
        let ghost old_out = out@;
        proof {
            assert forall|k: int| j <= k < old_out.len() implies o.le(x, #[trigger] old_out[k]) by {
                // out[j] is not <= x; neither is anything after it.
                if o.le(old_out[k], x) {
                    if k > j {
                        o.lemma_trans(old_out[j as int], old_out[k], x);
                    }
                }
                o.lemma_total(x, old_out[k]);
            }
            lemma_insert_multiset(old_out, j as int, x);
        }
        out.insert(j, x);
        proof {
            assert forall|a: int, b: int| 0 <= a < b < out@.len() implies o.le(
                #[trigger] out@[a],
                #[trigger] out@[b],
            ) by {
                if a < j && b < j {
                } else if a < j && b == j {
                } else if a < j && b > j {
                    o.lemma_trans(out@[a], x, out@[b]);
                } else if a == j {
                } else {
                    assert(out@[a] == old_out[a - 1]);
                    assert(out@[b] == old_out[b - 1]);
                }
            }
        }
    }
    out
}

/// `v` in reverse order.
pub fn reversed<T>(v: Vec<T>) -> (r: Vec<T>)
    ensures
        r@ =~= v@.reverse(),
{
    let mut rest = v;
    let mut out: Vec<T> = Vec::new();
    let ghost orig = rest@;
    while rest.len() > 0
        invariant
            out@ =~= orig.skip(rest@.len() as int).reverse(),
            rest@ =~= orig.take(rest@.len() as int),
            rest@.len() <= orig.len(),
        decreases rest@.len(),
    {
        let ghost n = rest@.len() as int;
        let x = rest.pop().unwrap();
        out.push(x);
        assert(out@ =~= orig.skip(n - 1).reverse());
        assert(rest@ =~= orig.take(n - 1));
    }
    out
}

proof fn lemma_reverse_sorted<T, O: Order<T>>(o: &O, s: Seq<T>)
    requires
        sorted_by(o, s),
    ensures
        forall|i: int, j: int|
            0 <= i < j < s.len() ==> o.le(#[trigger] s.reverse()[j], #[trigger] s.reverse()[i]),
{
    assert forall|i: int, j: int| 0 <= i < j < s.len() implies o.le(
        #[trigger] s.reverse()[j],
        #[trigger] s.reverse()[i],
    ) by {
        let a = s.len() - 1 - j;
        let b = s.len() - 1 - i;
        assert(s[a] == s.reverse()[j]);
        assert(s[b] == s.reverse()[i]);
    }
}

// ---------------------------------------------------------------------------
// Sort state
// ---------------------------------------------------------------------------

/// Sort direction (↓ ascending, ↑ descending in the footer).
#[derive(Clone, Copy, Debug, PartialEq, Eq, Structural)]
pub enum SortDirection {
    Asc,
    Desc,
}

impl SortDirection {
    /// The other direction.
    pub fn next(self) -> (r: Self)
        ensures
            r != self,
    {
        match self {
            SortDirection::Asc => SortDirection::Desc,
            SortDirection::Desc => SortDirection::Asc,
        }
    }

    /// Footer glyph: ascending shows `↓`, descending `↑`.
    pub fn arrow(self) -> (c: char)
        ensures
            c == (if self == SortDirection::Asc { '\u{2193}' } else { '\u{2191}' }),
    {
        match self {
            SortDirection::Asc => '\u{2193}',
            SortDirection::Desc => '\u{2191}',
        }
    }
}

/// Snapshot / Duplicates sort field.
#[derive(Clone, Copy, Debug, PartialEq, Eq, Structural)]
pub enum SnapshotSortKey {
    Name,
    Size,
    Mod,
}

impl SnapshotSortKey {
    /// Name → Size → Mod → Name.
    pub fn next(self) -> (r: Self)
        ensures
            r == (match self {
                SnapshotSortKey::Name => SnapshotSortKey::Size,
                SnapshotSortKey::Size => SnapshotSortKey::Mod,
                SnapshotSortKey::Mod => SnapshotSortKey::Name,
            }),
    {
        match self {
            SnapshotSortKey::Name => SnapshotSortKey::Size,
            SnapshotSortKey::Size => SnapshotSortKey::Mod,
            SnapshotSortKey::Mod => SnapshotSortKey::Name,
        }
    }

    pub open spec fn label_spec(self) -> Seq<char> {
        match self {
            SnapshotSortKey::Name => "Name"@,
            SnapshotSortKey::Size => "Size"@,
            SnapshotSortKey::Mod => "Mod"@,
        }
    }

    /// Footer label.
    pub fn label(self) -> (s: &'static str)
        ensures
            s@ == self.label_spec(),
    {
        match self {
            SnapshotSortKey::Name => "Name",
            SnapshotSortKey::Size => "Size",
            SnapshotSortKey::Mod => "Mod",
        }
    }
}

/// Mode-aware content sort: one key + direction for Snapshot / Duplicates, one
/// direction for Delta.
#[derive(Clone, Copy, Debug, PartialEq, Eq, Structural)]
pub struct ContentSort {
    pub snapshot_key: SnapshotSortKey,
    pub snapshot_dir: SortDirection,
    pub delta_dir: SortDirection,
}

impl ContentSort {
    /// Name ↓, Delta time ↓.
    pub fn new() -> (r: Self)
        ensures
            r.snapshot_key == SnapshotSortKey::Name,
            r.snapshot_dir == SortDirection::Asc,
            r.delta_dir == SortDirection::Asc,
    {
        ContentSort {
            snapshot_key: SnapshotSortKey::Name,
            snapshot_dir: SortDirection::Asc,
            delta_dir: SortDirection::Asc,
        }
    }

    pub open spec fn cycle_spec(self, mode: MainMode) -> ContentSort {
        match mode {
            MainMode::Snapshot | MainMode::Duplicates => {
                if self.snapshot_dir == SortDirection::Asc {
                    ContentSort { snapshot_dir: SortDirection::Desc, ..self }
                } else {
                    ContentSort {
                        snapshot_key: match self.snapshot_key {
                            SnapshotSortKey::Name => SnapshotSortKey::Size,
                            SnapshotSortKey::Size => SnapshotSortKey::Mod,
                            SnapshotSortKey::Mod => SnapshotSortKey::Name,
                        },
                        snapshot_dir: SortDirection::Asc,
                        ..self
                    }
                }
            },
            MainMode::Delta => ContentSort {
                delta_dir: if self.delta_dir == SortDirection::Asc {
                    SortDirection::Desc
                } else {
                    SortDirection::Asc
                },
                ..self
            },
            MainMode::Lenses | MainMode::Settings => self,
        }
    }

    /// One `s` press: Snapshot / Duplicates go ↓ → ↑ then to the next key ↓;
    /// Delta flips its direction; Lenses / Settings keep everything.
    pub fn cycle_for_mode(self, main_mode: MainMode) -> (r: Self)
        ensures
            r == self.cycle_spec(main_mode),
    {
        match main_mode {
            MainMode::Snapshot | MainMode::Duplicates => {
                if self.snapshot_dir == SortDirection::Asc {
                    ContentSort { snapshot_dir: SortDirection::Desc, ..self }
                } else {
                    ContentSort {
                        snapshot_key: self.snapshot_key.next(),
                        snapshot_dir: SortDirection::Asc,
                        ..self
                    }
                }
            },
            MainMode::Delta => ContentSort { delta_dir: self.delta_dir.next(), ..self },
            MainMode::Lenses | MainMode::Settings => self,
        }
    }

    pub open spec fn node_text_spec(self, mode: MainMode) -> Option<Seq<char>> {
        let arrow = |d: SortDirection|
            if d == SortDirection::Asc {
                '\u{2193}'
            } else {
                '\u{2191}'
            };
        match mode {
            MainMode::Snapshot | MainMode::Duplicates => Some(
                self.snapshot_key.label_spec() + seq![' ', arrow(self.snapshot_dir)],
            ),
            MainMode::Delta => Some("Time "@.push(arrow(self.delta_dir))),
            MainMode::Lenses | MainMode::Settings => None,
        }
    }

    /// Footer sort node text (`Name ↓`, `Time ↑`); `None` for Lenses / Settings.
    pub fn node_text(self, main_mode: MainMode) -> (r: Option<String>)
        ensures
            r matches Some(s) ==> self.node_text_spec(main_mode) == Some(s@),
            r is None <==> self.node_text_spec(main_mode) is None,
    {
        match main_mode {
            MainMode::Snapshot | MainMode::Duplicates => {
                let mut s = self.snapshot_key.label().to_owned();
                let a = self.snapshot_dir.arrow();
                crate::text::string_push(&mut s, ' ');
                crate::text::string_push(&mut s, a);
                assert(s@ =~= self.snapshot_key.label_spec() + seq![' ', a]);
                Some(s)
            },
            MainMode::Delta => {
                let mut s = "Time ".to_owned();
                let a = self.delta_dir.arrow();
                crate::text::string_push(&mut s, a);
                Some(s)
            },
            MainMode::Lenses | MainMode::Settings => None,
        }
    }
}

// ---------------------------------------------------------------------------
// Row sorts
// ---------------------------------------------------------------------------

/// `(key, path)` order: the integer key first, then the path in `str` order.
/// Pressing the sort key six times in Snapshot or Duplicates (three keys, two directions each)
/// comes back to the starting sort, twice in Delta; in Lenses and Settings it changes nothing.
pub proof fn law_content_sort_cycle_period(s: ContentSort)
    ensures
        s.cycle_spec(MainMode::Snapshot).cycle_spec(MainMode::Snapshot).cycle_spec(
            MainMode::Snapshot,
        ).cycle_spec(MainMode::Snapshot).cycle_spec(MainMode::Snapshot).cycle_spec(
            MainMode::Snapshot,
        ) == s,
        s.cycle_spec(MainMode::Duplicates).cycle_spec(MainMode::Duplicates).cycle_spec(
            MainMode::Duplicates,
        ).cycle_spec(MainMode::Duplicates).cycle_spec(MainMode::Duplicates).cycle_spec(
            MainMode::Duplicates,
        ) == s,
        s.cycle_spec(MainMode::Delta).cycle_spec(MainMode::Delta) == s,
        s.cycle_spec(MainMode::Lenses) == s,
        s.cycle_spec(MainMode::Settings) == s,
{
}

pub open spec fn key_path_le(ka: int, pa: Seq<char>, kb: int, pb: Seq<char>) -> bool {
    ka < kb || (ka == kb && lex_le(pa, pb))
}

/// The integer key a snapshot row is ordered by (0 for Name, so only the path counts).
pub open spec fn snapshot_row_key(row: (String, u64, Option<i64>), key: SnapshotSortKey) -> int {
    match key {
        SnapshotSortKey::Name => 0,
        SnapshotSortKey::Size => row.1 as int,
        SnapshotSortKey::Mod => match row.2 {
            Some(m) => m as int,
            None => i64::MIN as int,
        },
    }
}

/// Snapshot row order for one sort key: Name by path; Size by size then path;
/// Mod by modification time (missing = oldest) then path.
pub struct SnapshotRowOrder {
    pub key: SnapshotSortKey,
}

proof fn lemma_key_path_total(ka: int, pa: Seq<char>, kb: int, pb: Seq<char>)
    ensures
        key_path_le(ka, pa, kb, pb) || key_path_le(kb, pb, ka, pa),
{
    lemma_lex_lt_total(pa, pb);
}

proof fn lemma_key_path_trans(
    ka: int,
    pa: Seq<char>,
    kb: int,
    pb: Seq<char>,
    kc: int,
    pc: Seq<char>,
)
    requires
        key_path_le(ka, pa, kb, pb),
        key_path_le(kb, pb, kc, pc),
    ensures
        key_path_le(ka, pa, kc, pc),
{
    if ka == kb && kb == kc {
        crate::text::lemma_lex_le_transitive(pa, pb, pc);
    }
}

fn key_path_le_exec(ka: i128, pa: &String, kb: i128, pb: &String) -> (r: bool)
    ensures
        r == key_path_le(ka as int, pa@, kb as int, pb@),
{
    if ka < kb {
        return true;
    }
    if ka > kb {
        return false;
    }
    let a = chars_of(pa.as_str());
    let b = chars_of(pb.as_str());
    chars_lt(&a, &b) || *pa == *pb
}

impl Order<(String, u64, Option<i64>)> for SnapshotRowOrder {
    open spec fn le(&self, a: (String, u64, Option<i64>), b: (String, u64, Option<i64>)) -> bool {
        key_path_le(
            snapshot_row_key(a, self.key),
            a.0@,
            snapshot_row_key(b, self.key),
            b.0@,
        )
    }

    proof fn lemma_total(&self, a: (String, u64, Option<i64>), b: (String, u64, Option<i64>)) {
        lemma_key_path_total(
            snapshot_row_key(a, self.key),
            a.0@,
            snapshot_row_key(b, self.key),
            b.0@,
        );
    }

    proof fn lemma_trans(
        &self,
        a: (String, u64, Option<i64>),
        b: (String, u64, Option<i64>),
        c: (String, u64, Option<i64>),
    ) {
        lemma_key_path_trans(
            snapshot_row_key(a, self.key),
            a.0@,
            snapshot_row_key(b, self.key),
            b.0@,
            snapshot_row_key(c, self.key),
            c.0@,
        );
    }

    fn le_exec(&self, a: &(String, u64, Option<i64>), b: &(String, u64, Option<i64>)) -> (r: bool) {
        let ka = snapshot_key_exec(a, self.key);
        let kb = snapshot_key_exec(b, self.key);
        key_path_le_exec(ka, &a.0, kb, &b.0)
    }
}

fn snapshot_key_exec(row: &(String, u64, Option<i64>), key: SnapshotSortKey) -> (k: i128)
    ensures
        k == snapshot_row_key(*row, key),
{
    match key {
        SnapshotSortKey::Name => 0,
        SnapshotSortKey::Size => row.1 as i128,
        SnapshotSortKey::Mod => match row.2 {
            Some(m) => m as i128,
            None => i64::MIN as i128,
        },
    }
}

/// Sorts snapshot-style `(path, size, mtime_ns)` rows by the current key, ascending,
/// or descending when the snapshot direction is `Desc`.
pub fn sort_snapshot_rows(rows: &mut Vec<(String, u64, Option<i64>)>, sort: ContentSort)
    ensures
        final(rows)@.to_multiset() =~= old(rows)@.to_multiset(),
        sort.snapshot_dir == SortDirection::Asc ==> sorted_by(
            &SnapshotRowOrder { key: sort.snapshot_key },
            final(rows)@,
        ),
        sort.snapshot_dir == SortDirection::Desc ==> forall|i: int, j: int|
            0 <= i < j < final(rows)@.len() ==> (SnapshotRowOrder {
                key: sort.snapshot_key,
            }).le(#[trigger] final(rows)@[j], #[trigger] final(rows)@[i]),
{
    let o = SnapshotRowOrder { key: sort.snapshot_key };
    let mut v = Vec::new();
    std::mem::swap(&mut v, rows);
    let sorted = insertion_sort(v, &o);
    if sort.snapshot_dir == SortDirection::Desc {
        proof {
            lemma_reverse_sorted(&o, sorted@);
            sorted@.lemma_reverse_to_multiset();
        }
        *rows = reversed(sorted);
    } else {
        *rows = sorted;
    }
}

/// Delta row order: `created_ns`, then path.
pub struct DeltaRowOrder;

impl Order<(i64, String)> for DeltaRowOrder {
    open spec fn le(&self, a: (i64, String), b: (i64, String)) -> bool {
        key_path_le(a.0 as int, a.1@, b.0 as int, b.1@)
    }

    proof fn lemma_total(&self, a: (i64, String), b: (i64, String)) {
        lemma_key_path_total(a.0 as int, a.1@, b.0 as int, b.1@);
    }

    proof fn lemma_trans(&self, a: (i64, String), b: (i64, String), c: (i64, String)) {
        lemma_key_path_trans(a.0 as int, a.1@, b.0 as int, b.1@, c.0 as int, c.1@);
    }

    fn le_exec(&self, a: &(i64, String), b: &(i64, String)) -> (r: bool) {
        key_path_le_exec(a.0 as i128, &a.1, b.0 as i128, &b.1)
    }
}

/// Sorts delta `(created_ns, path)` rows by time then path, reversed when the delta
/// direction is `Desc`.
pub fn sort_delta_rows(rows: &mut Vec<(i64, String)>, sort: ContentSort)
    ensures
        final(rows)@.to_multiset() =~= old(rows)@.to_multiset(),
        sort.delta_dir == SortDirection::Asc ==> sorted_by(&DeltaRowOrder, final(rows)@),
        sort.delta_dir == SortDirection::Desc ==> forall|i: int, j: int|
            0 <= i < j < final(rows)@.len() ==> DeltaRowOrder.le(
                #[trigger] final(rows)@[j],
                #[trigger] final(rows)@[i],
            ),
{
    let o = DeltaRowOrder;
    let mut v = Vec::new();
    std::mem::swap(&mut v, rows);
    let sorted = insertion_sort(v, &o);
    if sort.delta_dir == SortDirection::Desc {
        proof {
            lemma_reverse_sorted(&o, sorted@);
            sorted@.lemma_reverse_to_multiset();
        }
        *rows = reversed(sorted);
    } else {
        *rows = sorted;
    }
}

/// Row orders: under Name only the paths count, whatever the sizes and
/// times; under Size the smaller file comes first, then the path decides;
/// under Mod the older file comes first (a row without a time counts as
/// oldest), then the path decides. Delta rows go by time, then path.
pub proof fn law_row_orders(a: (String, u64, Option<i64>), b: (String, u64, Option<i64>), x: (i64, String), y: (i64, String))
    ensures
        (SnapshotRowOrder { key: SnapshotSortKey::Name }).le(a, b) == lex_le(a.0@, b.0@),
        (SnapshotRowOrder { key: SnapshotSortKey::Size }).le(a, b) == (a.1 < b.1 || (a.1 == b.1 && lex_le(
            a.0@,
            b.0@,
        ))),
        ({
            let ta: int = match a.2 {
                Some(m) => m as int,
                None => i64::MIN as int,
            };
            let tb: int = match b.2 {
                Some(m) => m as int,
                None => i64::MIN as int,
            };
            (SnapshotRowOrder { key: SnapshotSortKey::Mod }).le(a, b) == (ta < tb || (ta == tb && lex_le(
                a.0@,
                b.0@,
            )))
        }),
        DeltaRowOrder.le(x, y) == (x.0 < y.0 || (x.0 == y.0 && lex_le(x.1@, y.1@))),
{
}

/// Sorting by Name puts the rows in path order, ascending or descending,
/// whatever their sizes and times.
pub proof fn law_name_sort_is_path_order(r: Seq<(String, u64, Option<i64>)>, sort: ContentSort)
    requires
        sort.snapshot_key == SnapshotSortKey::Name,
        sort.snapshot_dir == SortDirection::Asc ==> sorted_by(&SnapshotRowOrder { key: sort.snapshot_key }, r),
        sort.snapshot_dir == SortDirection::Desc ==> forall|i: int, j: int|
            0 <= i < j < r.len() ==> (SnapshotRowOrder { key: sort.snapshot_key }).le(
                #[trigger] r[j],
                #[trigger] r[i],
            ),
    ensures
        sort.snapshot_dir == SortDirection::Asc ==> forall|i: int, j: int|
            0 <= i < j < r.len() ==> lex_le((#[trigger] r[i]).0@, (#[trigger] r[j]).0@),
        sort.snapshot_dir == SortDirection::Desc ==> forall|i: int, j: int|
            0 <= i < j < r.len() ==> lex_le((#[trigger] r[j]).0@, (#[trigger] r[i]).0@),
{
}

} // verus!
