//! What each main mode lists, and which selections survive a change of list:
//! the contents of a Snapshot category, lens members, duplicate groups and
//! their members, and the Delta rows of one kind.

use vstd::prelude::*;

use crate::search::{
    filter_paths, filter_snapshot_paths, fuzzy_matches_field, matches_spec, path_rows,
    sorted_paths_of, scored_rows_spec,
};
use crate::sort::{
    sort_delta_rows, sort_snapshot_rows, sorted_by, ContentSort, DeltaRowOrder, Order,
    SnapshotRowOrder, SortDirection,
};
use crate::text::trim_spec;
use crate::api::{rows_for_spec, DeltaCatalog, DeltaKind, DeltaRow};
use crate::viewer::{display_paths_timed, timed_rows_ok, TimedRow};

verus! {

broadcast use vstd::seq_lib::group_to_multiset_ensures;

// ---------------------------------------------------------------------------
// Rows shared by the modes
// ---------------------------------------------------------------------------

/// The fields of a catalog entry that listing and sorting read.
#[derive(Clone, Debug)]
pub struct SlimEntry {
    pub path: String,
    pub category: String,
    pub size: u64,
    pub mtime_ns: Option<i64>,
}

/// A sort row (path, size, modification time).
pub type SortRow = (String, u64, Option<i64>);

/// Middle-pane rows whose label and key are both the path.
pub open spec fn path_pairs(ps: Seq<String>) -> Seq<(String, String)> {
    ps.map_values(|p: String| (p, p))
}

/// The paths of middle-pane rows.
pub open spec fn row_paths(rows: Seq<(String, String)>) -> Seq<String> {
    rows.map_values(|r: (String, String)| r.0)
}

/// `t` is ordered as the Snapshot sort `sort` orders rows (keys ascending, or descending).
pub open spec fn snapshot_order_ok(t: Seq<SortRow>, sort: ContentSort) -> bool {
    let o = SnapshotRowOrder { key: sort.snapshot_key };
    &&& sort.snapshot_dir == SortDirection::Asc ==> sorted_by(&o, t)
    &&& sort.snapshot_dir == SortDirection::Desc ==> forall|i: int, j: int|
        0 <= i < j < t.len() ==> o.le(#[trigger] t[j], #[trigger] t[i])
}

/// `ps` are the paths of `rows` after the Snapshot sort `sort`.
pub open spec fn sorted_row_paths(ps: Seq<String>, rows: Seq<SortRow>, sort: ContentSort) -> bool {
    exists|t: Seq<SortRow>|
        #![trigger t.to_multiset()]
        t.to_multiset() == rows.to_multiset() && snapshot_order_ok(t, sort) && ps == t.map_values(
            |x: SortRow| x.0,
        )
}

/// Sorts `rows` by `sort` and lists their paths as middle-pane rows.
fn sorted_path_rows(rows: Vec<SortRow>, sort: ContentSort) -> (r: Vec<(String, String)>)
    ensures
        r@ == path_pairs(row_paths(r@)),
        sorted_row_paths(row_paths(r@), rows@, sort),
{
    let mut rows = rows;
    let ghost before = rows@;
    sort_snapshot_rows(&mut rows, sort);
    let ghost t = rows@;
    let mut ps: Vec<String> = Vec::new();
    let mut i: usize = 0;
    while i < rows.len()
        invariant
            i <= rows@.len(),
            rows@ == t,
            ps@ == t.take(i as int).map_values(|x: SortRow| x.0),
        decreases rows@.len() - i,
    {
        ps.push(rows[i].0.clone());
        i += 1;
        assert(ps@ =~= t.take(i as int).map_values(|x: SortRow| x.0));
    }
    assert(t.take(t.len() as int) =~= t);
    let r = path_rows(ps);
    assert(row_paths(r@) =~= t.map_values(|x: SortRow| x.0));
    assert(r@ =~= path_pairs(row_paths(r@)));
    assert(t.to_multiset() == before.to_multiset());
    r
}

/// Turns the paths returned by a filter into middle-pane rows.
fn pairs_of_paths(ps: Vec<String>) -> (r: Vec<(String, String)>)
    ensures
        row_paths(r@) == ps@,
        r@ == path_pairs(ps@),
{
    let ghost v = ps@;
    let r = path_rows(ps);
    assert(row_paths(r@) =~= v);
    assert(r@ =~= path_pairs(v));
    r
}

// ---------------------------------------------------------------------------
// Snapshot
// ---------------------------------------------------------------------------

/// Whether `category` admits an entry of category `c` (`None` admits all).
pub open spec fn in_category(category: Option<Seq<char>>, c: Seq<char>) -> bool {
    category is None || category == Some(c)
}

/// The `(path, category)` pairs of the entries.
pub open spec fn entry_pairs(entries: Seq<SlimEntry>) -> Seq<(String, String)> {
    entries.map_values(|e: SlimEntry| (e.path, e.category))
}

/// The sort rows of the entries in `category`, in catalog order.
pub open spec fn category_rows(entries: Seq<SlimEntry>, category: Option<Seq<char>>) -> Seq<SortRow> {
    entries.filter(|e: SlimEntry| in_category(category, e.category@)).map_values(
        |e: SlimEntry| (e.path, e.size, e.mtime_ns),
    )
}

/// Snapshot contents: with a non-blank query the matching entries of the
/// category by score; otherwise the category's entries in the content sort.
pub fn snapshot_contents(
    entries: &Vec<SlimEntry>,
    category: Option<&str>,
    query: &str,
    sort: ContentSort,
) -> (r: Vec<(String, String)>)
    ensures
        r@ == path_pairs(row_paths(r@)),
        trim_spec(query@).len() != 0 ==> sorted_paths_of(
            row_paths(r@),
            scored_rows_spec(
                entry_pairs(entries@),
                match category {
                    Some(c) => Some(c@),
                    None => None,
                },
                query@,
            ),
        ),
        trim_spec(query@).len() == 0 ==> sorted_row_paths(
            row_paths(r@),
            category_rows(
                entries@,
                match category {
                    Some(c) => Some(c@),
                    None => None,
                },
            ),
            sort,
        ),
{
    let ghost cat: Option<Seq<char>> = match category {
        Some(c) => Some(c@),
        None => None,
    };
    let q = crate::text::trim_str(query);
    if !q.as_str().is_empty() {
        let mut pairs: Vec<(String, String)> = Vec::new();
        let mut i: usize = 0;
        while i < entries.len()
            invariant
                i <= entries@.len(),
                pairs@ == entry_pairs(entries@.take(i as int)),
            decreases entries@.len() - i,
        {
            pairs.push((entries[i].path.clone(), entries[i].category.clone()));
            i += 1;
            assert(pairs@ =~= entry_pairs(entries@.take(i as int)));
        }
        assert(entries@.take(entries@.len() as int) =~= entries@);
        let ps = filter_snapshot_paths(&pairs, category, query);
        return pairs_of_paths(ps);
    }
    let ghost pred = |e: SlimEntry| in_category(cat, e.category@);
    let ghost f = |e: SlimEntry| (e.path, e.size, e.mtime_ns);
    let mut rows: Vec<SortRow> = Vec::new();
    let mut i: usize = 0;
    while i < entries.len()
        invariant
            i <= entries@.len(),
            cat == match category {
                Some(c) => Some(c@),
                None => None::<Seq<char>>,
            },
            pred == (|e: SlimEntry| in_category(cat, e.category@)),
            f == (|e: SlimEntry| (e.path, e.size, e.mtime_ns)),
            rows@ == entries@.take(i as int).filter(pred).map_values(f),
        decreases entries@.len() - i,
    {
        proof {
            reveal_with_fuel(Seq::<_>::filter, 1);
            assert(entries@.take(i + 1).drop_last() =~= entries@.take(i as int));
        }
        let e = &entries[i];
        let keep = match category {
            Some(c) => crate::text::str_eq(e.category.as_str(), c),
            None => true,
        };
        if keep {
            rows.push((e.path.clone(), e.size, e.mtime_ns));
            proof {
                let s = entries@.take(i as int).filter(pred);
                assert(s.push(entries@[i as int]).map_values(f) =~= s.map_values(f).push(f(entries@[i as int])));
            }
        }
        i += 1;
        assert(rows@ =~= entries@.take(i as int).filter(pred).map_values(f));
    }
    assert(entries@.take(entries@.len() as int) =~= entries@);
    sorted_path_rows(rows, sort)
}

// ---------------------------------------------------------------------------
// Selections that follow their lists
// ---------------------------------------------------------------------------

/// Left-pane keys of Snapshot: the empty key (All), then the visible categories.
pub fn category_keys(visible: &Vec<String>) -> (r: Vec<String>)
    ensures
        r@.len() == visible@.len() + 1,
        r@[0]@.len() == 0,
        r@.skip(1) == visible@,
{
    let mut r: Vec<String> = Vec::new();
    r.push(String::new());
    let mut i: usize = 0;
    while i < visible.len()
        invariant
            i <= visible@.len(),
            r@.len() == i + 1,
            r@[0]@.len() == 0,
            r@.skip(1) == visible@.take(i as int),
        decreases visible@.len() - i,
    {
        r.push(visible[i].clone());
        i += 1;
        assert(r@.skip(1) =~= visible@.take(i as int));
    }
    assert(visible@.take(visible@.len() as int) =~= visible@);
    r
}

/// The category a left-pane key stands for: the empty key is All (`None`).
pub fn category_of_key(key: &str) -> (r: Option<String>)
    ensures
        key@.len() == 0 ==> r is None,
        key@.len() > 0 ==> (r matches Some(c) && c@ == key@),
{
    if key.is_empty() {
        None
    } else {
        let mut c = String::new();
        crate::text::push_all(&mut c, key);
        Some(c)
    }
}

/// A string of `v` with text `x`.
pub open spec fn listed(v: Seq<String>, x: Seq<char>) -> bool {
    exists|k: int| 0 <= k < v.len() && (#[trigger] v[k])@ == x
}

/// Index of the first string of `v` with the text of `x`.
fn find_listed(v: &Vec<String>, x: &str) -> (r: Option<usize>)
    ensures
        r matches Some(i) ==> i < v@.len() && v@[i as int]@ == x@,
        r is None ==> !listed(v@, x@),
{
    let mut i: usize = 0;
    while i < v.len()
        invariant
            i <= v@.len(),
            forall|k: int| 0 <= k < i ==> (#[trigger] v@[k])@ != x@,
        decreases v@.len() - i,
    {
        if crate::text::str_eq(v[i].as_str(), x) {
            return Some(i);
        }
        i += 1;
    }
    None
}

/// Whether the selected category stays selected: a non-blank query that hides
/// it drops it (and with it the selected path).
pub fn keeps_category(selected: Option<&str>, query: &str, visible: &Vec<String>) -> (r: bool)
    ensures
        r == !(selected matches Some(s) && trim_spec(query@).len() > 0 && !listed(visible@, s@)),
{
    match selected {
        None => true,
        Some(s) => {
            let q = crate::text::trim_str(query);
            if q.as_str().is_empty() {
                return true;
            }
            find_listed(visible, s).is_some()
        },
    }
}

/// Some row of `rows` has key `key`.
pub open spec fn keyed(rows: Seq<(String, String)>, key: Seq<char>) -> bool {
    exists|k: int| 0 <= k < rows.len() && (#[trigger] rows[k]).1@ == key
}

/// Whether the selected path is still among the middle-pane rows.
pub fn keeps_path(selected: Option<&str>, rows: &Vec<(String, String)>) -> (r: bool)
    ensures
        r == match selected {
            None => true,
            Some(s) => keyed(rows@, s@),
        },
{
    match selected {
        None => true,
        Some(s) => {
            let mut i: usize = 0;
            while i < rows.len()
                invariant
                    i <= rows@.len(),
                    selected == Some(s),
                    forall|k: int| 0 <= k < i ==> (#[trigger] rows@[k]).1@ != s@,
                decreases rows@.len() - i,
            {
                if crate::text::str_eq(rows[i].1.as_str(), s) {
                    assert((rows@[i as int]).1@ == s@);
                    return true;
                }
                i += 1;
            }
            false
        },
    }
}

/// The lens selected after the visible names change, and whether the selected
/// path is cleared: nothing selected takes the first name; a name no longer
/// listed moves to the first (or none) and clears the path.
pub fn lens_selection(selected: Option<&str>, visible: &Vec<String>) -> (r: (Option<String>, bool))
    ensures
        match selected {
            Some(s) => if listed(visible@, s@) {
                !r.1 && (r.0 matches Some(t) && t@ == s@)
            } else {
                r.1 && r.0 == (if visible@.len() > 0 { Some(visible@[0]) } else { None })
            },
            None => !r.1 && r.0 == (if visible@.len() > 0 { Some(visible@[0]) } else { None }),
        },
{
    let first = if visible.len() > 0 { Some(visible[0].clone()) } else { None };
    match selected {
        None => (first, false),
        Some(s) => {
            if find_listed(visible, s).is_some() {
                let mut t = String::new();
                crate::text::push_all(&mut t, s);
                (Some(t), false)
            } else {
                (first, true)
            }
        },
    }
}

/// Lenses contents: the members of the selected lens, filtered by the query.
pub fn lens_contents(members: &Vec<String>, query: &str) -> (r: Vec<(String, String)>)
    ensures
        r@ == path_pairs(row_paths(r@)),
        trim_spec(query@).len() == 0 ==> row_paths(r@) == members@,
        trim_spec(query@).len() != 0 ==> sorted_paths_of(
            row_paths(r@),
            crate::search::scored_paths_spec(members@, query@),
        ),
{
    pairs_of_paths(filter_paths(members, query))
}

// ---------------------------------------------------------------------------
// Duplicates
// ---------------------------------------------------------------------------

/// One duplicate group: its id, label and member paths.
#[derive(Debug)]
pub struct DuplicateGroup {
    pub id: usize,
    pub label: String,
    pub paths: Vec<String>,
}

/// A group as plain values.
pub open spec fn group_view(g: DuplicateGroup) -> (usize, Seq<char>, Seq<String>) {
    (g.id, g.label@, g.paths@)
}

/// A group stays visible under the query: its label or one of its paths matches
/// (every group does under a blank query).
pub open spec fn group_matches(g: DuplicateGroup, q: Seq<char>) -> bool {
    matches_spec(g.label@, q) || exists|k: int|
        0 <= k < g.paths@.len() && matches_spec((#[trigger] g.paths@[k])@, q)
}

/// A copy of a group.
fn copy_group(g: &DuplicateGroup) -> (r: DuplicateGroup)
    ensures
        group_view(r) == group_view(*g),
{
    DuplicateGroup { id: g.id, label: g.label.clone(), paths: crate::menu::clone_strings(&g.paths) }
}

/// Whether some path of `g` matches the query.
fn any_path_matches(g: &DuplicateGroup, query: &str) -> (r: bool)
    ensures
        r == exists|k: int| 0 <= k < g.paths@.len() && matches_spec((#[trigger] g.paths@[k])@, query@),
{
    let mut i: usize = 0;
    while i < g.paths.len()
        invariant
            i <= g.paths@.len(),
            forall|k: int| 0 <= k < i ==> !matches_spec((#[trigger] g.paths@[k])@, query@),
        decreases g.paths@.len() - i,
    {
        if fuzzy_matches_field(g.paths[i].as_str(), query) {
            assert(matches_spec(g.paths@[i as int]@, query@));
            return true;
        }
        i += 1;
    }
    false
}

/// Duplicate groups left visible by the query, in order.
pub fn visible_groups(groups: &Vec<DuplicateGroup>, query: &str) -> (r: Vec<DuplicateGroup>)
    ensures
        r@.map_values(|g: DuplicateGroup| group_view(g)) == groups@.filter(
            |g: DuplicateGroup| group_matches(g, query@),
        ).map_values(|g: DuplicateGroup| group_view(g)),
{
    let ghost pred = |g: DuplicateGroup| group_matches(g, query@);
    let ghost f = |g: DuplicateGroup| group_view(g);
    let mut r: Vec<DuplicateGroup> = Vec::new();
    let mut i: usize = 0;
    while i < groups.len()
        invariant
            i <= groups@.len(),
            pred == (|g: DuplicateGroup| group_matches(g, query@)),
            f == (|g: DuplicateGroup| group_view(g)),
            r@.map_values(f) == groups@.take(i as int).filter(pred).map_values(f),
        decreases groups@.len() - i,
    {
        proof {
            reveal_with_fuel(Seq::<_>::filter, 1);
            assert(groups@.take(i + 1).drop_last() =~= groups@.take(i as int));
        }
        let g = &groups[i];
        let keep = fuzzy_matches_field(g.label.as_str(), query) || any_path_matches(g, query);
        if keep {
            let ghost before = r@;
            r.push(copy_group(g));
            proof {
                let s = groups@.take(i as int).filter(pred);
                assert(r@.map_values(f) =~= before.map_values(f).push(f(groups@[i as int])));
                assert(s.push(groups@[i as int]).map_values(f) =~= s.map_values(f).push(f(groups@[i as int])));
            }
        }
        i += 1;
    }
    assert(groups@.take(groups@.len() as int) =~= groups@);
    r
}

/// The ids of the groups, in order.
pub fn group_ids(groups: &Vec<DuplicateGroup>) -> (r: Vec<usize>)
    ensures
        r@ == groups@.map_values(|g: DuplicateGroup| g.id),
{
    let mut r: Vec<usize> = Vec::new();
    let mut i: usize = 0;
    while i < groups.len()
        invariant
            i <= groups@.len(),
            r@ == groups@.take(i as int).map_values(|g: DuplicateGroup| g.id),
        decreases groups@.len() - i,
    {
        r.push(groups[i].id);
        i += 1;
        assert(r@ =~= groups@.take(i as int).map_values(|g: DuplicateGroup| g.id));
    }
    assert(groups@.take(groups@.len() as int) =~= groups@);
    r
}

/// The group selected after the visible groups change, and whether the
/// selected path is cleared (as for lenses, by id).
pub fn group_selection(selected: Option<usize>, visible: &Vec<DuplicateGroup>) -> (r: (Option<usize>, bool))
    ensures
        match selected {
            Some(id) => if exists|k: int| 0 <= k < visible@.len() && (#[trigger] visible@[k]).id == id {
                r == (Some(id), false)
            } else {
                r == (if visible@.len() > 0 { Some(visible@[0].id) } else { None::<usize> }, true)
            },
            None => r == (if visible@.len() > 0 { Some(visible@[0].id) } else { None::<usize> }, false),
        },
{
    let first = if visible.len() > 0 { Some(visible[0].id) } else { None };
    match selected {
        None => (first, false),
        Some(id) => {
            let mut i: usize = 0;
            while i < visible.len()
                invariant
                    i <= visible@.len(),
                    selected == Some(id),
                    forall|k: int| 0 <= k < i ==> (#[trigger] visible@[k]).id != id,
                decreases visible@.len() - i,
            {
                if visible[i].id == id {
                    assert(visible@[i as int].id == id);
                    return (Some(id), false);
                }
                i += 1;
            }
            (first, true)
        },
    }
}

/// The paths of the first group with id `id` (none when there is none).
pub open spec fn group_paths(groups: Seq<DuplicateGroup>, id: Option<usize>) -> Seq<String>
    decreases groups.len(),
{
    if groups.len() == 0 {
        Seq::empty()
    } else if Some(groups[0].id) == id {
        groups[0].paths@
    } else {
        group_paths(groups.drop_first(), id)
    }
}

/// The members shown: the selected group's paths not ignored this session.
pub open spec fn member_paths(groups: Seq<DuplicateGroup>, id: Option<usize>, ignored: Seq<String>) -> Seq<String> {
    group_paths(groups, id).filter(|p: String| !listed(ignored, p@))
}

/// Size and modification time of the last entry with path `p`; zero and none
/// when no entry has it.
pub open spec fn meta_of(entries: Seq<SlimEntry>, p: Seq<char>) -> (u64, Option<i64>)
    decreases entries.len(),
{
    if entries.len() == 0 {
        (0, None)
    } else if entries.last().path@ == p {
        (entries.last().size, entries.last().mtime_ns)
    } else {
        meta_of(entries.drop_last(), p)
    }
}

/// Sort rows of member paths, with the catalog's sizes and times.
pub open spec fn member_rows(ps: Seq<String>, entries: Seq<SlimEntry>) -> Seq<SortRow> {
    ps.map_values(|p: String| (p, meta_of(entries, p@).0, meta_of(entries, p@).1))
}

/// The paths of the first group with id `id`.
fn find_group_paths(groups: &Vec<DuplicateGroup>, id: Option<usize>) -> (r: Vec<String>)
    ensures
        r@ == group_paths(groups@, id),
{
    let mut i: usize = 0;
    assert(groups@.skip(0) =~= groups@);
    while i < groups.len()
        invariant
            i <= groups@.len(),
            group_paths(groups@, id) == group_paths(groups@.skip(i as int), id),
        decreases groups@.len() - i,
    {
        assert(groups@.skip(i as int)[0] == groups@[i as int]);
        assert(groups@.skip(i as int).drop_first() =~= groups@.skip(i + 1));
        let hit = match id {
            Some(x) => groups[i].id == x,
            None => false,
        };
        if hit {
            return crate::menu::clone_strings(&groups[i].paths);
        }
        i += 1;
    }
    Vec::new()
}

/// The size and time of the last entry with path `p`.
fn find_meta(entries: &Vec<SlimEntry>, p: &str) -> (r: (u64, Option<i64>))
    ensures
        r == meta_of(entries@, p@),
{
    let mut j: usize = entries.len();
    assert(entries@.take(j as int) =~= entries@);
    while j > 0
        invariant
            j <= entries@.len(),
            meta_of(entries@, p@) == meta_of(entries@.take(j as int), p@),
        decreases j,
    {
        let e = &entries[j - 1];
        assert(entries@.take(j as int).last() == entries@[j - 1]);
        assert(entries@.take(j as int).drop_last() =~= entries@.take(j - 1));
        if crate::text::str_eq(e.path.as_str(), p) {
            return (e.size, e.mtime_ns);
        }
        j -= 1;
    }
    (0, None)
}

/// Duplicates contents: the selected group's members not ignored, filtered by
/// the query (by score), else in the content sort with catalog sizes and times.
pub fn duplicate_contents(
    groups: &Vec<DuplicateGroup>,
    selected: Option<usize>,
    query: &str,
    sort: ContentSort,
    ignored: &Vec<String>,
    entries: &Vec<SlimEntry>,
) -> (r: Vec<(String, String)>)
    ensures
        r@ == path_pairs(row_paths(r@)),
        trim_spec(query@).len() != 0 ==> sorted_paths_of(
            row_paths(r@),
            crate::search::scored_paths_spec(member_paths(groups@, selected, ignored@), query@),
        ),
        trim_spec(query@).len() == 0 ==> sorted_row_paths(
            row_paths(r@),
            member_rows(member_paths(groups@, selected, ignored@), entries@),
            sort,
        ),
{
    let all = find_group_paths(groups, selected);
    let ghost pred = |p: String| !listed(ignored@, p@);
    let mut raw: Vec<String> = Vec::new();
    let mut i: usize = 0;
    while i < all.len()
        invariant
            i <= all@.len(),
            pred == (|p: String| !listed(ignored@, p@)),
            raw@ == all@.take(i as int).filter(pred),
        decreases all@.len() - i,
    {
        proof {
            reveal_with_fuel(Seq::<_>::filter, 1);
            assert(all@.take(i + 1).drop_last() =~= all@.take(i as int));
        }
        if find_listed(ignored, all[i].as_str()).is_none() {
            raw.push(all[i].clone());
        }
        i += 1;
    }
    assert(all@.take(all@.len() as int) =~= all@);
    let filtered = filter_paths(&raw, query);
    let q = crate::text::trim_str(query);
    if !q.as_str().is_empty() {
        return pairs_of_paths(filtered);
    }
    let ghost f = |p: String| (p, meta_of(entries@, p@).0, meta_of(entries@, p@).1);
    let mut rows: Vec<SortRow> = Vec::new();
    let mut k: usize = 0;
    while k < filtered.len()
        invariant
            k <= filtered@.len(),
            f == (|p: String| (p, meta_of(entries@, p@).0, meta_of(entries@, p@).1)),
            rows@ == filtered@.take(k as int).map_values(f),
        decreases filtered@.len() - k,
    {
        let (size, mtime) = find_meta(entries, filtered[k].as_str());
        rows.push((filtered[k].clone(), size, mtime));
        k += 1;
        assert(rows@ =~= filtered@.take(k as int).map_values(f));
    }
    assert(filtered@.take(filtered@.len() as int) =~= filtered@);
    sorted_path_rows(rows, sort)
}

// ---------------------------------------------------------------------------
// Delta
// ---------------------------------------------------------------------------

/// `(created_ns, path)` of the delta rows of `kind` whose path matches the query.
pub open spec fn delta_pairs(rows: Seq<DeltaRow>, kind: DeltaKind, q: Seq<char>) -> Seq<(i64, String)> {
    rows_for_spec(rows, kind).filter(|r: DeltaRow| matches_spec(r.path@, q)).map_values(
        |r: DeltaRow| (r.created_ns, r.path),
    )
}

/// `t` is ordered by the delta direction of `sort` (time, then path).
pub open spec fn delta_order_ok(t: Seq<(i64, String)>, sort: ContentSort) -> bool {
    &&& sort.delta_dir == SortDirection::Asc ==> sorted_by(&DeltaRowOrder, t)
    &&& sort.delta_dir == SortDirection::Desc ==> forall|i: int, j: int|
        0 <= i < j < t.len() ==> DeltaRowOrder.le(#[trigger] t[j], #[trigger] t[i])
}

/// Delta contents of one kind: with a non-blank query the matching rows in
/// payload order, otherwise all of them in the time sort; a header row before
/// each run of one stamp.
pub fn delta_contents(cat: &DeltaCatalog, kind: DeltaKind, query: &str, sort: ContentSort) -> (r: Vec<TimedRow>)
    ensures
        trim_spec(query@).len() != 0 ==> timed_rows_ok(delta_pairs(cat.rows@, kind, query@), r@),
        trim_spec(query@).len() == 0 ==> exists|t: Seq<(i64, String)>|
            #![trigger t.to_multiset()]
            t.to_multiset() == delta_pairs(cat.rows@, kind, query@).to_multiset() && delta_order_ok(t, sort)
                && timed_rows_ok(t, r@),
{
    let rows = cat.rows_for(kind);
    let ghost base = rows_for_spec(cat.rows@, kind);
    let ghost pred = |x: DeltaRow| matches_spec(x.path@, query@);
    let ghost f = |x: DeltaRow| (x.created_ns, x.path);
    assert(rows@.map_values(|x: &DeltaRow| *x) == base);
    let mut timed: Vec<(i64, String)> = Vec::new();
    let mut i: usize = 0;
    while i < rows.len()
        invariant
            i <= rows@.len(),
            rows@.map_values(|x: &DeltaRow| *x) == base,
            pred == (|x: DeltaRow| matches_spec(x.path@, query@)),
            f == (|x: DeltaRow| (x.created_ns, x.path)),
            timed@ == base.take(i as int).filter(pred).map_values(f),
        decreases rows@.len() - i,
    {
        proof {
            reveal_with_fuel(Seq::<_>::filter, 1);
            assert(base.take(i + 1).drop_last() =~= base.take(i as int));
            assert(base[i as int] == *rows@[i as int]);
        }
        let x: &DeltaRow = rows[i];
        if fuzzy_matches_field(x.path.as_str(), query) {
            proof {
                let s = base.take(i as int).filter(pred);
                assert(s.push(base[i as int]).map_values(f) =~= s.map_values(f).push(f(base[i as int])));
            }
            timed.push((x.created_ns, x.path.clone()));
        }
        i += 1;
    }
    assert(base.take(base.len() as int) =~= base);
    let q = crate::text::trim_str(query);
    if q.as_str().is_empty() {
        let ghost before = timed@;
        sort_delta_rows(&mut timed, sort);
        let r = display_paths_timed(&timed);
        assert(timed@.to_multiset() == before.to_multiset());
        return r;
    }
    display_paths_timed(&timed)
}

/// j / k over the delta kinds (Added, Modified, Removed), stopping at the ends.
pub fn delta_kind_step(kind: DeltaKind, delta: i32) -> (r: DeltaKind)
    ensures
        r == seq![DeltaKind::Added, DeltaKind::Modified, DeltaKind::Removed][crate::menu::clamp_int(
            match kind {
                DeltaKind::Added => 0int,
                DeltaKind::Modified => 1int,
                DeltaKind::Removed => 2int,
            } + delta,
            0,
            2,
        )],
{
    let idx: i64 = match kind {
        DeltaKind::Added => 0,
        DeltaKind::Modified => 1,
        DeltaKind::Removed => 2,
    };
    let want: i64 = idx + delta as i64;
    let next: i64 = if want < 0 {
        0
    } else if want > 2 {
        2
    } else {
        want
    };
    if next == 0 {
        DeltaKind::Added
    } else if next == 1 {
        DeltaKind::Modified
    } else {
        DeltaKind::Removed
    }
}

// ---------------------------------------------------------------------------
// Lens members cache
// ---------------------------------------------------------------------------

/// The member paths cached for `name`: the first entry with that name.
pub open spec fn cache_get(entries: Seq<(String, Vec<String>)>, name: Seq<char>) -> Option<Seq<String>>
    decreases entries.len(),
{
    if entries.len() == 0 {
        None
    } else if entries[0].0@ == name {
        Some(entries[0].1@)
    } else {
        cache_get(entries.drop_first(), name)
    }
}

proof fn lemma_cache_get_push(e: Seq<(String, Vec<String>)>, x: (String, Vec<String>), k: Seq<char>)
    ensures
        cache_get(e.push(x), k) == (match cache_get(e, k) {
            Some(v) => Some(v),
            None => if x.0@ == k { Some(x.1@) } else { None },
        }),
    decreases e.len(),
{
    if e.len() > 0 {
        assert(e.push(x)[0] == e[0]);
        assert(e.push(x).drop_first() =~= e.drop_first().push(x));
        lemma_cache_get_push(e.drop_first(), x, k);
    } else {
        assert(e.push(x)[0] == x);
        assert(e.push(x).drop_first() =~= Seq::<(String, Vec<String>)>::empty());
        assert(cache_get(Seq::<(String, Vec<String>)>::empty(), k) is None);
        assert(cache_get(e, k) is None);
    }
}

proof fn lemma_cache_get_update(e: Seq<(String, Vec<String>)>, i: int, x: (String, Vec<String>), k: Seq<char>)
    requires
        0 <= i < e.len(),
        e[i].0@ == x.0@,
        forall|j: int| 0 <= j < i ==> (#[trigger] e[j]).0@ != x.0@,
    ensures
        cache_get(e.update(i, x), k) == (if k == x.0@ { Some(x.1@) } else { cache_get(e, k) }),
    decreases i,
{
    if i > 0 {
        assert(e.update(i, x).drop_first() =~= e.drop_first().update(i - 1, x));
        assert forall|j: int| 0 <= j < i - 1 implies (#[trigger] e.drop_first()[j]).0@ != x.0@ by {
            assert(e.drop_first()[j] == e[j + 1]);
        }
        lemma_cache_get_update(e.drop_first(), i - 1, x, k);
    } else {
        assert(e.update(0, x).drop_first() =~= e.drop_first());
    }
}

/// What a lookup finds for `name` at generation `tick` in a cache of
/// generation `cache_tick`: the cached members, or nothing (a cache of another
/// generation counts as empty).
pub open spec fn lookup_spec(cache_tick: u32, entries: Seq<(String, Vec<String>)>, name: Seq<char>, tick: u32) -> Option<Seq<String>> {
    if cache_tick == tick {
        cache_get(entries, name)
    } else {
        None
    }
}

/// `after` holds `members` for `name` and what `before` held for every other name.
pub open spec fn stored_spec(
    before: Seq<(String, Vec<String>)>,
    after: Seq<(String, Vec<String>)>,
    name: Seq<char>,
    members: Seq<String>,
) -> bool {
    forall|k: Seq<char>| #[trigger] cache_get(after, k) == (if k == name { Some(members) } else { cache_get(before, k) })
}

/// What a lookup of lens members asks of the shell.
pub enum MembersLookup {
    /// No lens selected: no members.
    NoLens,
    /// Cached members.
    Hit(Vec<String>),
    /// Not cached: fetch the members of this lens, then [`LensMembersCache::store`] them.
    Fetch(String),
}

/// Member paths fetched per lens name, valid for one lens generation (tick).
pub struct LensMembersCache {
    pub tick: u32,
    pub entries: Vec<(String, Vec<String>)>,
}

impl LensMembersCache {
    /// Empty, at generation zero.
    pub fn new() -> (r: Self)
        ensures
            r.tick == 0,
            r.entries@.len() == 0,
    {
        LensMembersCache { tick: 0, entries: Vec::new() }
    }

    /// Looks up the members of `name` at lens generation `tick`; a cache from
    /// another generation is emptied first.
    pub fn lookup(&mut self, name: Option<&str>, tick: u32) -> (r: MembersLookup)
        ensures
            name is None ==> *final(self) == *old(self) && r is NoLens,
            name matches Some(n) ==> {
                let cached = if old(self).tick == tick { old(self).entries@ } else { Seq::empty() };
                &&& final(self).tick == tick
                &&& final(self).entries@ == cached
                &&& match lookup_spec(old(self).tick, old(self).entries@, n@, tick) {
                    Some(v) => r matches MembersLookup::Hit(m) && m@ == v,
                    None => r matches MembersLookup::Fetch(f) && f@ == n@,
                }
            },
    {
        let n = match name {
            None => {
                return MembersLookup::NoLens;
            },
            Some(n) => n,
        };
        if self.tick != tick {
            self.entries = Vec::new();
            self.tick = tick;
        }
        let ghost cached = if old(self).tick == tick { old(self).entries@ } else { Seq::empty() };
        let mut i: usize = 0;
        assert(self.entries@.skip(0) =~= self.entries@);
        while i < self.entries.len()
            invariant
                i <= self.entries@.len(),
                name == Some(n),
                self.tick == tick,
                self.entries@ == cached,
                cached == (if old(self).tick == tick { old(self).entries@ } else { Seq::empty() }),
                cache_get(self.entries@, n@) == cache_get(self.entries@.skip(i as int), n@),
            decreases self.entries@.len() - i,
        {
            assert(self.entries@.skip(i as int)[0] == self.entries@[i as int]);
            assert(self.entries@.skip(i as int).drop_first() =~= self.entries@.skip(i + 1));
            if crate::text::str_eq(self.entries[i].0.as_str(), n) {
                return MembersLookup::Hit(crate::menu::clone_strings(&self.entries[i].1));
            }
            i += 1;
        }
        let mut f = String::new();
        crate::text::push_all(&mut f, n);
        MembersLookup::Fetch(f)
    }

    /// The fetch for `name` returned `members`: cached for later lookups in
    /// this generation, replacing what `name` had.
    pub fn store(&mut self, name: String, members: Vec<String>)
        ensures
            final(self).tick == old(self).tick,
            stored_spec(old(self).entries@, final(self).entries@, name@, members@),
    {
        let ghost x = (name, members);
        let mut i: usize = 0;
        while i < self.entries.len()
            invariant
                i <= self.entries@.len(),
                self.entries@ == old(self).entries@,
                self.tick == old(self).tick,
                x == (name, members),
                forall|j: int| 0 <= j < i ==> (#[trigger] self.entries@[j]).0@ != name@,
            decreases self.entries@.len() - i,
        {
            if crate::text::str_eq(self.entries[i].0.as_str(), name.as_str()) {
                proof {
                    assert forall|k: Seq<char>| #[trigger] cache_get(self.entries@.update(i as int, x), k) == (if k == name@ {
                        Some(members@)
                    } else {
                        cache_get(old(self).entries@, k)
                    }) by {
                        lemma_cache_get_update(self.entries@, i as int, x, k);
                    }
                }
                self.entries.set(i, (name, members));
                return;
            }
            i += 1;
        }
        proof {
            assert forall|k: Seq<char>| #[trigger] cache_get(self.entries@.push(x), k) == (if k == name@ {
                Some(members@)
            } else {
                cache_get(old(self).entries@, k)
            }) by {
                lemma_cache_get_push(self.entries@, x, k);
                if k == name@ {
                    lemma_cache_get_absent(self.entries@, k);
                }
            }
        }
        self.entries.push((name, members));
    }
}

proof fn lemma_cache_get_absent(e: Seq<(String, Vec<String>)>, k: Seq<char>)
    requires
        forall|j: int| 0 <= j < e.len() ==> (#[trigger] e[j]).0@ != k,
    ensures
        cache_get(e, k) is None,
    decreases e.len(),
{
    if e.len() > 0 {
        assert forall|j: int| 0 <= j < e.drop_first().len() implies (#[trigger] e.drop_first()[j]).0@ != k by {
            assert(e.drop_first()[j] == e[j + 1]);
        }
        lemma_cache_get_absent(e.drop_first(), k);
    }
}

/// Members stored for a lens come back from the next lookup of that lens in
/// the same generation, other lenses keep what they had, and a lookup in
/// another generation fetches again.
pub proof fn law_lookup_after_store(
    tick: u32,
    before: Seq<(String, Vec<String>)>,
    after: Seq<(String, Vec<String>)>,
    name: Seq<char>,
    members: Seq<String>,
    other: Seq<char>,
    later: u32,
)
    requires
        stored_spec(before, after, name, members),
    ensures
        lookup_spec(tick, after, name, tick) == Some(members),
        other != name ==> lookup_spec(tick, after, other, tick) == lookup_spec(tick, before, other, tick),
        later != tick ==> lookup_spec(tick, after, name, later) is None,
{
    assert(cache_get(after, name) == Some(members));
    assert(cache_get(after, other) == (if other == name { Some(members) } else { cache_get(before, other) }));
}

} // verus!
