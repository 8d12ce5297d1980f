//! The serve API's data as the UI reads it: delta rows and their overview,
//! catalog flags, entry details and section trees, content URLs, and the
//! texts shown after each mutation.

use vstd::prelude::*;
use crate::text::{
    chars_of, string_of, push_all, push_chars, string_push, str_eq_ignore_case, eq_ignore_case,
    decimal_spec, decimal_string, signed_decimal_spec, signed_decimal_chars, join_spec,
    ends_with_spec, str_eq,
};
use crate::toast::{ToastLevel, ToastBody};
use crate::sort::{Order, sorted_by};

verus! {

broadcast use vstd::seq_lib::group_to_multiset_ensures;

// ---------------------------------------------------------------------------
// Delta rows
// ---------------------------------------------------------------------------

/// One `/delta` row.
#[derive(Clone, Debug)]
pub struct DeltaRow {
    pub created_ns: i64,
    pub path: String,
    pub delta_type: String,
}

/// Left-pane delta type (API: `added` / `mod` / `removed`).
#[derive(Clone, Copy, Debug, PartialEq, Eq, Structural)]
pub enum DeltaKind {
    Added,
    Modified,
    Removed,
}

impl Default for DeltaKind {
    fn default() -> (r: Self)
        ensures
            r == DeltaKind::Added,
    {
        DeltaKind::Added
    }
}

impl DeltaKind {
    pub open spec fn label_spec(self) -> Seq<char> {
        match self {
            DeltaKind::Added => "Added"@,
            DeltaKind::Modified => "Modified"@,
            DeltaKind::Removed => "Removed"@,
        }
    }

    pub open spec fn api_spec(self) -> Seq<char> {
        match self {
            DeltaKind::Added => "added"@,
            DeltaKind::Modified => "mod"@,
            DeltaKind::Removed => "removed"@,
        }
    }

    pub open spec fn css_spec(self) -> Seq<char> {
        match self {
            DeltaKind::Added => "delta-added"@,
            DeltaKind::Modified => "delta-mod"@,
            DeltaKind::Removed => "delta-removed"@,
        }
    }

    /// The three kinds, in pane order.
    pub fn all() -> (r: Vec<DeltaKind>)
        ensures
            r@ == seq![DeltaKind::Added, DeltaKind::Modified, DeltaKind::Removed],
    {
        let mut r: Vec<DeltaKind> = Vec::new();
        r.push(DeltaKind::Added);
        r.push(DeltaKind::Modified);
        r.push(DeltaKind::Removed);
        r
    }

    /// Pane label.
    pub fn label(self) -> (r: &'static str)
        ensures
            r@ == self.label_spec(),
    {
        match self {
            DeltaKind::Added => "Added",
            DeltaKind::Modified => "Modified",
            DeltaKind::Removed => "Removed",
        }
    }

    /// `delta_type` value in the API.
    pub fn api_type(self) -> (r: &'static str)
        ensures
            r@ == self.api_spec(),
    {
        match self {
            DeltaKind::Added => "added",
            DeltaKind::Modified => "mod",
            DeltaKind::Removed => "removed",
        }
    }

    /// CSS class of the kind's color.
    pub fn css_class(self) -> (r: &'static str)
        ensures
            r@ == self.css_spec(),
    {
        match self {
            DeltaKind::Added => "delta-added",
            DeltaKind::Modified => "delta-mod",
            DeltaKind::Removed => "delta-removed",
        }
    }
}

/// Rows of a kind: `delta_type` equal to the kind's API name, ASCII case ignored.
pub open spec fn rows_for_spec(rows: Seq<DeltaRow>, kind: DeltaKind) -> Seq<DeltaRow> {
    rows.filter(|r: DeltaRow| eq_ignore_case(r.delta_type@, kind.api_spec()))
}

/// The `/delta` payload grouped for the Delta mode panes.
pub struct DeltaCatalog {
    pub rows: Vec<DeltaRow>,
}

/// Strictly decreasing.
pub open spec fn strictly_decreasing(s: Seq<i64>) -> bool {
    forall|i: int, j: int| 0 <= i < j < s.len() ==> #[trigger] s[i] > #[trigger] s[j]
}

/// The creation stamps of the rows.
pub open spec fn stamps_of(rows: Seq<DeltaRow>) -> Seq<i64> {
    rows.map_values(|r: DeltaRow| r.created_ns)
}

/// The overview lines: a blank line, the count header, a blank line, then
/// one bullet per stamp label.
pub open spec fn overview_lines_spec(labels: Seq<Seq<char>>) -> Seq<Seq<char>> {
    seq![
        Seq::<char>::empty(),
        decimal_spec(labels.len()) + " snapshot(s) (sorted by time; newest first):"@,
        Seq::<char>::empty(),
    ] + labels.map_values(|l: Seq<char>| "  • "@ + l)
}

impl DeltaCatalog {
    /// The rows of one kind, in payload order.
    pub fn rows_for(&self, kind: DeltaKind) -> (r: Vec<&DeltaRow>)
        ensures
            r@.map_values(|x: &DeltaRow| *x) == rows_for_spec(self.rows@, kind),
    {
        let t = kind.api_type();
        let mut r: Vec<&DeltaRow> = Vec::new();
        let mut i: usize = 0;
        while i < self.rows.len()
            invariant
                i <= self.rows@.len(),
                t@ == kind.api_spec(),
                r@.map_values(|x: &DeltaRow| *x) == self.rows@.take(i as int).filter(
                    |r: DeltaRow| eq_ignore_case(r.delta_type@, kind.api_spec()),
                ),
            decreases self.rows@.len() - i,
        {
            proof {
                reveal_with_fuel(Seq::<_>::filter, 1);
                assert(self.rows@.take(i + 1).drop_last() =~= self.rows@.take(i as int));
            }
            let row = &self.rows[i];
            let ghost before = r@;
            if str_eq_ignore_case(row.delta_type.as_str(), t) {
                r.push(row);
                assert(r@.map_values(|x: &DeltaRow| *x) =~= before.map_values(|x: &DeltaRow| *x).push(*row));
            }
            i += 1;
        }
        assert(self.rows@.take(self.rows@.len() as int) =~= self.rows@);
        r
    }

    /// Distinct `created_ns` values, newest first.
    pub fn distinct_stamps(&self) -> (r: Vec<i64>)
        ensures
            strictly_decreasing(r@),
            r@.to_set() == stamps_of(self.rows@).to_set(),
    {
        let mut out: Vec<i64> = Vec::new();
        let mut i: usize = 0;
        while i < self.rows.len()
            invariant
                i <= self.rows@.len(),
                strictly_decreasing(out@),
                out@.to_set() == stamps_of(self.rows@.take(i as int)).to_set(),
            decreases self.rows@.len() - i,
        {
            let x = self.rows[i].created_ns;
            let ghost before = out@;
            let mut j: usize = 0;
            while j < out.len() && out[j] > x
                invariant
                    j <= out@.len(),
                    out@ == before,
                    forall|k: int| 0 <= k < j ==> out@[k] > x,
                decreases out@.len() - j,
            {
                j += 1;
            }
            if j < out.len() && out[j] == x {
                proof {
                    assert(stamps_of(self.rows@.take(i + 1)) =~= stamps_of(self.rows@.take(i as int)).push(x));
                    stamps_of(self.rows@.take(i as int)).lemma_push_to_set_commute(x);
                    assert(out@.to_set().contains(x)) by {
                        assert(out@[j as int] == x);
                    }
                    assert(out@.to_set().insert(x) =~= out@.to_set());
                }
            } else {
                out.insert(j, x);
                proof {
                    assert(out@ =~= before.insert(j as int, x));
                    assert forall|a: int, b: int| 0 <= a < b < out@.len() implies #[trigger] out@[a] > #[trigger] out@[b] by {
                        if a < j && b == j {
                        } else if a < j && b > j {
                            assert(out@[b] == before[b - 1]);
                            if b - 1 >= j {
                                assert(before[j as int] <= x);
                                if b - 1 > j {
                                    assert(before[j as int] > before[b - 1]);
                                }
                            }
                        } else if a == j {
                            assert(out@[b] == before[b - 1]);
                            assert(j < before.len());
                            assert(before[j as int] < x);
                            if b - 1 > j {
                                assert(before[j as int] > before[b - 1]);
                            }
                        } else if a > j {
                            assert(out@[a] == before[a - 1]);
                            assert(out@[b] == before[b - 1]);
                        } else {
                            assert(out@[a] == before[a]);
                            assert(out@[b] == before[b]);
                        }
                    }
                    assert(stamps_of(self.rows@.take(i + 1)) =~= stamps_of(self.rows@.take(i as int)).push(x));
                    stamps_of(self.rows@.take(i as int)).lemma_push_to_set_commute(x);
                    assert(out@.to_set() =~= before.to_set().insert(x)) by {
                        assert forall|y: i64| out@.to_set().contains(y) <==> before.to_set().insert(x).contains(y) by {
                            if out@.contains(y) {
                                let k = choose|k: int| 0 <= k < out@.len() && out@[k] == y;
                                if k < j {
                                    assert(before[k] == y);
                                } else if k > j {
                                    assert(before[k - 1] == y);
                                }
                            }
                            if before.contains(y) {
                                let k = choose|k: int| 0 <= k < before.len() && before[k] == y;
                                if k < j {
                                    assert(out@[k] == y);
                                } else {
                                    assert(out@[k + 1] == y);
                                }
                            }
                            if y == x {
                                assert(out@[j as int] == x);
                            }
                        }
                    }
                }
            }
            i += 1;
        }
        assert(self.rows@.take(self.rows@.len() as int) =~= self.rows@);
        out
    }
}

/// The Delta overview text from the formatted stamps (newest first).
pub fn overview_text(labels: &Vec<String>) -> (r: String)
    ensures
        r@ == join_spec(overview_lines_spec(labels@.map_values(|l: String| l@)), seq!['\n']),
{
    let ghost ls = labels@.map_values(|l: String| l@);
    let ghost lines = overview_lines_spec(ls);
    let mut r = String::new();
    string_push(&mut r, '\n');
    let n = decimal_string(labels.len() as u64);
    push_all(&mut r, n.as_str());
    push_all(&mut r, " snapshot(s) (sorted by time; newest first):");
    string_push(&mut r, '\n');
    proof {
        reveal_with_fuel(join_spec, 4);
        assert(lines.take(3) =~= seq![
            Seq::<char>::empty(),
            decimal_spec(ls.len()) + " snapshot(s) (sorted by time; newest first):"@,
            Seq::<char>::empty(),
        ]);
        assert(lines.take(3).drop_last() =~= lines.take(2));
        assert(lines.take(2).drop_last() =~= lines.take(1));
        assert(r@ =~= join_spec(lines.take(3), seq!['\n']));
    }
    let mut i: usize = 0;
    while i < labels.len()
        invariant
            i <= labels@.len(),
            ls == labels@.map_values(|l: String| l@),
            lines == overview_lines_spec(ls),
            lines.len() == ls.len() + 3,
            r@ == join_spec(lines.take(i + 3 as int), seq!['\n']),
        decreases labels@.len() - i,
    {
        string_push(&mut r, '\n');
        push_all(&mut r, "  • ");
        push_all(&mut r, labels[i].as_str());
        proof {
            assert(lines.take(i + 4).drop_last() =~= lines.take(i + 3));
            assert(lines[i + 3] == "  • "@ + ls[i as int]);
            assert(r@ =~= join_spec(lines.take(i + 3), seq!['\n']) + seq!['\n'] + lines[i + 3]);
        }
        i += 1;
    }
    assert(lines.take(labels@.len() + 3 as int) =~= lines);
    r
}

/// The largest element, if any.
pub open spec fn max_of(s: Seq<i64>) -> Option<i64>
    decreases s.len(),
{
    if s.len() == 0 {
        None
    } else {
        match max_of(s.drop_last()) {
            Some(m) => Some(if s.last() > m { s.last() } else { m }),
            None => Some(s.last()),
        }
    }
}

/// Latest `created_ns` of the delta log (the footer's "Last Snapshot").
pub fn last_snapshot_ns(rows: &Vec<DeltaRow>) -> (r: Option<i64>)
    ensures
        r == max_of(stamps_of(rows@)),
        r matches Some(m) ==> (forall|i: int| 0 <= i < rows@.len() ==> (#[trigger] rows@[i]).created_ns <= m)
            && exists|i: int| 0 <= i < rows@.len() && (#[trigger] rows@[i]).created_ns == m,
        r is None <==> rows@.len() == 0,
{
    let mut best: Option<i64> = None;
    let mut i: usize = 0;
    while i < rows.len()
        invariant
            i <= rows@.len(),
            best == max_of(stamps_of(rows@.take(i as int))),
            best matches Some(m) ==> (forall|k: int| 0 <= k < i ==> (#[trigger] rows@[k]).created_ns <= m)
                && exists|k: int| 0 <= k < i && (#[trigger] rows@[k]).created_ns == m,
            best is None <==> i == 0,
        decreases rows@.len() - i,
    {
        let x = rows[i].created_ns;
        proof {
            assert(stamps_of(rows@.take(i + 1)).drop_last() =~= stamps_of(rows@.take(i as int)));
            assert(stamps_of(rows@.take(i + 1)).last() == x);
        }
        best = match best {
            Some(m) => Some(if x > m { x } else { m }),
            None => Some(x),
        };
        i += 1;
    }
    assert(rows@.take(rows@.len() as int) =~= rows@);
    best
}

// ---------------------------------------------------------------------------
// Catalog flags
// ---------------------------------------------------------------------------

/// `/health` payload.
#[derive(Clone, Debug)]
pub struct HealthBody {
    pub ok: bool,
    pub service: String,
    pub version: String,
    pub uptime_secs: u64,
}

/// What the shell knows about the catalog at boot.
pub struct CatalogFlags {
    pub has_lenses: bool,
    pub has_delta: bool,
    pub has_duplicates: bool,
    pub health: Option<HealthBody>,
    pub root: Option<String>,
    /// Latest `delta_log.created_ns`.
    pub last_snapshot_ns: Option<i64>,
}

/// Catalog flags from the boot fetches: lens names and duplicate group count
/// when those requests succeeded, and the delta rows (empty on failure).
pub fn catalog_flags(
    health: Option<HealthBody>,
    root: Option<String>,
    lens_names: Option<Vec<String>>,
    duplicate_groups: Option<usize>,
    delta: &Vec<DeltaRow>,
) -> (r: CatalogFlags)
    ensures
        r.has_lenses == (lens_names matches Some(v) && v@.len() > 0),
        r.has_duplicates == (duplicate_groups matches Some(n) && n > 0),
        r.has_delta == (delta@.len() > 0),
        r.health == health,
        r.root == root,
        r.last_snapshot_ns == max_of(stamps_of(delta@)),
{
    let has_lenses = match &lens_names {
        Some(v) => v.len() > 0,
        None => false,
    };
    let has_duplicates = match duplicate_groups {
        Some(n) => n > 0,
        None => false,
    };
    let last = last_snapshot_ns(delta);
    CatalogFlags {
        has_lenses,
        has_delta: delta.len() > 0,
        has_duplicates,
        health,
        root,
        last_snapshot_ns: last,
    }
}

// ---------------------------------------------------------------------------
// Entry details
// ---------------------------------------------------------------------------

/// One key/value row of a metadata table.
#[derive(Clone, Debug)]
pub struct KvRowView {
    pub key: String,
    pub value: String,
}

/// A node of a collapsible section tree.
#[derive(Debug)]
pub struct TreeNodeView {
    pub label: String,
    pub value: Option<String>,
    pub children: Vec<TreeNodeView>,
    pub branch: bool,
}

/// One Metadata / Writing section from serve.
#[derive(Debug)]
#[allow(inconsistent_fields)]
pub enum SectionView {
    KeyValue { title: Option<String>, sub_title: bool, rows: Vec<KvRowView> },
    Contents { title: String, sub_title: bool, columns: Vec<String>, rows: Vec<Vec<String>> },
    SingleColumnList { title: String, values: Vec<String> },
    Tree { title: String, roots: Vec<TreeNodeView> },
}

/// Right-pane payload of one catalog entry.
pub struct EntryDetail {
    pub path: String,
    pub category: String,
    pub size: u64,
    pub mtime_ns: Option<i64>,
    pub templates: String,
    pub metadata: Option<String>,
    pub writing: Option<String>,
    pub metadata_tables: Vec<SectionView>,
    pub writing_tables: Vec<SectionView>,
}

impl EntryDetail {
    /// The Templates tab has content.
    pub fn has_templates(&self) -> (r: bool)
        ensures
            r == (self.templates@.len() > 0),
    {
        !self.templates.as_str().is_empty()
    }

    /// The Metadata tab has content: tables, or non-empty text.
    pub fn has_metadata(&self) -> (r: bool)
        ensures
            r == (self.metadata_tables@.len() > 0 || (self.metadata matches Some(s) && s@.len() > 0)),
    {
        if self.metadata_tables.len() > 0 {
            return true;
        }
        match &self.metadata {
            Some(s) => !s.as_str().is_empty(),
            None => false,
        }
    }

    /// The Writing tab has content: tables, or non-empty text.
    pub fn has_writing(&self) -> (r: bool)
        ensures
            r == (self.writing_tables@.len() > 0 || (self.writing matches Some(s) && s@.len() > 0)),
    {
        if self.writing_tables.len() > 0 {
            return true;
        }
        match &self.writing {
            Some(s) => !s.as_str().is_empty(),
            None => false,
        }
    }
}

/// Some node is a branch, has children, or has such a node below it.
pub open spec fn tree_has_collapsible_spec(nodes: Seq<TreeNodeView>) -> bool
    decreases nodes,
{
    exists|i: int|
        0 <= i < nodes.len() && ((#[trigger] nodes[i]).branch || nodes[i].children@.len() > 0
            || tree_has_collapsible_spec(nodes[i].children@))
}

/// Whether a tree shows Expand all / Collapse all.
pub fn tree_has_collapsible(nodes: &Vec<TreeNodeView>) -> (r: bool)
    ensures
        r == tree_has_collapsible_spec(nodes@),
    decreases nodes@,
{
    let mut i: usize = 0;
    while i < nodes.len()
        invariant
            i <= nodes@.len(),
            forall|k: int|
                0 <= k < i ==> !((#[trigger] nodes@[k]).branch || nodes@[k].children@.len() > 0
                    || tree_has_collapsible_spec(nodes@[k].children@)),
        decreases nodes@.len() - i,
    {
        let n = &nodes[i];
        if n.branch || n.children.len() > 0 {
            return true;
        }
        proof {
            assert(decreases_to!(nodes@ => nodes@[i as int]));
            assert(decreases_to!(nodes@[i as int] => nodes@[i as int].children));
            assert(decreases_to!(nodes@[i as int].children => nodes@[i as int].children@));
        }
        if tree_has_collapsible(&n.children) {
            return true;
        }
        i += 1;
    }
    false
}

} // verus!

verus! {

// ---------------------------------------------------------------------------
// Content URLs
// ---------------------------------------------------------------------------

/// Query pairs of a content request, in order; an empty theme is left out.
pub open spec fn content_query_spec(
    format: Option<Seq<char>>,
    page: Option<u32>,
    offset: Option<u64>,
    limit: Option<u64>,
    theme: Option<Seq<char>>,
) -> Seq<Seq<char>> {
    (match format {
        Some(f) => seq!["format="@ + f],
        None => Seq::empty(),
    }) + (match page {
        Some(p) => seq!["page="@ + decimal_spec(p as nat)],
        None => Seq::empty(),
    }) + (match offset {
        Some(o) => seq!["offset="@ + decimal_spec(o as nat)],
        None => Seq::empty(),
    }) + (match limit {
        Some(l) => seq!["limit="@ + decimal_spec(l as nat)],
        None => Seq::empty(),
    }) + (match theme {
        Some(t) => if t.len() > 0 {
            seq!["theme="@ + crate::url::url_encode_spec(t)]
        } else {
            Seq::empty()
        },
        None => Seq::empty(),
    })
}

/// `/content/{path}` with its query (`?a=b&c=d`) when there is one.
pub open spec fn content_url_spec(
    path: Seq<char>,
    format: Option<Seq<char>>,
    page: Option<u32>,
    offset: Option<u64>,
    limit: Option<u64>,
    theme: Option<Seq<char>>,
) -> Seq<char> {
    let q = content_query_spec(format, page, offset, limit, theme);
    "/content/"@ + crate::url::entry_path_spec(path) + (if q.len() > 0 {
        "?"@ + join_spec(q, "&"@)
    } else {
        Seq::empty()
    })
}

/// The texts of `pieces` joined with `sep`.
pub fn join_strings(pieces: &Vec<String>, sep: &str) -> (r: String)
    ensures
        r@ == join_spec(pieces@.map_values(|p: String| p@), sep@),
{
    let ghost views = pieces@.map_values(|p: String| p@);
    let mut out = String::new();
    let mut i: usize = 0;
    while i < pieces.len()
        invariant
            i <= pieces@.len(),
            views == pieces@.map_values(|p: String| p@),
            out@ == join_spec(views.take(i as int), sep@),
        decreases pieces@.len() - i,
    {
        if i > 0 {
            push_all(&mut out, sep);
        }
        push_all(&mut out, pieces[i].as_str());
        i += 1;
        assert(views.take(i as int).drop_last() =~= views.take(i - 1));
        if i == 1 {
            assert(out@ =~= views.take(1)[0]);
        }
    }
    assert(views.take(pieces@.len() as int) =~= views);
    out
}

/// `a` followed by `b`, as a new string.
fn concat_str(a: &str, b: &str) -> (r: String)
    ensures
        r@ == a@ + b@,
{
    let mut r = String::new();
    push_all(&mut r, a);
    push_all(&mut r, b);
    r
}

/// The query pairs of a content request.
fn content_query_pieces(
    format: Option<&str>,
    page: Option<u32>,
    offset: Option<u64>,
    limit: Option<u64>,
    theme: Option<&str>,
) -> (r: Vec<String>)
    ensures
        r@.map_values(|p: String| p@) == content_query_spec(
            match format {
                Some(f) => Some(f@),
                None => None,
            },
            page,
            offset,
            limit,
            match theme {
                Some(t) => Some(t@),
                None => None,
            },
        ),
{
    let mut q: Vec<String> = Vec::new();
    match format {
        Some(f) => {
            q.push(concat_str("format=", f));
        },
        None => {},
    }
    match page {
        Some(p) => {
            let d = decimal_string(p as u64);
            q.push(concat_str("page=", d.as_str()));
        },
        None => {},
    }
    match offset {
        Some(o) => {
            let d = decimal_string(o);
            q.push(concat_str("offset=", d.as_str()));
        },
        None => {},
    }
    match limit {
        Some(l) => {
            let d = decimal_string(l);
            q.push(concat_str("limit=", d.as_str()));
        },
        None => {},
    }
    match theme {
        Some(t) => {
            if !t.is_empty() {
                let enc = crate::url::encode_component(t);
                q.push(concat_str("theme=", enc.as_str()));
            }
        },
        None => {},
    }
    assert(q@.map_values(|p: String| p@) =~= content_query_spec(
        match format {
            Some(f) => Some(f@),
            None => None,
        },
        page,
        offset,
        limit,
        match theme {
            Some(t) => Some(t@),
            None => None,
        },
    ));
    q
}

/// URL of a content request for `path`.
pub fn content_url(
    path: &str,
    format: Option<&str>,
    page: Option<u32>,
    offset: Option<u64>,
    limit: Option<u64>,
    theme: Option<&str>,
) -> (r: String)
    ensures
        r@ == content_url_spec(
            path@,
            match format {
                Some(f) => Some(f@),
                None => None,
            },
            page,
            offset,
            limit,
            match theme {
                Some(t) => Some(t@),
                None => None,
            },
        ),
{
    let mut url = String::new();
    push_all(&mut url, "/content/");
    let e = crate::url::encode_entry_path(path);
    push_all(&mut url, e.as_str());
    let q = content_query_pieces(format, page, offset, limit, theme);
    if q.len() > 0 {
        push_all(&mut url, "?");
        let j = join_strings(&q, "&");
        push_all(&mut url, j.as_str());
    }
    url
}

// ---------------------------------------------------------------------------
// Mutation results
// ---------------------------------------------------------------------------

/// `{ok_label} {count}`, or the error `{verb} {count}; then failed: {failed}`
/// when the server reports failures (`failed` is their JSON text).
pub fn bulk_toast(ok_label: &str, verb: &str, count: usize, failed: Option<String>) -> (r: Result<String, String>)
    ensures
        failed matches Some(f) ==> (r matches Err(e) && e@ == verb@ + " "@ + decimal_spec(count as nat)
            + "; then failed: "@ + f@),
        failed is None ==> (r matches Ok(m) && m@ == ok_label@ + " "@ + decimal_spec(count as nat)),
{
    let n = decimal_string(count as u64);
    match failed {
        Some(f) => {
            let mut e = String::new();
            push_all(&mut e, verb);
            push_all(&mut e, " ");
            push_all(&mut e, n.as_str());
            push_all(&mut e, "; then failed: ");
            push_all(&mut e, f.as_str());
            Err(e)
        },
        None => {
            let mut m = String::new();
            push_all(&mut m, ok_label);
            push_all(&mut m, " ");
            push_all(&mut m, n.as_str());
            Ok(m)
        },
    }
}

/// `a` then the decimal text of `n` then `b`.
fn text_num_text(a: &str, n: u64, b: &str) -> (r: String)
    ensures
        r@ == a@ + decimal_spec(n as nat) + b@,
{
    let mut r = String::new();
    push_all(&mut r, a);
    let d = decimal_string(n);
    push_all(&mut r, d.as_str());
    push_all(&mut r, b);
    r
}

/// Toast after a rename: `Renamed → {path}`.
pub fn renamed_message(path: &str) -> (r: String)
    ensures
        r@ == "Renamed → "@ + path@,
{
    let mut r = String::new();
    push_all(&mut r, "Renamed → ");
    push_all(&mut r, path);
    r
}

/// Toast after enhancing: `Enhanced {n}; failed {m}`.
pub fn enhanced_message(enhanced: usize, failed: usize) -> (r: String)
    ensures
        r@ == "Enhanced "@ + decimal_spec(enhanced as nat) + "; failed "@ + decimal_spec(failed as nat),
{
    let mut r = text_num_text("Enhanced ", enhanced as u64, "; failed ");
    let d = decimal_string(failed as u64);
    push_all(&mut r, d.as_str());
    r
}

/// Toast after setting a policy: `Enhance policy: {policy}`.
pub fn enhance_policy_message(policy: &str) -> (r: String)
    ensures
        r@ == "Enhance policy: "@ + policy@,
{
    let mut r = String::new();
    push_all(&mut r, "Enhance policy: ");
    push_all(&mut r, policy);
    r
}

/// Toast after creating a lens: `Lens {name} (+{added})`.
pub fn lens_created_message(name: &str, added: usize) -> (r: String)
    ensures
        r@ == "Lens "@ + name@ + " (+"@ + decimal_spec(added as nat) + ")"@,
{
    let mut r = String::new();
    push_all(&mut r, "Lens ");
    push_all(&mut r, name);
    let t = text_num_text(" (+", added as u64, ")");
    push_all(&mut r, t.as_str());
    r
}

/// Toast after renaming a lens: `Lens renamed to {name}`.
pub fn lens_renamed_message(name: &str) -> (r: String)
    ensures
        r@ == "Lens renamed to "@ + name@,
{
    let mut r = String::new();
    push_all(&mut r, "Lens renamed to ");
    push_all(&mut r, name);
    r
}

/// Toast after deleting a lens: `Deleted lens {name}`.
pub fn lens_deleted_message(name: &str) -> (r: String)
    ensures
        r@ == "Deleted lens "@ + name@,
{
    let mut r = String::new();
    push_all(&mut r, "Deleted lens ");
    push_all(&mut r, name);
    r
}

/// Toast after adding paths to a lens: `Added {count} to {lens}`.
pub fn added_to_lens_message(count: usize, lens: &str) -> (r: String)
    ensures
        r@ == "Added "@ + decimal_spec(count as nat) + " to "@ + lens@,
{
    let mut r = text_num_text("Added ", count as u64, " to ");
    push_all(&mut r, lens);
    r
}

/// Toast after removing paths from a lens: `Removed {count} from {lens}`.
pub fn removed_from_lens_message(count: usize, lens: &str) -> (r: String)
    ensures
        r@ == "Removed "@ + decimal_spec(count as nat) + " from "@ + lens@,
{
    let mut r = text_num_text("Removed ", count as u64, " from ");
    push_all(&mut r, lens);
    r
}

// ---------------------------------------------------------------------------
// HTTP errors
// ---------------------------------------------------------------------------

/// The string at `key` of a text that parses as a JSON object with a string
/// there.
pub uninterp spec fn json_string_field(text: Seq<char>, key: Seq<char>) -> Option<Seq<char>>;

/// `serde_json::from_str::<Value>(text)`, then `.get(key)` and `.as_str()`:
/// the string at `key`, when the text is JSON with one there. Depends on the
/// text and the key alone; nothing more of the parser is stated.
#[verifier::external_body]
fn json_string_field_of(text: &str, key: &str) -> (r: Option<String>)
    ensures
        r matches Some(e) ==> json_string_field(text@, key@) == Some(e@),
        r is None ==> json_string_field(text@, key@) is None,
{
    match serde_json::from_str::<serde_json::Value>(text) {
        Ok(v) => v.get(key).and_then(|e| e.as_str()).map(|s| s.to_string()),
        Err(_) => None,
    }
}

/// The toast text for a failed request: the JSON `error` field if any, else
/// `HTTP {status}` for an empty body, else the body.
pub open spec fn error_message_spec(status: u16, text: Seq<char>, field: Option<Seq<char>>) -> Seq<char> {
    match field {
        Some(e) => decimal_spec(status as nat) + ": "@ + e,
        None => if text.len() == 0 {
            "HTTP "@ + decimal_spec(status as nat)
        } else {
            decimal_spec(status as nat) + ": "@ + text
        },
    }
}

/// The toast text for a failed request, given the body's JSON `error` field.
pub fn error_message_from(status: u16, text: &str, error_field: Option<&str>) -> (r: String)
    ensures
        r@ == error_message_spec(
            status,
            text@,
            match error_field {
                Some(e) => Some(e@),
                None => None,
            },
        ),
{
    let s = decimal_string(status as u64);
    let mut r = String::new();
    match error_field {
        Some(e) => {
            push_all(&mut r, s.as_str());
            push_all(&mut r, ": ");
            push_all(&mut r, e);
        },
        None => {
            if text.is_empty() {
                push_all(&mut r, "HTTP ");
                push_all(&mut r, s.as_str());
            } else {
                push_all(&mut r, s.as_str());
                push_all(&mut r, ": ");
                push_all(&mut r, text);
            }
        },
    }
    r
}

/// The toast text for a failed request with status `status` and body `text`.
pub fn http_error_message(status: u16, text: &str) -> (r: String)
    ensures
        r@ == error_message_spec(status, text@, json_string_field(text@, "error"@)),
{
    let field = json_string_field_of(text, "error");
    match &field {
        Some(e) => error_message_from(status, text, Some(e.as_str())),
        None => error_message_from(status, text, None),
    }
}

} // verus!

verus! {

// ---------------------------------------------------------------------------
// Snapshot status and Command Mode outcomes
// ---------------------------------------------------------------------------

/// Counts of the last finished snapshot.
#[derive(Clone, Debug)]
pub struct SnapshotLast {
    pub added: usize,
    pub modified: usize,
    pub removed: usize,
    pub error: Option<String>,
}

/// `GET /snapshot`: `idle` | `running` | `done` | `failed`.
#[derive(Clone, Debug)]
pub struct SnapshotStatus {
    pub state: String,
    pub dir: Option<String>,
    pub last: Option<SnapshotLast>,
}

/// What one poll of the snapshot status decides.
pub enum PollStep {
    /// Still running: wait and poll again.
    KeepPolling,
    /// Settled: refresh the whole catalog if asked, and show the toast.
    Settled { refresh_all: bool, level: ToastLevel, body: ToastBody },
}

/// Polling gives up after this many polls.
pub const SNAPSHOT_POLL_LIMIT: usize = 600;

/// Milliseconds between polls.
pub const SNAPSHOT_POLL_INTERVAL_MS: i32 = 500;

/// The poll decision after the cold-start / Command Mode snapshot request:
/// running keeps polling; done refreshes everything and shows the counts;
/// failed shows the error; any other state refreshes and says it finished.
pub open spec fn settle_step_spec(status: Result<SnapshotStatus, String>, step: PollStep) -> bool {
    match status {
        Ok(st) => if eq_ignore_case(st.state@, "running"@) {
            step is KeepPolling
        } else if eq_ignore_case(st.state@, "done"@) {
            step matches PollStep::Settled { refresh_all, level, body } && refresh_all && level
                == ToastLevel::Info && match st.last {
                Some(l) => body == ToastBody::Snapshot {
                    added: l.added,
                    modified: l.modified,
                    removed: l.removed,
                },
                None => (body matches ToastBody::Text(m) && m@ == "Snapshot done"@),
            }
        } else if eq_ignore_case(st.state@, "failed"@) {
            step matches PollStep::Settled { refresh_all, level, body } && !refresh_all && level
                == ToastLevel::Error && (body matches ToastBody::Text(m) && m@ == match st.last {
                Some(l) => match l.error {
                    Some(e) => e@,
                    None => "Snapshot failed"@,
                },
                None => "Snapshot failed"@,
            })
        } else {
            step matches PollStep::Settled { refresh_all, level, body } && refresh_all && level
                == ToastLevel::Info && (body matches ToastBody::Text(m) && m@ == "Snapshot finished"@)
        },
        Err(e) => step matches PollStep::Settled { refresh_all, level, body } && !refresh_all && level
            == ToastLevel::Error && (body matches ToastBody::Text(m) && m@ == e@),
    }
}

fn text_of(s: &str) -> (r: String)
    ensures
        r@ == s@,
{
    let mut r = String::new();
    push_all(&mut r, s);
    r
}

/// One poll of the snapshot status (see [`settle_step_spec`]).
pub fn settle_step(status: Result<SnapshotStatus, String>) -> (step: PollStep)
    ensures
        settle_step_spec(status, step),
{
    match status {
        Ok(st) => {
            if str_eq_ignore_case(st.state.as_str(), "running") {
                PollStep::KeepPolling
            } else if str_eq_ignore_case(st.state.as_str(), "done") {
                let body = match st.last {
                    Some(l) => ToastBody::Snapshot { added: l.added, modified: l.modified, removed: l.removed },
                    None => ToastBody::Text(text_of("Snapshot done")),
                };
                PollStep::Settled { refresh_all: true, level: ToastLevel::Info, body }
            } else if str_eq_ignore_case(st.state.as_str(), "failed") {
                let msg = match st.last {
                    Some(l) => match l.error {
                        Some(e) => e,
                        None => text_of("Snapshot failed"),
                    },
                    None => text_of("Snapshot failed"),
                };
                PollStep::Settled { refresh_all: false, level: ToastLevel::Error, body: ToastBody::Text(msg) }
            } else {
                PollStep::Settled {
                    refresh_all: true,
                    level: ToastLevel::Info,
                    body: ToastBody::Text(text_of("Snapshot finished")),
                }
            }
        },
        Err(e) => PollStep::Settled { refresh_all: false, level: ToastLevel::Error, body: ToastBody::Text(e) },
    }
}

/// The toast when polling gave up.
pub fn still_running_message() -> (r: String)
    ensures
        r@ == "Snapshot still running — check later"@,
{
    text_of("Snapshot still running — check later")
}

/// `Snapshot done +a ~m -r`.
pub open spec fn snapshot_done_text(a: nat, m: nat, r: nat) -> Seq<char> {
    "Snapshot done +"@ + decimal_spec(a) + " ~"@ + decimal_spec(m) + " -"@ + decimal_spec(r)
}

/// Command Mode `s` polling: the same decisions, as plain toast texts.
pub open spec fn chord_poll_spec(status: Result<SnapshotStatus, String>, keep: bool, refresh: bool, msg: Seq<char>) -> bool {
    match status {
        Ok(st) => if eq_ignore_case(st.state@, "running"@) {
            keep && !refresh && msg.len() == 0
        } else if eq_ignore_case(st.state@, "done"@) {
            !keep && refresh && msg == match st.last {
                Some(l) => snapshot_done_text(l.added as nat, l.modified as nat, l.removed as nat),
                None => "Snapshot done"@,
            }
        } else if eq_ignore_case(st.state@, "failed"@) {
            !keep && !refresh && msg == match st.last {
                Some(l) => match l.error {
                    Some(e) => e@,
                    None => "Snapshot failed"@,
                },
                None => "Snapshot failed"@,
            }
        } else {
            !keep && refresh && msg == "Snapshot finished"@
        },
        Err(e) => !keep && !refresh && msg == e@,
    }
}

/// One poll after Command Mode `s`: `(keep polling, refresh, toast text)`.
pub fn chord_poll_step(status: Result<SnapshotStatus, String>) -> (r: (bool, bool, String))
    ensures
        chord_poll_spec(status, r.0, r.1, r.2@),
{
    match status {
        Ok(st) => {
            if str_eq_ignore_case(st.state.as_str(), "running") {
                (true, false, String::new())
            } else if str_eq_ignore_case(st.state.as_str(), "done") {
                let msg = match st.last {
                    Some(l) => {
                        let mut m = text_num_text("Snapshot done +", l.added as u64, " ~");
                        let b = decimal_string(l.modified as u64);
                        push_all(&mut m, b.as_str());
                        push_all(&mut m, " -");
                        let c = decimal_string(l.removed as u64);
                        push_all(&mut m, c.as_str());
                        assert(m@ =~= snapshot_done_text(l.added as nat, l.modified as nat, l.removed as nat));
                        m
                    },
                    None => text_of("Snapshot done"),
                };
                (false, true, msg)
            } else if str_eq_ignore_case(st.state.as_str(), "failed") {
                let msg = match st.last {
                    Some(l) => match l.error {
                        Some(e) => e,
                        None => text_of("Snapshot failed"),
                    },
                    None => text_of("Snapshot failed"),
                };
                (false, false, msg)
            } else {
                (false, true, text_of("Snapshot finished"))
            }
        },
        Err(e) => (false, false, e),
    }
}

/// After a duplicate scan: switch to Duplicates when groups were found, and the toast.
pub fn duplicates_outcome(groups: usize) -> (r: (bool, String))
    ensures
        r.0 == (groups > 0),
        groups == 0 ==> r.1@ == "No duplicates found"@,
        groups > 0 ==> r.1@ == "Duplicates: "@ + decimal_spec(groups as nat) + " group(s)"@,
{
    if groups == 0 {
        (false, text_of("No duplicates found"))
    } else {
        (true, text_num_text("Duplicates: ", groups as u64, " group(s)"))
    }
}

/// Toast after exporting Zahir JSON.
pub fn export_zahir_message(count: usize) -> (r: String)
    ensures
        count == 0 ==> r@ == "No Zahir JSON to export — retake snapshot after enhance"@,
        count > 0 ==> r@ == "Exported "@ + decimal_spec(count as nat) + " Zahir JSON file(s)"@,
{
    if count == 0 {
        text_of("No Zahir JSON to export — retake snapshot after enhance")
    } else {
        text_num_text("Exported ", count as u64, " Zahir JSON file(s)")
    }
}

/// Toast after exporting lenses.
pub fn export_lenses_message(count: usize) -> (r: String)
    ensures
        count == 0 ==> r@ == "No lenses to export — create a lens first"@,
        count > 0 ==> r@ == "Exported "@ + decimal_spec(count as nat) + " lens Markdown file(s)"@,
{
    if count == 0 {
        text_of("No lenses to export — create a lens first")
    } else {
        text_num_text("Exported ", count as u64, " lens Markdown file(s)")
    }
}

/// Toast after switching the served root.
pub fn switched_root_message(path: &str) -> (r: String)
    ensures
        r@ == "Switched to "@ + path@,
{
    let mut r = text_of("Switched to ");
    push_all(&mut r, path);
    r
}

// ---------------------------------------------------------------------------
// Timestamps
// ---------------------------------------------------------------------------

/// `n` in at least `w` characters, zero-padded after any sign (`{:0w}`).
pub open spec fn zero_pad_spec(n: int, w: nat) -> Seq<char> {
    let digits = decimal_spec(if n < 0 { (-n) as nat } else { n as nat });
    let sign: Seq<char> = if n < 0 { seq!['-'] } else { Seq::empty() };
    let room: int = w - sign.len() - digits.len();
    sign + Seq::new(if room > 0 { room as nat } else { 0 }, |i: int| '0') + digits
}

fn zero_pad(n: i64, w: usize) -> (r: String)
    requires
        w <= 8,
    ensures
        r@ == zero_pad_spec(n as int, w as nat),
{
    let m: u64 = if n < 0 {
        if n == i64::MIN { 9223372036854775808u64 } else { (-n) as u64 }
    } else {
        n as u64
    };
    let digits = crate::text::decimal_chars(m);
    let mut r = String::new();
    let sign_len: usize = if n < 0 { 1 } else { 0 };
    if n < 0 {
        string_push(&mut r, '-');
    }
    let ghost start = r@;
    let dl = digits.len();
    let room: usize = if w > sign_len && w - sign_len > dl { w - sign_len - dl } else { 0 };
    let mut i: usize = 0;
    while i < room
        invariant
            i <= room,
            r@ == start + Seq::new(i as nat, |k: int| '0'),
        decreases room - i,
    {
        string_push(&mut r, '0');
        i += 1;
        assert(r@ =~= start + Seq::new(i as nat, |k: int| '0'));
    }
    push_chars(&mut r, &digits);
    proof {
        assert(m as int == (if n < 0 { -(n as int) } else { n as int }));
    }
    r
}

/// Local `YYYY-MM-DD HH:MM:SS` from calendar parts (`month0` counts from 0).
pub open spec fn date_time_spec(year: i32, month0: u32, day: u32, hours: u32, minutes: u32, seconds: u32) -> Seq<char> {
    zero_pad_spec(year as int, 4) + "-"@ + zero_pad_spec(month0 + 1, 2) + "-"@ + zero_pad_spec(day as int, 2) + " "@
        + zero_pad_spec(hours as int, 2) + ":"@ + zero_pad_spec(minutes as int, 2) + ":"@ + zero_pad_spec(
        seconds as int,
        2,
    )
}

/// Formats calendar parts as `YYYY-MM-DD HH:MM:SS`.
pub fn format_date_time(year: i32, month0: u32, day: u32, hours: u32, minutes: u32, seconds: u32) -> (r: String)
    requires
        month0 < u32::MAX,
    ensures
        r@ == date_time_spec(year, month0, day, hours, minutes, seconds),
{
    let mut r = zero_pad(year as i64, 4);
    push_all(&mut r, "-");
    let a = zero_pad((month0 + 1) as i64, 2);
    push_all(&mut r, a.as_str());
    push_all(&mut r, "-");
    let b = zero_pad(day as i64, 2);
    push_all(&mut r, b.as_str());
    push_all(&mut r, " ");
    let c = zero_pad(hours as i64, 2);
    push_all(&mut r, c.as_str());
    push_all(&mut r, ":");
    let d = zero_pad(minutes as i64, 2);
    push_all(&mut r, d.as_str());
    push_all(&mut r, ":");
    let e = zero_pad(seconds as i64, 2);
    push_all(&mut r, e.as_str());
    r
}

} // verus!

verus! {

// ---------------------------------------------------------------------------
// Zahir sections
// ---------------------------------------------------------------------------

/// The Templates text from the pretty-printed `templates` value: nothing
/// when it is absent, empty, `null` or `[]`.
pub open spec fn templates_text_spec(pretty: Option<Seq<char>>) -> Seq<char> {
    match pretty {
        Some(t) => if t.len() == 0 || t == "null"@ || t == "[]"@ {
            Seq::empty()
        } else {
            t
        },
        None => Seq::empty(),
    }
}

/// Picks the Templates text (see [`templates_text_spec`]).
pub fn templates_text(pretty: Option<String>) -> (r: String)
    ensures
        r@ == templates_text_spec(
            match pretty {
                Some(t) => Some(t@),
                None => None,
            },
        ),
{
    match pretty {
        Some(t) => {
            if t.as_str().is_empty() || str_eq(t.as_str(), "null") || str_eq(t.as_str(), "[]") {
                String::new()
            } else {
                t
            }
        },
        None => String::new(),
    }
}

/// Whether a metadata value takes the payload's root `file_type`: when the
/// root has one, the value is an object, and the object has no `file_type`
/// of its own.
pub fn takes_root_file_type(root_has_file_type: bool, value_is_object: bool, value_has_file_type: bool) -> (r: bool)
    ensures
        r == (root_has_file_type && value_is_object && !value_has_file_type),
{
    root_has_file_type && value_is_object && !value_has_file_type
}

/// An object entry that feeds the Metadata section: its key ends in
/// `_metadata` and its value was printed.
pub open spec fn metadata_entry(e: (String, Option<String>)) -> bool {
    ends_with_spec(e.0@, "_metadata"@) && e.1 is Some
}

/// The printed text of an entry.
pub open spec fn entry_text(e: (String, Option<String>)) -> Seq<char> {
    match e.1 {
        Some(t) => t@,
        None => Seq::empty(),
    }
}

/// The texts of the metadata entries, in object order.
pub open spec fn metadata_parts(entries: Seq<(String, Option<String>)>) -> Seq<Seq<char>> {
    entries.filter(|e: (String, Option<String>)| metadata_entry(e)).map_values(
        |e: (String, Option<String>)| entry_text(e),
    )
}

proof fn lemma_metadata_parts_step(entries: Seq<(String, Option<String>)>, i: int)
    requires
        0 <= i < entries.len(),
    ensures
        metadata_parts(entries.take(i + 1)) == (if metadata_entry(entries[i]) {
            metadata_parts(entries.take(i)).push(entry_text(entries[i]))
        } else {
            metadata_parts(entries.take(i))
        }),
{
    assert(entries.take(i + 1).drop_last() =~= entries.take(i));
    reveal_with_fuel(Seq::<_>::filter, 1);
    let f = |e: (String, Option<String>)| metadata_entry(e);
    let g = |e: (String, Option<String>)| entry_text(e);
    if metadata_entry(entries[i]) {
        assert(entries.take(i + 1).filter(f) == entries.take(i).filter(f).push(entries[i]));
        assert(entries.take(i).filter(f).push(entries[i]).map_values(g) =~= entries.take(i).filter(f).map_values(
            g,
        ).push(g(entries[i])));
    }
}

/// The Metadata section from a Zahir object's entries, each with its key and
/// its pretty-printed value (with the root `file_type` merged in): the
/// `_metadata` entries joined by a blank line, or nothing when there is none.
pub fn metadata_text(entries: &Vec<(String, Option<String>)>) -> (r: Option<String>)
    ensures
        metadata_parts(entries@).len() == 0 ==> r is None,
        metadata_parts(entries@).len() > 0 ==> (r matches Some(t) && t@ == join_spec(
            metadata_parts(entries@),
            "\n\n"@,
        )),
{
    proof {
        reveal_strlit("_metadata");
    }
    let suffix = chars_of("_metadata");
    let mut parts: Vec<String> = Vec::new();
    let mut i: usize = 0;
    while i < entries.len()
        invariant
            i <= entries@.len(),
            suffix@ == "_metadata"@,
            parts@.map_values(|p: String| p@) == metadata_parts(entries@.take(i as int)),
        decreases entries@.len() - i,
    {
        proof {
            lemma_metadata_parts_step(entries@, i as int);
        }
        let key = chars_of(entries[i].0.as_str());
        match &entries[i].1 {
            Some(t) => {
                if crate::text::chars_ends_with(&key, &suffix) {
                    let ghost before = parts@;
                    parts.push(t.clone());
                    proof {
                        assert(parts@.map_values(|p: String| p@) =~= before.map_values(|p: String| p@).push(t@));
                    }
                }
            },
            None => {},
        }
        i += 1;
    }
    proof {
        assert(entries@.take(entries@.len() as int) =~= entries@);
    }
    if parts.len() == 0 {
        None
    } else {
        Some(join_strings(&parts, "\n\n"))
    }
}

} // verus!

verus! {

// ---------------------------------------------------------------------------
// The snapshot poll loop
// ---------------------------------------------------------------------------

/// What the poll loop does after an answer.
pub enum PollTurn {
    /// Still running and polls are left: wait and poll again.
    PollAgain,
    /// Still running after the last allowed poll: stop and warn.
    GiveUp { level: ToastLevel, body: ToastBody },
    /// Settled (see [`settle_step_spec`]).
    Settled { refresh_all: bool, level: ToastLevel, body: ToastBody },
}

/// The status reports a snapshot still running.
pub open spec fn still_running(status: Result<SnapshotStatus, String>) -> bool {
    status matches Ok(st) && eq_ignore_case(st.state@, "running"@)
}

/// After the answer to poll number `attempts` (counting from 1): a running
/// snapshot is polled again until [`SNAPSHOT_POLL_LIMIT`] polls were made,
/// then the loop gives up with a warning and no refresh; any other answer
/// settles as [`settle_step_spec`] says.
pub open spec fn poll_turn_spec(attempts: usize, status: Result<SnapshotStatus, String>, r: PollTurn) -> bool {
    if still_running(status) {
        if attempts < SNAPSHOT_POLL_LIMIT {
            r is PollAgain
        } else {
            r matches PollTurn::GiveUp { level, body } && level == ToastLevel::Warn && (body matches ToastBody::Text(
                m,
            ) && m@ == "Snapshot still running — check later"@)
        }
    } else {
        r matches PollTurn::Settled { refresh_all, level, body } && settle_step_spec(
            status,
            PollStep::Settled { refresh_all, level, body },
        )
    }
}

/// One turn of the poll loop after a snapshot request (see [`poll_turn_spec`]).
pub fn poll_turn(attempts: usize, status: Result<SnapshotStatus, String>) -> (r: PollTurn)
    ensures
        poll_turn_spec(attempts, status, r),
{
    match settle_step(status) {
        PollStep::KeepPolling => {
            if attempts < SNAPSHOT_POLL_LIMIT {
                PollTurn::PollAgain
            } else {
                PollTurn::GiveUp { level: ToastLevel::Warn, body: ToastBody::Text(still_running_message()) }
            }
        },
        PollStep::Settled { refresh_all, level, body } => PollTurn::Settled { refresh_all, level, body },
    }
}

/// One turn of Command Mode `s` polling: `(poll again, refresh, toast text)`.
/// A running snapshot is polled again until [`SNAPSHOT_POLL_LIMIT`] polls,
/// then the text says it is still running; other answers as
/// [`chord_poll_spec`].
pub fn chord_poll_turn(attempts: usize, status: Result<SnapshotStatus, String>) -> (r: (bool, bool, String))
    ensures
        still_running(status) && attempts < SNAPSHOT_POLL_LIMIT ==> r.0 && !r.1 && r.2@.len() == 0,
        still_running(status) && attempts >= SNAPSHOT_POLL_LIMIT ==> !r.0 && !r.1 && r.2@
            == "Snapshot still running — check later"@,
        !still_running(status) ==> chord_poll_spec(status, r.0, r.1, r.2@),
{
    let (keep, refresh, msg) = chord_poll_step(status);
    if keep && attempts >= SNAPSHOT_POLL_LIMIT {
        (false, false, still_running_message())
    } else {
        (keep, refresh, msg)
    }
}

} // verus!
