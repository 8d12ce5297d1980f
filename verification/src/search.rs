//! Catalog search (`/`): client-side fuzzy filtering of labels, categories and paths.
//!
//! Scores come from the skim fuzzy matcher of the `fuzzy-matcher` crate; every
//! filter here is verified against the score that matcher gives.

use vstd::prelude::*;
use fuzzy_matcher::FuzzyMatcher;

use crate::sort::{insertion_sort, key_path_le, sorted_by, Order};
use crate::text::{chars_lt, chars_of, lemma_trim_idempotent, trim_spec, trim_str};

verus! {

/// The score the default skim matcher (`SkimMatcherV2::default()`) gives `choice`
/// for `pattern`, or `None` when it does not match.
pub uninterp spec fn skim_score(choice: Seq<char>, pattern: Seq<char>) -> Option<i64>;

/// `SkimMatcherV2::default().fuzzy_match(choice, pattern)`: the result is the
/// matcher's score for these two strings and depends on nothing else.
#[verifier::external_body]
fn skim_fuzzy_match(choice: &str, pattern: &str) -> (r: Option<i64>)
    ensures
        r == skim_score(choice@, pattern@),
{
    fuzzy_matcher::skim::SkimMatcherV2::default().fuzzy_match(choice, pattern)
}

/// Placeholder shown in an empty list while a search query is active.
pub open spec fn no_matches_text() -> Seq<char> {
    "(no matches)"@
}

/// Score of `haystack` for the trimmed `needle`; `None` for an empty needle.
pub open spec fn fuzzy_score_spec(haystack: Seq<char>, needle: Seq<char>) -> Option<i64> {
    let q = trim_spec(needle);
    if q.len() == 0 {
        None
    } else {
        skim_score(haystack, q)
    }
}

/// Best score over a row's path and category.
pub open spec fn row_score_spec(path: Seq<char>, category: Seq<char>, needle: Seq<char>) -> Option<i64> {
    best_score_spec(fuzzy_score_spec(path, needle), fuzzy_score_spec(category, needle))
}

/// `haystack` is kept by a search for `needle` (an empty needle keeps everything).
pub open spec fn matches_spec(haystack: Seq<char>, needle: Seq<char>) -> bool {
    trim_spec(needle).len() == 0 || skim_score(haystack, trim_spec(needle)) is Some
}

/// Score of `haystack` for `needle` after trimming; `None` when the trimmed needle is empty.
pub fn fuzzy_score(haystack: &str, needle: &str) -> (r: Option<i64>)
    ensures
        r == fuzzy_score_spec(haystack@, needle@),
{
    let q = trim_str(needle);
    if q.as_str().is_empty() {
        return None;
    }
    skim_fuzzy_match(haystack, q.as_str())
}

/// Idle empty-pane text, or `(no matches)` while a search query is active.
pub fn empty_list_message(search_query: &str, idle: &'static str) -> (r: &'static str)
    ensures
        trim_spec(search_query@).len() == 0 ==> r@ == idle@,
        trim_spec(search_query@).len() != 0 ==> r@ == no_matches_text(),
{
    let q = trim_str(search_query);
    if q.as_str().is_empty() {
        idle
    } else {
        "(no matches)"
    }
}

/// Middle-pane `(label, key)` pairs where both are the path.
pub fn path_rows(paths: Vec<String>) -> (r: Vec<(String, String)>)
    ensures
        r@.len() == paths@.len(),
        forall|i: int| 0 <= i < r@.len() ==> #[trigger] r@[i] == (paths@[i], paths@[i]),
{
    let mut r: Vec<(String, String)> = Vec::new();
    let mut i: usize = 0;
    while i < paths.len()
        invariant
            i <= paths@.len(),
            r@.len() == i,
            forall|k: int| 0 <= k < i ==> #[trigger] r@[k] == (paths@[k], paths@[k]),
        decreases paths@.len() - i,
    {
        r.push((paths[i].clone(), paths[i].clone()));
        i += 1;
    }
    r
}

/// The better of two optional scores: the larger when both matched, the one
/// that matched otherwise.
pub open spec fn best_score_spec(a: Option<i64>, b: Option<i64>) -> Option<i64> {
    match (a, b) {
        (Some(x), Some(y)) => Some(if x >= y { x } else { y }),
        (Some(x), None) => Some(x),
        (None, Some(y)) => Some(y),
        (None, None) => None,
    }
}

/// The better of a row's path score and category score.
pub fn best_score(a: Option<i64>, b: Option<i64>) -> (r: Option<i64>)
    ensures
        r == best_score_spec(a, b),
{
    match (a, b) {
        (Some(x), Some(y)) => Some(if x >= y { x } else { y }),
        (Some(x), None) => Some(x),
        (None, Some(y)) => Some(y),
        (None, None) => None,
    }
}

/// Best fuzzy score for a row's path or category.
pub fn row_fuzzy_score(path: &str, category: &str, needle: &str) -> (r: Option<i64>)
    ensures
        r == row_score_spec(path@, category@, needle@),
{
    best_score(fuzzy_score(path, needle), fuzzy_score(category, needle))
}

/// True when `haystack` fuzzy-matches the trimmed `needle` (always true for an empty needle).
pub fn fuzzy_matches_field(haystack: &str, needle: &str) -> (r: bool)
    ensures
        r == matches_spec(haystack@, needle@),
{
    let q = trim_str(needle);
    if q.as_str().is_empty() {
        return true;
    }
    proof {
        lemma_trim_idempotent(needle@);
    }
    fuzzy_score(haystack, q.as_str()).is_some()
}

/// Labels (lens names, …) kept by the search, in their original order.
pub fn filter_labels(labels: &Vec<String>, search_query: &str) -> (r: Vec<String>)
    ensures
        r@ == labels@.filter(|l: String| matches_spec(l@, search_query@)),
{
    let ghost pred = |l: String| matches_spec(l@, search_query@);
    let mut r: Vec<String> = Vec::new();
    let mut i: usize = 0;
    while i < labels.len()
        invariant
            i <= labels@.len(),
            pred == (|l: String| matches_spec(l@, search_query@)),
            r@ == labels@.take(i as int).filter(pred),
        decreases labels@.len() - i,
    {
        proof {
            reveal_with_fuel(Seq::<_>::filter, 1);
            assert(labels@.take(i + 1).drop_last() =~= labels@.take(i as int));
        }
        if fuzzy_matches_field(labels[i].as_str(), search_query) {
            r.push(labels[i].clone());
        }
        i += 1;
    }
    assert(labels@.take(labels@.len() as int) =~= labels@);
    r
}

/// A category is kept when its label matches or some row of that category matches
/// by path or category.
pub open spec fn category_kept(cat: Seq<char>, rows: Seq<(String, String)>, q: Seq<char>) -> bool {
    matches_spec(cat, q) || exists|j: int|
        0 <= j < rows.len() && #[trigger] rows[j].1@ == cat && row_score_spec(
            rows[j].0@,
            rows[j].1@,
            q,
        ) is Some
}

fn any_row_matches(rows: &Vec<(String, String)>, cat: &String, q: &str) -> (r: bool)
    ensures
        r == exists|j: int|
            0 <= j < rows@.len() && #[trigger] rows@[j].1@ == cat@ && row_score_spec(
                rows@[j].0@,
                rows@[j].1@,
                q@,
            ) is Some,
{
    let mut j: usize = 0;
    while j < rows.len()
        invariant
            j <= rows@.len(),
            forall|k: int|
                0 <= k < j ==> !(#[trigger] rows@[k].1@ == cat@ && row_score_spec(
                    rows@[k].0@,
                    rows@[k].1@,
                    q@,
                ) is Some),
        decreases rows@.len() - j,
    {
        if rows[j].1 == *cat && row_fuzzy_score(rows[j].0.as_str(), rows[j].1.as_str(), q).is_some() {
            return true;
        }
        j += 1;
    }
    false
}

/// Categories kept when the label matches or any row in that category matches;
/// every category when the query is blank.
pub fn filter_categories(
    categories: &Vec<String>,
    rows: &Vec<(String, String)>,
    search_query: &str,
) -> (r: Vec<String>)
    ensures
        trim_spec(search_query@).len() == 0 ==> r@ == categories@,
        trim_spec(search_query@).len() != 0 ==> r@ == categories@.filter(
            |c: String| category_kept(c@, rows@, search_query@),
        ),
{
    let q = trim_str(search_query);
    if q.as_str().is_empty() {
        return categories.clone();
    }
    proof {
        lemma_trim_idempotent(search_query@);
        lemma_trimmed_query_scores(search_query@);
    }
    let ghost pred = |c: String| category_kept(c@, rows@, search_query@);
    let mut r: Vec<String> = Vec::new();
    let mut i: usize = 0;
    while i < categories.len()
        invariant
            i <= categories@.len(),
            q@ == trim_spec(search_query@),
            trim_spec(q@) == q@,
            q@.len() != 0,
            pred == (|c: String| category_kept(c@, rows@, search_query@)),
            r@ == categories@.take(i as int).filter(pred),
            forall|h: Seq<char>| #[trigger] matches_spec(h, q@) == matches_spec(h, search_query@),
            forall|p: Seq<char>, c: Seq<char>| #[trigger] row_score_spec(p, c, q@) == row_score_spec(p, c, search_query@),
        decreases categories@.len() - i,
    {
        proof {
            reveal_with_fuel(Seq::<_>::filter, 1);
            assert(categories@.take(i + 1).drop_last() =~= categories@.take(i as int));
        }
        let keep = fuzzy_matches_field(categories[i].as_str(), q.as_str()) || any_row_matches(
            rows,
            &categories[i],
            q.as_str(),
        );
        if keep {
            r.push(categories[i].clone());
        }
        i += 1;
    }
    assert(categories@.take(categories@.len() as int) =~= categories@);
    r
}

/// Scoring with the trimmed query equals scoring with the raw query.
proof fn lemma_trimmed_query_scores(q: Seq<char>)
    ensures
        forall|h: Seq<char>| #[trigger] matches_spec(h, trim_spec(q)) == matches_spec(h, q),
        forall|p: Seq<char>, c: Seq<char>| #[trigger] row_score_spec(p, c, trim_spec(q)) == row_score_spec(p, c, q),
        forall|h: Seq<char>| #[trigger] fuzzy_score_spec(h, trim_spec(q)) == fuzzy_score_spec(h, q),
{
    lemma_trim_idempotent(q);
}

// ---------------------------------------------------------------------------
// Score-ordered results
// ---------------------------------------------------------------------------

/// Search result order: higher score first, then path in `str` order.
pub struct ScoredOrder;

impl Order<(i64, String)> for ScoredOrder {
    open spec fn le(&self, a: (i64, String), b: (i64, String)) -> bool {
        key_path_le(-(a.0 as int), a.1@, -(b.0 as int), b.1@)
    }

    proof fn lemma_total(&self, a: (i64, String), b: (i64, String)) {
        crate::text::lemma_lex_lt_total(a.1@, b.1@);
    }

    proof fn lemma_trans(&self, a: (i64, String), b: (i64, String), c: (i64, String)) {
        if a.0 == b.0 && b.0 == c.0 {
            crate::text::lemma_lex_le_transitive(a.1@, b.1@, c.1@);
        }
    }

    fn le_exec(&self, a: &(i64, String), b: &(i64, String)) -> (r: bool) {
        if a.0 > b.0 {
            return true;
        }
        if a.0 < b.0 {
            return false;
        }
        let x = chars_of(a.1.as_str());
        let y = chars_of(b.1.as_str());
        chars_lt(&x, &y) || a.1 == b.1
    }
}

/// `sorted` holds the entries of `scored` in result order, and `r` their paths.
pub open spec fn sorted_paths_of(r: Seq<String>, scored: Seq<(i64, String)>) -> bool {
    exists|t: Seq<(i64, String)>|
        #![trigger t.to_multiset()]
        t.to_multiset() == scored.to_multiset() && sorted_by(&ScoredOrder, t) && r
            == t.map_values(|p: (i64, String)| p.1)
}

/// Paths ordered by score (highest first), ties by path.
pub fn sort_scored(scored: Vec<(i64, String)>) -> (r: Vec<String>)
    ensures
        sorted_paths_of(r@, scored@),
{
    let ghost input = scored@;
    let sorted = insertion_sort(scored, &ScoredOrder);
    let mut r: Vec<String> = Vec::new();
    let mut i: usize = 0;
    while i < sorted.len()
        invariant
            i <= sorted@.len(),
            r@ == sorted@.take(i as int).map_values(|p: (i64, String)| p.1),
        decreases sorted@.len() - i,
    {
        r.push(sorted[i].1.clone());
        i += 1;
        assert(r@ =~= sorted@.take(i as int).map_values(|p: (i64, String)| p.1));
    }
    assert(sorted@.take(sorted@.len() as int) =~= sorted@);
    assert(sorted@.to_multiset() == input.to_multiset());
    r
}

/// The `(score, path)` pairs of the paths that match `q`, in input order.
pub open spec fn scored_paths_spec(paths: Seq<String>, q: Seq<char>) -> Seq<(i64, String)> {
    paths.filter_map(
        |p: String|
            match fuzzy_score_spec(p@, q) {
                Some(s) => Some((s, p)),
                None => None,
            },
    )
}

/// Path-only fuzzy filter (Delta / Lenses / Duplicates members): everything for a
/// blank query, else the matching paths by score (highest first), ties by path.
pub fn filter_paths(paths: &Vec<String>, search_query: &str) -> (r: Vec<String>)
    ensures
        trim_spec(search_query@).len() == 0 ==> r@ == paths@,
        trim_spec(search_query@).len() != 0 ==> sorted_paths_of(
            r@,
            scored_paths_spec(paths@, search_query@),
        ),
{
    let q = trim_str(search_query);
    if q.as_str().is_empty() {
        return paths.clone();
    }
    proof {
        lemma_trimmed_query_scores(search_query@);
    }
    let ghost f = |p: String|
        match fuzzy_score_spec(p@, search_query@) {
            Some(s) => Some((s, p)),
            None => None,
        };
    let mut scored: Vec<(i64, String)> = Vec::new();
    let mut i: usize = 0;
    while i < paths.len()
        invariant
            i <= paths@.len(),
            q@ == trim_spec(search_query@),
            forall|h: Seq<char>| #[trigger] fuzzy_score_spec(h, q@) == fuzzy_score_spec(h, search_query@),
            f == (|p: String|
                match fuzzy_score_spec(p@, search_query@) {
                    Some(s) => Some((s, p)),
                    None => None,
                }),
            scored@ == paths@.take(i as int).filter_map(f),
        decreases paths@.len() - i,
    {
        proof {
            paths@.lemma_filter_map_take_succ(f, i as int);
        }
        match fuzzy_score(paths[i].as_str(), q.as_str()) {
            Some(s) => {
                scored.push((s, paths[i].clone()));
            },
            None => {},
        }
        i += 1;
    }
    assert(paths@.take(paths@.len() as int) =~= paths@);
    sort_scored(scored)
}

/// The `(score, path)` pairs of the rows in `selected` (any category when `None`)
/// whose path or category matches `q`, in input order.
pub open spec fn scored_rows_spec(
    rows: Seq<(String, String)>,
    selected: Option<Seq<char>>,
    q: Seq<char>,
) -> Seq<(i64, String)> {
    rows.filter_map(
        |row: (String, String)|
            if selected is None || selected == Some(row.1@) {
                match row_score_spec(row.0@, row.1@, q) {
                    Some(s) => Some((s, row.0)),
                    None => None,
                }
            } else {
                None
            },
    )
}

/// The paths of the rows in `selected` (any category when `None`), in input order.
pub open spec fn rows_in_category(rows: Seq<(String, String)>, selected: Option<Seq<char>>) -> Seq<
    String,
> {
    rows.filter_map(
        |row: (String, String)|
            if selected is None || selected == Some(row.1@) {
                Some(row.0)
            } else {
                None
            },
    )
}

/// Snapshot contents: rows of the selected category; with a non-blank query only
/// the matching ones, by score (highest first), ties by path.
pub fn filter_snapshot_paths(
    rows: &Vec<(String, String)>,
    selected_category: Option<&str>,
    search_query: &str,
) -> (r: Vec<String>)
    ensures
        trim_spec(search_query@).len() == 0 ==> r@ == rows_in_category(
            rows@,
            match selected_category {
                Some(c) => Some(c@),
                None => None,
            },
        ),
        trim_spec(search_query@).len() != 0 ==> sorted_paths_of(
            r@,
            scored_rows_spec(
                rows@,
                match selected_category {
                    Some(c) => Some(c@),
                    None => None,
                },
                search_query@,
            ),
        ),
{
    let ghost sel: Option<Seq<char>> = match selected_category {
        Some(c) => Some(c@),
        None => None,
    };
    let q = trim_str(search_query);
    if q.as_str().is_empty() {
        let ghost g = |row: (String, String)|
            if sel is None || sel == Some(row.1@) {
                Some(row.0)
            } else {
                None
            };
        let mut out: Vec<String> = Vec::new();
        let mut i: usize = 0;
        while i < rows.len()
            invariant
                i <= rows@.len(),
                sel == (match selected_category {
                    Some(c) => Some(c@),
                    None => None,
                }),
                g == (|row: (String, String)|
                    if sel is None || sel == Some(row.1@) {
                        Some(row.0)
                    } else {
                        None
                    }),
                out@ == rows@.take(i as int).filter_map(g),
            decreases rows@.len() - i,
        {
            proof {
                rows@.lemma_filter_map_take_succ(g, i as int);
            }
            if in_category(&rows[i].1, selected_category) {
                out.push(rows[i].0.clone());
            }
            i += 1;
        }
        assert(rows@.take(rows@.len() as int) =~= rows@);
        return out;
    }
    proof {
        lemma_trimmed_query_scores(search_query@);
    }
    let ghost f = |row: (String, String)|
        if sel is None || sel == Some(row.1@) {
            match row_score_spec(row.0@, row.1@, search_query@) {
                Some(s) => Some((s, row.0)),
                None => None,
            }
        } else {
            None
        };
    let mut scored: Vec<(i64, String)> = Vec::new();
    let mut i: usize = 0;
    while i < rows.len()
        invariant
            i <= rows@.len(),
            q@ == trim_spec(search_query@),
            sel == (match selected_category {
                Some(c) => Some(c@),
                None => None,
            }),
            forall|p: Seq<char>, c: Seq<char>| #[trigger] row_score_spec(p, c, q@) == row_score_spec(p, c, search_query@),
            f == (|row: (String, String)|
                if sel is None || sel == Some(row.1@) {
                    match row_score_spec(row.0@, row.1@, search_query@) {
                        Some(s) => Some((s, row.0)),
                        None => None,
                    }
                } else {
                    None
                }),
            scored@ == rows@.take(i as int).filter_map(f),
        decreases rows@.len() - i,
    {
        proof {
            rows@.lemma_filter_map_take_succ(f, i as int);
        }
        if in_category(&rows[i].1, selected_category) {
            match row_fuzzy_score(rows[i].0.as_str(), rows[i].1.as_str(), q.as_str()) {
                Some(s) => {
                    scored.push((s, rows[i].0.clone()));
                },
                None => {},
            }
        }
        i += 1;
    }
    assert(rows@.take(rows@.len() as int) =~= rows@);
    sort_scored(scored)
}

fn in_category(cat: &String, selected: Option<&str>) -> (r: bool)
    ensures
        r == (match selected {
            Some(c) => cat@ == c@,
            None => true,
        }),
{
    match selected {
        Some(c) => crate::text::str_eq(cat.as_str(), c),
        None => true,
    }
}

} // verus!
