use fuzzy_matcher::skim::SkimMatcherV2;
use fuzzy_matcher::FuzzyMatcher;
use ublx::nav::MainMode;
use ublx::search::{
    empty_list_message, filter_categories, filter_labels, filter_paths, filter_snapshot_paths,
    fuzzy_matches_field, fuzzy_score, path_rows, row_fuzzy_score, sort_scored,
};
use ublx::sort::{
    sort_delta_rows, sort_snapshot_rows, ContentSort, SnapshotSortKey, SortDirection,
};

fn s(x: &str) -> String {
    x.to_string()
}

#[test]
fn content_sort_cycles_per_mode() {
    let start = ContentSort::new();
    assert_eq!(start.node_text(MainMode::Snapshot), Some(s("Name \u{2193}")));
    let a = start.cycle_for_mode(MainMode::Snapshot);
    assert_eq!(a.snapshot_dir, SortDirection::Desc);
    assert_eq!(a.node_text(MainMode::Snapshot), Some(s("Name \u{2191}")));
    let b = a.cycle_for_mode(MainMode::Snapshot);
    assert_eq!(b.snapshot_key, SnapshotSortKey::Size);
    assert_eq!(b.snapshot_dir, SortDirection::Asc);
    let mut c = start;
    for _ in 0..6 {
        c = c.cycle_for_mode(MainMode::Duplicates);
    }
    assert_eq!(c, start);
    let d = start.cycle_for_mode(MainMode::Delta);
    assert_eq!(d.node_text(MainMode::Delta), Some(s("Time \u{2191}")));
    assert_eq!(d.cycle_for_mode(MainMode::Delta), start);
    assert_eq!(start.cycle_for_mode(MainMode::Lenses), start);
    assert_eq!(start.node_text(MainMode::Settings), None);
    assert_eq!(SnapshotSortKey::Mod.label(), "Mod");
    assert_eq!(SortDirection::Asc.arrow(), '\u{2193}');
}

#[test]
fn snapshot_rows_sort_by_key_then_path() {
    let mut rows = vec![
        (s("b.txt"), 30u64, Some(5i64)),
        (s("a.txt"), 10, None),
        (s("c.txt"), 10, Some(9)),
    ];
    let mut by_size = ContentSort::new().cycle_for_mode(MainMode::Snapshot);
    by_size = by_size.cycle_for_mode(MainMode::Snapshot);
    sort_snapshot_rows(&mut rows, by_size);
    let names: Vec<&str> = rows.iter().map(|r| r.0.as_str()).collect();
    assert_eq!(names, vec!["a.txt", "c.txt", "b.txt"]);
    let desc = by_size.cycle_for_mode(MainMode::Snapshot);
    sort_snapshot_rows(&mut rows, desc);
    let names: Vec<&str> = rows.iter().map(|r| r.0.as_str()).collect();
    assert_eq!(names, vec!["b.txt", "c.txt", "a.txt"]);
    let by_mod = ContentSort { snapshot_key: SnapshotSortKey::Mod, ..ContentSort::new() };
    sort_snapshot_rows(&mut rows, by_mod);
    let names: Vec<&str> = rows.iter().map(|r| r.0.as_str()).collect();
    assert_eq!(names, vec!["a.txt", "b.txt", "c.txt"]);
    let mut delta = vec![(5i64, s("x")), (1, s("y")), (5, s("a"))];
    sort_delta_rows(&mut delta, ContentSort::new());
    assert_eq!(delta, vec![(1, s("y")), (5, s("a")), (5, s("x"))]);
}

#[test]
fn fuzzy_score_trims_and_matches_skim() {
    let m = SkimMatcherV2::default();
    assert_eq!(fuzzy_score("src/main.rs", "  main "), m.fuzzy_match("src/main.rs", "main"));
    assert!(fuzzy_score("src/main.rs", "main").is_some());
    assert_eq!(fuzzy_score("src/main.rs", "   "), None);
    assert_eq!(fuzzy_score("abc", "xyz"), None);
    assert!(fuzzy_matches_field("anything", ""));
    assert!(!fuzzy_matches_field("abc", "zz"));
    let best = row_fuzzy_score("docs/readme.md", "Markdown", "mark").unwrap();
    assert_eq!(Some(best), m.fuzzy_match("Markdown", "mark").max(m.fuzzy_match("docs/readme.md", "mark")));
    assert_eq!(row_fuzzy_score("a", "b", "zzz"), None);
}

#[test]
fn filters_keep_matches_in_score_order() {
    assert_eq!(empty_list_message("  ", "(empty)"), "(empty)");
    assert_eq!(empty_list_message("q", "(empty)"), "(no matches)");
    let labels = vec![s("photos"), s("work"), s("physics")];
    assert_eq!(filter_labels(&labels, ""), labels);
    assert_eq!(filter_labels(&labels, "ph"), vec![s("photos"), s("physics")]);
    let paths = vec![s("src/main.rs"), s("lib.rs"), s("README.md")];
    assert_eq!(filter_paths(&paths, " "), paths);
    assert_eq!(filter_paths(&paths, "main"), vec![s("src/main.rs")]);
    assert_eq!(path_rows(vec![s("a")]), vec![(s("a"), s("a"))]);
    let sorted = sort_scored(vec![(5, s("b")), (9, s("z")), (5, s("a"))]);
    assert_eq!(sorted, vec![s("z"), s("a"), s("b")]);
}

#[test]
fn category_and_snapshot_filters() {
    let rows = vec![
        (s("notes/todo.md"), s("Markdown")),
        (s("img/cat.png"), s("Image")),
        (s("notes/plan.md"), s("Markdown")),
    ];
    let cats = vec![s("Markdown"), s("Image")];
    assert_eq!(filter_categories(&cats, &rows, ""), cats);
    assert_eq!(filter_categories(&cats, &rows, "cat"), vec![s("Image")]);
    assert_eq!(filter_categories(&cats, &rows, "mark"), vec![s("Markdown")]);
    assert_eq!(
        filter_snapshot_paths(&rows, Some("Markdown"), ""),
        vec![s("notes/todo.md"), s("notes/plan.md")]
    );
    assert_eq!(filter_snapshot_paths(&rows, None, "").len(), 3);
    assert_eq!(filter_snapshot_paths(&rows, Some("Image"), "cat"), vec![s("img/cat.png")]);
    assert_eq!(filter_snapshot_paths(&rows, Some("Image"), "plan"), Vec::<String>::new());
}
