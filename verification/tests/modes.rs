use ublx::api::{DeltaCatalog, DeltaKind, DeltaRow};
use ublx::keys::{picker_panel_action, KeyInput, WebAction};
use ublx::modes::{
    category_keys, category_of_key, delta_contents, delta_kind_step, duplicate_contents,
    group_ids, group_selection, keeps_category, keeps_path, lens_contents, lens_selection,
    snapshot_contents, visible_groups, DuplicateGroup, LensMembersCache, MembersLookup, SlimEntry,
};
use ublx::nav::MainMode;
use ublx::sort::{ContentSort, SnapshotSortKey, SortDirection};
use ublx::viewer::{range_slices, span_starts, TimedRow};

fn s(x: &str) -> String {
    x.to_string()
}

fn entry(path: &str, cat: &str, size: u64, mtime: Option<i64>) -> SlimEntry {
    SlimEntry { path: s(path), category: s(cat), size, mtime_ns: mtime }
}

fn paths(rows: &[(String, String)]) -> Vec<&str> {
    rows.iter().map(|r| {
        assert_eq!(r.0, r.1);
        r.0.as_str()
    }).collect()
}

#[test]
fn snapshot_contents_by_category_sort_and_search() {
    let entries = vec![
        entry("notes/b.md", "Markdown", 20, Some(3)),
        entry("img/cat.png", "Image", 500, Some(1)),
        entry("notes/a.md", "Markdown", 10, Some(9)),
    ];
    let by_name = ContentSort::new();
    assert_eq!(paths(&snapshot_contents(&entries, None, "", by_name)), vec!["img/cat.png", "notes/a.md", "notes/b.md"]);
    assert_eq!(paths(&snapshot_contents(&entries, Some("Markdown"), " ", by_name)), vec!["notes/a.md", "notes/b.md"]);
    let by_size_desc = ContentSort { snapshot_key: SnapshotSortKey::Size, snapshot_dir: SortDirection::Desc, ..by_name };
    assert_eq!(paths(&snapshot_contents(&entries, None, "", by_size_desc)), vec!["img/cat.png", "notes/b.md", "notes/a.md"]);
    let by_mod = ContentSort { snapshot_key: SnapshotSortKey::Mod, ..by_name };
    assert_eq!(paths(&snapshot_contents(&entries, Some("Markdown"), "", by_mod)), vec!["notes/b.md", "notes/a.md"]);
    assert_eq!(paths(&snapshot_contents(&entries, None, "cat", by_name)), vec!["img/cat.png"]);
    assert!(snapshot_contents(&entries, Some("Markdown"), "cat", by_name).is_empty());
    assert!(snapshot_contents(&vec![], None, "", by_name).is_empty());
}

#[test]
fn selections_follow_lists() {
    let keys = category_keys(&vec![s("Image"), s("Text")]);
    assert_eq!(keys, vec![s(""), s("Image"), s("Text")]);
    assert_eq!(category_of_key(""), None);
    assert_eq!(category_of_key("Text"), Some(s("Text")));
    let visible = vec![s("Image")];
    assert!(keeps_category(None, "x", &visible));
    assert!(keeps_category(Some("Text"), "  ", &visible));
    assert!(!keeps_category(Some("Text"), "x", &visible));
    assert!(keeps_category(Some("Image"), "x", &visible));
    let rows = vec![(s("a"), s("a")), (s("b"), s("b"))];
    assert!(keeps_path(None, &rows));
    assert!(keeps_path(Some("b"), &rows));
    assert!(!keeps_path(Some("c"), &rows));
    let names = vec![s("One"), s("Two")];
    assert_eq!(lens_selection(None, &names), (Some(s("One")), false));
    assert_eq!(lens_selection(Some("Two"), &names), (Some(s("Two")), false));
    assert_eq!(lens_selection(Some("Gone"), &names), (Some(s("One")), true));
    assert_eq!(lens_selection(Some("Gone"), &vec![]), (None, true));
    assert_eq!(lens_selection(None, &vec![]), (None, false));
    assert_eq!(paths(&lens_contents(&vec![s("z.md"), s("a.md")], "")), vec!["z.md", "a.md"]);
    assert_eq!(paths(&lens_contents(&vec![s("z.md"), s("a.md")], "z")), vec!["z.md"]);
}

#[test]
fn duplicate_groups_and_members() {
    let groups = vec![
        DuplicateGroup { id: 3, label: s("photo.jpg"), paths: vec![s("a/photo.jpg"), s("b/photo.jpg")] },
        DuplicateGroup { id: 7, label: s("notes"), paths: vec![s("x/readme.md"), s("y/readme.md"), s("z/readme.md")] },
    ];
    let all = visible_groups(&groups, "");
    assert_eq!(group_ids(&all), vec![3, 7]);
    let hit = visible_groups(&groups, "readme");
    assert_eq!(group_ids(&hit), vec![7]);
    assert_eq!(hit[0].paths.len(), 3);
    assert_eq!(group_ids(&visible_groups(&groups, "notes")), vec![7]);
    assert!(visible_groups(&groups, "qqq").is_empty());
    assert_eq!(group_selection(None, &all), (Some(3), false));
    assert_eq!(group_selection(Some(7), &all), (Some(7), false));
    assert_eq!(group_selection(Some(3), &hit), (Some(7), true));
    assert_eq!(group_selection(Some(3), &vec![]), (None, true));

    let entries = vec![
        entry("z/readme.md", "Markdown", 5, Some(2)),
        entry("x/readme.md", "Markdown", 50, None),
        entry("z/readme.md", "Markdown", 500, Some(1)),
    ];
    let ignored = vec![s("y/readme.md")];
    let by_size = ContentSort { snapshot_key: SnapshotSortKey::Size, ..ContentSort::new() };
    // y ignored; z's last catalog row (500) wins over its first (5).
    assert_eq!(paths(&duplicate_contents(&groups, Some(7), "", by_size, &ignored, &entries)), vec!["x/readme.md", "z/readme.md"]);
    let no_meta = vec![];
    assert_eq!(paths(&duplicate_contents(&groups, Some(7), "", by_size, &vec![], &no_meta)), vec!["x/readme.md", "y/readme.md", "z/readme.md"]);
    assert_eq!(paths(&duplicate_contents(&groups, Some(7), "z/", by_size, &ignored, &entries)), vec!["z/readme.md"]);
    assert!(duplicate_contents(&groups, Some(99), "", by_size, &ignored, &entries).is_empty());
    assert!(duplicate_contents(&groups, None, "", by_size, &ignored, &entries).is_empty());
}

fn row(ns: i64, path: &str, t: &str) -> DeltaRow {
    DeltaRow { created_ns: ns, path: s(path), delta_type: s(t) }
}

fn shape(out: &[TimedRow]) -> Vec<String> {
    out.iter()
        .map(|r| match r {
            TimedRow::Header { created_ns } => format!("H{created_ns}"),
            TimedRow::Path { label, .. } => label.trim().to_string(),
        })
        .collect()
}

#[test]
fn delta_contents_sorted_or_searched() {
    let cat = DeltaCatalog {
        rows: vec![row(9, "b.txt", "added"), row(5, "a.txt", "added"), row(9, "a.txt", "added"), row(5, "m.txt", "mod")],
    };
    let asc = ContentSort::new();
    assert_eq!(shape(&delta_contents(&cat, DeltaKind::Added, "", asc)), vec!["H5", "a.txt", "H9", "a.txt", "b.txt"]);
    let desc = asc.cycle_for_mode(MainMode::Delta);
    assert_eq!(shape(&delta_contents(&cat, DeltaKind::Added, "", desc)), vec!["H9", "b.txt", "a.txt", "H5", "a.txt"]);
    assert_eq!(shape(&delta_contents(&cat, DeltaKind::Added, "b", asc)), vec!["H9", "b.txt"]);
    assert_eq!(shape(&delta_contents(&cat, DeltaKind::Modified, "", asc)), vec!["H5", "m.txt"]);
    assert!(delta_contents(&cat, DeltaKind::Removed, "", asc).is_empty());
    assert_eq!(delta_kind_step(DeltaKind::Added, 1), DeltaKind::Modified);
    assert_eq!(delta_kind_step(DeltaKind::Added, -1), DeltaKind::Added);
    assert_eq!(delta_kind_step(DeltaKind::Modified, 9), DeltaKind::Removed);
    assert_eq!(delta_kind_step(DeltaKind::Removed, i32::MIN), DeltaKind::Added);
}

#[test]
fn lens_members_cache_reads_back_stores() {
    let mut c = LensMembersCache::new();
    assert!(matches!(c.lookup(None, 0), MembersLookup::NoLens));
    match c.lookup(Some("Reading"), 0) {
        MembersLookup::Fetch(n) => assert_eq!(n, "Reading"),
        _ => panic!("expected a fetch"),
    }
    c.store(s("Reading"), vec![s("a.md"), s("b.md")]);
    match c.lookup(Some("Reading"), 0) {
        MembersLookup::Hit(m) => assert_eq!(m, vec![s("a.md"), s("b.md")]),
        _ => panic!("expected a hit"),
    }
    c.store(s("Reading"), vec![s("c.md")]);
    c.store(s("Other"), vec![]);
    match c.lookup(Some("Reading"), 0) {
        MembersLookup::Hit(m) => assert_eq!(m, vec![s("c.md")]),
        _ => panic!("expected a hit"),
    }
    assert_eq!(c.entries.len(), 2);
    // A new lens generation empties the cache.
    assert!(matches!(c.lookup(Some("Reading"), 1), MembersLookup::Fetch(_)));
    assert_eq!(c.tick, 1);
    assert!(c.entries.is_empty());
}

#[test]
fn picker_panel_keys() {
    let ev = |key: &str, code: &str, shift: bool| KeyInput {
        key: s(key),
        code: s(code),
        ctrl: false,
        meta: false,
        alt: false,
        shift,
    };
    assert_eq!(picker_panel_action(true, &ev("Escape", "Escape", false)), Some(WebAction::CommandModeClose));
    assert_eq!(picker_panel_action(true, &ev(" ", "Space", false)), Some(WebAction::CommandModeSubmit));
    assert_eq!(picker_panel_action(true, &ev("K", "KeyK", false)), Some(WebAction::CommandModeMoveUp));
    assert_eq!(picker_panel_action(true, &ev("Down", "ArrowDown", false)), Some(WebAction::CommandModeMoveDown));
    assert_eq!(picker_panel_action(true, &ev("x", "KeyX", false)), None);
    assert_eq!(picker_panel_action(true, &ev("j", "KeyJ", true)), None);
    assert_eq!(picker_panel_action(false, &ev("Escape", "Escape", false)), None);
    let meta = KeyInput { meta: true, ..ev("Enter", "Enter", false) };
    assert_eq!(picker_panel_action(true, &meta), None);
}

#[test]
fn find_marks_split_across_text_nodes() {
    let spans = span_starts(&vec![3, 0, 4, 5]);
    assert_eq!(spans, vec![(0, 3), (3, 0), (3, 4), (7, 5)]);
    // "abc" + "" + "defg" + "hijkl": match [2, 8) covers c | defg | h
    assert_eq!(range_slices(&spans, 2, 8), vec![(3, 0, 1), (2, 0, 4), (0, 2, 3)]);
    assert_eq!(range_slices(&spans, 4, 6), vec![(2, 1, 3)]);
    assert_eq!(range_slices(&spans, 5, 5), vec![]);
    assert_eq!(range_slices(&spans, 20, 30), vec![]);
}
