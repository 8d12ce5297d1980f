use ublx::api::{
    added_to_lens_message, bulk_toast, takes_root_file_type, chord_poll_turn, metadata_text, poll_turn, templates_text, PollTurn, SNAPSHOT_POLL_LIMIT, catalog_flags, chord_poll_step, content_url,
    duplicates_outcome, enhance_policy_message, enhanced_message, error_message_from,
    export_lenses_message, export_zahir_message, format_date_time, http_error_message,
    join_strings, last_snapshot_ns, lens_created_message, lens_deleted_message,
    lens_renamed_message, overview_text, removed_from_lens_message, renamed_message, settle_step,
    still_running_message, switched_root_message, tree_has_collapsible, DeltaCatalog, DeltaKind,
    DeltaRow, EntryDetail, HealthBody, PollStep, SectionView, SnapshotLast, SnapshotStatus,
    TreeNodeView,
};
use ublx::toast::{ToastBody, ToastLevel};

fn s(x: &str) -> String {
    x.to_string()
}

fn row(ns: i64, path: &str, t: &str) -> DeltaRow {
    DeltaRow { created_ns: ns, path: s(path), delta_type: s(t) }
}

#[test]
fn delta_rows_stamps_and_overview() {
    let cat = DeltaCatalog {
        rows: vec![row(5, "a", "added"), row(9, "b", "MOD"), row(5, "c", "removed"), row(7, "d", "added")],
    };
    let added: Vec<&str> = cat.rows_for(DeltaKind::Added).iter().map(|r| r.path.as_str()).collect();
    assert_eq!(added, vec!["a", "d"]);
    assert_eq!(cat.rows_for(DeltaKind::Modified).len(), 1);
    assert_eq!(cat.distinct_stamps(), vec![9, 7, 5]);
    assert_eq!(last_snapshot_ns(&cat.rows), Some(9));
    assert_eq!(last_snapshot_ns(&vec![]), None);
    assert_eq!(
        overview_text(&vec![s("2024-01-02 03:04:05"), s("2023-12-31 23:59:59")]),
        "\n2 snapshot(s) (sorted by time; newest first):\n\n  • 2024-01-02 03:04:05\n  • 2023-12-31 23:59:59"
    );
    assert_eq!(overview_text(&vec![]), "\n0 snapshot(s) (sorted by time; newest first):\n");
    assert_eq!(DeltaKind::all(), vec![DeltaKind::Added, DeltaKind::Modified, DeltaKind::Removed]);
    assert_eq!(DeltaKind::Modified.api_type(), "mod");
    assert_eq!(DeltaKind::Removed.label(), "Removed");
    assert_eq!(DeltaKind::Added.css_class(), "delta-added");
    assert_eq!(DeltaKind::default(), DeltaKind::Added);
}

#[test]
fn catalog_flags_from_boot_fetches() {
    let health = HealthBody { ok: true, service: s("ublx"), version: s("1.0"), uptime_secs: 3 };
    let f = catalog_flags(Some(health), Some(s("/r")), Some(vec![s("L")]), Some(0), &vec![row(4, "x", "added")]);
    assert!(f.has_lenses && !f.has_duplicates && f.has_delta);
    assert_eq!(f.last_snapshot_ns, Some(4));
    assert_eq!(f.root, Some(s("/r")));
    assert!(f.health.unwrap().ok);
    let g = catalog_flags(None, None, Some(vec![]), Some(2), &vec![]);
    assert!(!g.has_lenses && g.has_duplicates && !g.has_delta);
    assert_eq!(g.last_snapshot_ns, None);
    let h = catalog_flags(None, None, None, None, &vec![]);
    assert!(!h.has_lenses && !h.has_duplicates);
}

#[test]
fn entry_detail_tabs_and_trees() {
    let mut d = EntryDetail {
        path: s("a.md"),
        category: s("Markdown"),
        size: 10,
        mtime_ns: None,
        templates: s(""),
        metadata: Some(s("")),
        writing: None,
        metadata_tables: vec![],
        writing_tables: vec![],
    };
    assert!(!d.has_templates() && !d.has_metadata() && !d.has_writing());
    d.templates = s("t");
    d.writing = Some(s("w"));
    d.metadata_tables.push(SectionView::SingleColumnList { title: s("T"), values: vec![] });
    assert!(d.has_templates() && d.has_metadata() && d.has_writing());
    let leaf = |l: &str| TreeNodeView { label: s(l), value: Some(s("v")), children: vec![], branch: false };
    assert!(!tree_has_collapsible(&vec![leaf("a"), leaf("b")]));
    let parent = TreeNodeView { label: s("p"), value: None, children: vec![leaf("c")], branch: false };
    assert!(tree_has_collapsible(&vec![leaf("a"), parent]));
    let empty_branch = TreeNodeView { label: s("e"), value: None, children: vec![], branch: true };
    assert!(tree_has_collapsible(&vec![empty_branch]));
}

#[test]
fn content_and_joined_urls() {
    assert_eq!(join_strings(&vec![s("a"), s("b"), s("c")], "&"), "a&b&c");
    assert_eq!(join_strings(&vec![], "&"), "");
    assert_eq!(content_url("dir/a b.pdf", None, None, None, None, None), "/content/dir/a%20b.pdf");
    assert_eq!(
        content_url("x.pdf", Some("pdf"), Some(3), None, None, Some("Dark Mode")),
        "/content/x.pdf?format=pdf&page=3&theme=Dark%20Mode"
    );
    assert_eq!(
        content_url("x.txt", Some("text"), None, Some(0), Some(65536), Some("")),
        "/content/x.txt?format=text&offset=0&limit=65536"
    );
}

#[test]
fn mutation_messages() {
    assert_eq!(bulk_toast("Deleted", "deleted", 3, None), Ok(s("Deleted 3")));
    assert_eq!(bulk_toast("Renamed", "renamed", 1, Some(s("[\"x\"]"))), Err(s("renamed 1; then failed: [\"x\"]")));
    assert_eq!(renamed_message("a/b.md"), "Renamed → a/b.md");
    assert_eq!(enhanced_message(4, 0), "Enhanced 4; failed 0");
    assert_eq!(enhance_policy_message("auto"), "Enhance policy: auto");
    assert_eq!(lens_created_message("L", 2), "Lens L (+2)");
    assert_eq!(lens_renamed_message("M"), "Lens renamed to M");
    assert_eq!(lens_deleted_message("M"), "Deleted lens M");
    assert_eq!(added_to_lens_message(12, "M"), "Added 12 to M");
    assert_eq!(removed_from_lens_message(1, "M"), "Removed 1 from M");
    assert_eq!(duplicates_outcome(0), (false, s("No duplicates found")));
    assert_eq!(duplicates_outcome(3), (true, s("Duplicates: 3 group(s)")));
    assert_eq!(export_zahir_message(0), "No Zahir JSON to export — retake snapshot after enhance");
    assert_eq!(export_zahir_message(2), "Exported 2 Zahir JSON file(s)");
    assert_eq!(export_lenses_message(0), "No lenses to export — create a lens first");
    assert_eq!(export_lenses_message(1), "Exported 1 lens Markdown file(s)");
    assert_eq!(switched_root_message("/r"), "Switched to /r");
    assert_eq!(still_running_message(), "Snapshot still running — check later");
}

#[test]
fn http_errors_prefer_json_error_field() {
    assert_eq!(http_error_message(404, "{\"error\":\"no such entry\"}"), "404: no such entry");
    assert_eq!(http_error_message(500, ""), "HTTP 500");
    assert_eq!(http_error_message(502, "Bad Gateway"), "502: Bad Gateway");
    assert_eq!(http_error_message(400, "{\"error\": 5}"), "400: {\"error\": 5}");
    assert_eq!(http_error_message(400, "{\"message\":\"x\"}"), "400: {\"message\":\"x\"}");
    assert_eq!(error_message_from(409, "body", Some("conflict")), "409: conflict");
    assert_eq!(error_message_from(409, "", None), "HTTP 409");
}

fn status(state: &str, last: Option<SnapshotLast>) -> SnapshotStatus {
    SnapshotStatus { state: s(state), dir: None, last }
}

#[test]
fn snapshot_poll_decisions() {
    assert!(matches!(settle_step(Ok(status("Running", None))), PollStep::KeepPolling));
    let last = SnapshotLast { added: 1, modified: 2, removed: 3, error: None };
    match settle_step(Ok(status("done", Some(last.clone())))) {
        PollStep::Settled { refresh_all, level, body } => {
            assert!(refresh_all);
            assert_eq!(level, ToastLevel::Info);
            assert!(matches!(body, ToastBody::Snapshot { added: 1, modified: 2, removed: 3 }));
        }
        _ => panic!("expected settled"),
    }
    let failed = SnapshotLast { added: 0, modified: 0, removed: 0, error: Some(s("disk full")) };
    match settle_step(Ok(status("FAILED", Some(failed.clone())))) {
        PollStep::Settled { refresh_all: false, level: ToastLevel::Error, body: ToastBody::Text(m) } => {
            assert_eq!(m, "disk full")
        }
        _ => panic!("expected failure toast"),
    }
    match settle_step(Ok(status("idle", None))) {
        PollStep::Settled { refresh_all: true, body: ToastBody::Text(m), .. } => assert_eq!(m, "Snapshot finished"),
        _ => panic!("expected finished"),
    }
    match settle_step(Err(s("HTTP 500"))) {
        PollStep::Settled { refresh_all: false, level: ToastLevel::Error, body: ToastBody::Text(m) } => {
            assert_eq!(m, "HTTP 500")
        }
        _ => panic!("expected error"),
    }
    assert_eq!(chord_poll_step(Ok(status("running", None))), (true, false, s("")));
    assert_eq!(chord_poll_step(Ok(status("done", Some(last)))), (false, true, s("Snapshot done +1 ~2 -3")));
    assert_eq!(chord_poll_step(Ok(status("done", None))), (false, true, s("Snapshot done")));
    assert_eq!(chord_poll_step(Ok(status("failed", None))), (false, false, s("Snapshot failed")));
    assert_eq!(chord_poll_step(Ok(status("failed", Some(failed)))), (false, false, s("disk full")));
    assert_eq!(chord_poll_step(Err(s("offline"))), (false, false, s("offline")));
}

#[test]
fn date_time_formatting_pads_fields() {
    assert_eq!(format_date_time(2024, 0, 2, 3, 4, 5), "2024-01-02 03:04:05");
    assert_eq!(format_date_time(987, 11, 31, 23, 59, 9), "0987-12-31 23:59:09");
    assert_eq!(format_date_time(-5, 5, 1, 0, 0, 0), format!("{:04}-{:02}-{:02} {:02}:{:02}:{:02}", -5, 6, 1, 0, 0, 0));
    assert_eq!(format_date_time(12345, 8, 10, 10, 10, 10), "12345-09-10 10:10:10");
}

#[test]
fn poll_loop_gives_up_after_the_limit() {
    assert_eq!(SNAPSHOT_POLL_LIMIT, 600);
    assert!(matches!(poll_turn(1, Ok(status("Running", None))), PollTurn::PollAgain));
    assert!(matches!(poll_turn(599, Ok(status("running", None))), PollTurn::PollAgain));
    match poll_turn(600, Ok(status("running", None))) {
        PollTurn::GiveUp { level, body: ToastBody::Text(m) } => {
            assert_eq!(level, ToastLevel::Warn);
            assert_eq!(m, "Snapshot still running — check later");
        }
        _ => panic!("expected to give up"),
    }
    match poll_turn(600, Ok(status("done", None))) {
        PollTurn::Settled { refresh_all, level, body: ToastBody::Text(m) } => {
            assert!(refresh_all);
            assert_eq!(level, ToastLevel::Info);
            assert_eq!(m, "Snapshot done");
        }
        _ => panic!("expected settled"),
    }
    assert!(matches!(
        poll_turn(3, Err(s("boom"))),
        PollTurn::Settled { refresh_all: false, level: ToastLevel::Error, body: ToastBody::Text(ref m) } if m == "boom"
    ));
    assert_eq!(chord_poll_turn(5, Ok(status("running", None))), (true, false, String::new()));
    assert_eq!(
        chord_poll_turn(600, Ok(status("running", None))),
        (false, false, s("Snapshot still running — check later"))
    );
    assert_eq!(chord_poll_turn(600, Ok(status("other", None))), (false, true, s("Snapshot finished")));
}

#[test]
fn zahir_sections_keep_and_join_texts() {
    assert_eq!(templates_text(None), "");
    assert_eq!(templates_text(Some(s("null"))), "");
    assert_eq!(templates_text(Some(s("[]"))), "");
    assert_eq!(templates_text(Some(s(""))), "");
    assert_eq!(templates_text(Some(s("[\n  1\n]"))), "[\n  1\n]");
    let entries = vec![
        (s("file_type"), Some(s("\"Code\""))),
        (s("code_metadata"), Some(s("{ a }"))),
        (s("image_metadata"), None),
        (s("text_metadata"), Some(s("{ b }"))),
        (s("metadata"), Some(s("{ c }"))),
    ];
    assert_eq!(metadata_text(&entries), Some(s("{ a }\n\n{ b }")));
    assert_eq!(metadata_text(&vec![(s("x"), Some(s("1")))]), None);
    assert_eq!(metadata_text(&vec![]), None);
}

#[test]
fn root_file_type_fills_only_missing_fields() {
    assert!(takes_root_file_type(true, true, false));
    assert!(!takes_root_file_type(true, true, true));
    assert!(!takes_root_file_type(false, true, false));
    assert!(!takes_root_file_type(true, false, false));
}
