use ublx::layout::{
    cycle_right_tab, keep_or_viewer, requested_tab, right_tab_available, PaneFocus, RightTab,
};
use ublx::nav::{
    clamp_mode_to_visible, is_reserved_api_segment, mode_from_search, mode_url,
    next_visible_mode, recover_mode_from_pathname, reserved_api_path_segments, synced_mode_url,
    ui_pathname_is_safe, MainMode,
};
use ublx::toast::{ToastBody, ToastLevel, ToastStack, MAX_TOASTS, TOAST_DURATION_MS};
use ublx::url::{
    decode_component, encode_component, encode_entry_path, entry_zahir_url, lens_paths_url,
    lens_url, raw_content_url,
};

#[test]
fn main_mode_labels_digits_and_queries() {
    let all = MainMode::all();
    assert_eq!(all.len(), 5);
    assert_eq!(all[0], MainMode::Snapshot);
    assert_eq!(all[4], MainMode::Settings);
    assert_eq!(MainMode::Settings.tab_title(), "Settings (9)");
    assert_eq!(MainMode::Delta.digit(), 7);
    assert_eq!(MainMode::Duplicates.label(), "Duplicates");
    for m in MainMode::all() {
        assert_eq!(MainMode::from_query_value(m.query_value()), Some(m));
    }
    assert_eq!(MainMode::from_query_value("  LENS "), Some(MainMode::Lenses));
    assert_eq!(MainMode::from_query_value("dupes"), Some(MainMode::Duplicates));
    assert_eq!(MainMode::from_query_value("config"), Some(MainMode::Settings));
    assert_eq!(MainMode::from_query_value(""), Some(MainMode::Snapshot));
    assert_eq!(MainMode::from_query_value("nope"), None);
    assert_eq!(MainMode::default(), MainMode::Snapshot);
}

#[test]
fn reserved_segments_and_safe_paths() {
    assert_eq!(reserved_api_path_segments().len(), 10);
    assert!(is_reserved_api_segment("Delta"));
    assert!(is_reserved_api_segment(" /entries/ "));
    assert!(!is_reserved_api_segment("app"));
    assert!(ui_pathname_is_safe("/"));
    assert!(ui_pathname_is_safe(""));
    assert!(ui_pathname_is_safe("/app/delta"));
    assert!(!ui_pathname_is_safe("/delta"));
    assert!(!ui_pathname_is_safe("/lenses/x"));
}

#[test]
fn mode_urls_and_recovery() {
    assert_eq!(mode_url(MainMode::Snapshot), "/");
    assert_eq!(mode_url(MainMode::Lenses), "/?mode=lenses");
    assert_eq!(recover_mode_from_pathname("/"), None);
    assert_eq!(
        recover_mode_from_pathname("/delta"),
        Some((MainMode::Delta, "/?mode=delta".to_string()))
    );
    assert_eq!(
        recover_mode_from_pathname("/entries/a.txt"),
        Some((MainMode::Snapshot, "/".to_string()))
    );
    assert_eq!(synced_mode_url("/", MainMode::Snapshot), "/");
    assert_eq!(synced_mode_url("/app", MainMode::Delta), "/app?mode=delta");
}

#[test]
fn mode_from_search_reads_first_mode_pair() {
    assert_eq!(mode_from_search(""), MainMode::Snapshot);
    assert_eq!(mode_from_search("?mode=delta"), MainMode::Delta);
    assert_eq!(mode_from_search("?x=1&mode=Lens"), MainMode::Lenses);
    assert_eq!(mode_from_search("?mode=%64elta"), MainMode::Delta);
    assert_eq!(mode_from_search("?mode=bogus"), MainMode::Snapshot);
    assert_eq!(mode_from_search("?mode=settings&mode=delta"), MainMode::Settings);
    assert_eq!(mode_from_search("?modes=delta"), MainMode::Snapshot);
    assert_eq!(mode_from_search("?mode=%FF"), MainMode::Snapshot);
    for m in MainMode::all() {
        let url = synced_mode_url("/", m);
        let search = match url.find('?') {
            Some(i) => url[i..].to_string(),
            None => String::new(),
        };
        assert_eq!(mode_from_search(&search), m);
    }
}

#[test]
fn visible_modes_clamp_and_cycle() {
    assert_eq!(clamp_mode_to_visible(MainMode::Lenses, false, true, true), MainMode::Snapshot);
    assert_eq!(clamp_mode_to_visible(MainMode::Lenses, true, false, false), MainMode::Lenses);
    assert_eq!(clamp_mode_to_visible(MainMode::Settings, false, false, false), MainMode::Settings);
    assert_eq!(next_visible_mode(MainMode::Snapshot, false, false, false), MainMode::Settings);
    assert_eq!(next_visible_mode(MainMode::Settings, false, false, false), MainMode::Snapshot);
    assert_eq!(next_visible_mode(MainMode::Snapshot, true, true, true), MainMode::Lenses);
    assert_eq!(next_visible_mode(MainMode::Lenses, false, true, false), MainMode::Delta);
    assert_eq!(next_visible_mode(MainMode::Duplicates, true, true, true), MainMode::Settings);
}

#[test]
fn right_tabs_follow_entry_content() {
    let detail = Some((true, false, true));
    assert!(right_tab_available(RightTab::Viewer, None));
    assert!(!right_tab_available(RightTab::Templates, None));
    assert!(right_tab_available(RightTab::Writing, detail));
    assert!(!right_tab_available(RightTab::Metadata, detail));
    assert_eq!(keep_or_viewer(RightTab::Metadata, detail), RightTab::Viewer);
    assert_eq!(keep_or_viewer(RightTab::Templates, detail), RightTab::Templates);
    assert_eq!(requested_tab(RightTab::Viewer, RightTab::Metadata, detail), RightTab::Viewer);
    assert_eq!(requested_tab(RightTab::Viewer, RightTab::Writing, detail), RightTab::Writing);
    assert_eq!(cycle_right_tab(RightTab::Viewer, detail), RightTab::Templates);
    assert_eq!(cycle_right_tab(RightTab::Templates, detail), RightTab::Writing);
    assert_eq!(cycle_right_tab(RightTab::Writing, detail), RightTab::Viewer);
    assert_eq!(cycle_right_tab(RightTab::Metadata, None), RightTab::Viewer);
    assert_eq!(RightTab::Metadata.label(), "Metadata");
    assert_eq!(PaneFocus::Left.cycle(), PaneFocus::Middle);
    assert_eq!(PaneFocus::Left.cycle().cycle(), PaneFocus::Left);
    assert_eq!(PaneFocus::default(), PaneFocus::Middle);
}

#[test]
fn url_encoding_of_components_and_paths() {
    assert_eq!(encode_component("a b/c"), "a%20b%2Fc");
    assert_eq!(encode_component("é~-._"), "%C3%A9~-._");
    assert_eq!(decode_component("a%20b%2fc"), Some("a b/c".to_string()));
    assert_eq!(decode_component("100%"), Some("100%".to_string()));
    assert_eq!(decode_component("%FF"), None);
    assert_eq!(decode_component(&encode_component("naïve ünïcode?&")), Some("naïve ünïcode?&".to_string()));
    assert_eq!(encode_entry_path("dir one/file#1.txt"), "dir%20one/file%231.txt");
    assert_eq!(encode_entry_path("/a//b/"), "/a//b/");
    assert_eq!(lens_url("My Lens"), "/lenses/My%20Lens");
    assert_eq!(lens_paths_url("x/y z"), "/lenses/x/y%20z/paths");
    assert_eq!(entry_zahir_url("a b/c.md"), "/entries/a%20b/c.md?zahir=1");
    assert_eq!(raw_content_url("a b/c.md"), "/content/a%20b/c.md?format=raw");
}

#[test]
fn toast_stack_keeps_newest_three() {
    assert_eq!(MAX_TOASTS, 3);
    assert_eq!(TOAST_DURATION_MS, 4000);
    let mut t = ToastStack::new();
    let a = t.info("one".to_string());
    let b = t.warn("two".to_string());
    let c = t.error("three".to_string());
    let d = t.snapshot_done(1, 2, 3);
    assert_eq!((a, b, c, d), (1, 2, 3, 4));
    let ids: Vec<u64> = t.items.iter().map(|i| i.id).collect();
    assert_eq!(ids, vec![2, 3, 4]);
    assert!(matches!(t.items[2].body, ToastBody::Snapshot { added: 1, modified: 2, removed: 3 }));
    assert_eq!(t.items[1].level, ToastLevel::Error);
    t.dismiss(3);
    let ids: Vec<u64> = t.items.iter().map(|i| i.id).collect();
    assert_eq!(ids, vec![2, 4]);
    t.dismiss(99);
    assert_eq!(t.items.len(), 2);
    assert_eq!(ToastLevel::Warn.variant(), "warning");
    assert_eq!(ToastLevel::Error.class(), "toast-item--error");
}

#[test]
fn encoded_entry_paths_decode_segment_by_segment() {
    for p in ["dir one/file#1.txt", "/lead//double/", "plain", "", "ünï/çødé?&=%/x y"] {
        let enc = encode_entry_path(p);
        let back: Vec<String> = enc.split('/').map(|seg| decode_component(seg).unwrap()).collect();
        assert_eq!(back.join("/"), p, "{p:?}");
        assert_eq!(enc.split('/').count(), p.split('/').count());
    }
}

#[test]
fn query_values_ignore_space_and_case() {
    for raw in [" Dupes ", "LENS", "\tsettings\n", "", "config", "x", " Snapshot"] {
        let normalized = raw.trim().to_ascii_lowercase();
        assert_eq!(MainMode::from_query_value(raw), MainMode::from_query_value(&normalized), "{raw:?}");
    }
    assert_eq!(MainMode::from_query_value(" Dupes "), Some(MainMode::Duplicates));
    assert_eq!(MainMode::from_query_value(""), Some(MainMode::Snapshot));
    assert_eq!(MainMode::from_query_value("config"), Some(MainMode::Settings));
    assert_eq!(MainMode::from_query_value("x"), None);
}

#[test]
fn right_tab_always_has_content() {
    let tabs = [RightTab::Viewer, RightTab::Templates, RightTab::Metadata, RightTab::Writing];
    for d in [None, Some((false, false, false)), Some((true, false, true)), Some((false, true, false)), Some((true, true, true))] {
        for cur in tabs {
            assert!(right_tab_available(keep_or_viewer(cur, d), d));
            assert!(right_tab_available(cycle_right_tab(cur, d), d));
            for req in tabs {
                let next = requested_tab(cur, req, d);
                assert_eq!(next, if right_tab_available(req, d) { req } else { cur });
            }
        }
    }
    assert_eq!(cycle_right_tab(RightTab::Templates, Some((true, false, true))), RightTab::Writing);
    assert_eq!(cycle_right_tab(RightTab::Writing, Some((true, false, true))), RightTab::Viewer);
}

#[test]
fn expiry_dismisses_only_its_toast() {
    let mut t = ToastStack::new();
    let a = t.info("one".to_string());
    let b = t.info("two".to_string());
    let c = t.info("three".to_string());
    t.dismiss(b);
    let ids: Vec<u64> = t.items.iter().map(|i| i.id).collect();
    assert_eq!(ids, vec![a, c]);
    let d = t.info("four".to_string());
    assert!(d > c);
    t.dismiss(a);
    let ids: Vec<u64> = t.items.iter().map(|i| i.id).collect();
    assert_eq!(ids, vec![c, d]);
}
