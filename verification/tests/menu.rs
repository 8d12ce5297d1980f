use ublx::layout::PaneFocus;
use ublx::menu::{
    absolute_path, basename, draft_key, label_with_hotkey, menu_key, menu_row, menu_rows,
    menu_rows_for_kind, DraftKey, MenuKey,
    pending_allows_navigation, pending_title, title_for, ApiCall, MenuEffect, Pending, SpaceMenu,
    SpaceMenuKind,
};
use ublx::nav::MainMode;
use ublx::toast::ToastLevel;

fn s(x: &str) -> String {
    x.to_string()
}

fn keys_of(kind: &SpaceMenuKind) -> String {
    menu_rows(kind).iter().map(|r| r.key).collect()
}

fn flash_text(e: &MenuEffect) -> Option<(ToastLevel, String)> {
    match e {
        MenuEffect::Flash { level, msg } => Some((*level, msg.clone())),
        _ => None,
    }
}

fn file_menu(path: &str, lenses: bool) -> SpaceMenu {
    let mut m = SpaceMenu::new();
    m.middle_path = Some(s(path));
    m.left_label = Some(s("Reading"));
    let mode = if lenses { MainMode::Lenses } else { MainMode::Snapshot };
    assert!(m.try_open_qa(mode, PaneFocus::Middle, false, false));
    m
}

#[test]
fn menu_rows_and_titles_per_kind() {
    let file = SpaceMenuKind::File { path: s("a/b.png"), lenses: false, open_in_tab: true };
    assert_eq!(keys_of(&file), "opzlcjrd");
    let in_lens = SpaceMenuKind::File { path: s("a/b.txt"), lenses: true, open_in_tab: false };
    assert_eq!(keys_of(&in_lens), "zdcjr");
    assert_eq!(menu_rows(&in_lens)[1].label, "Delete from current Lens");
    assert_eq!(keys_of(&SpaceMenuKind::Lens { name: s("L") }), "rd");
    assert_eq!(keys_of(&SpaceMenuKind::Duplicate { path: s("x"), open_in_tab: true }), "dioc");
    assert_eq!(keys_of(&SpaceMenuKind::Duplicate { path: s("x"), open_in_tab: false }), "dic");
    let bulk = SpaceMenuKind::Bulk { lenses: true };
    assert_eq!(keys_of(&bulk), "ardz");
    assert_eq!(menu_rows(&bulk)[0].label, "Add to other lens");
    assert_eq!(menu_rows_for_kind(None).len(), 0);
    assert_eq!(title_for(&bulk), "Bulk");
    assert_eq!(title_for(&file), "Actions");
    assert_eq!(label_with_hotkey("Copy Path", 'c'), "Copy Path (c)");
    assert_eq!(pending_title(None, None), " Actions ");
    assert_eq!(pending_title(None, Some(&SpaceMenuKind::Lens { name: s("L") })), " Lens ");
    let confirm = Pending::DeleteConfirm { paths: vec![], lens_name: None };
    assert_eq!(pending_title(Some(&confirm), None), " Confirm delete ");
    assert!(pending_allows_navigation(Some(&confirm)));
    let rename = Pending::Rename { target: s("t"), draft: s("d"), lens: false };
    assert!(!pending_allows_navigation(Some(&rename)));
    assert!(pending_allows_navigation(None));
}

#[test]
fn path_helpers() {
    assert_eq!(basename("a/b/c.txt"), "c.txt");
    assert_eq!(basename("plain"), "plain");
    assert_eq!(basename("dir/"), "");
    assert_eq!(absolute_path(Some("/root//"), "a/b"), "/root/a/b");
    assert_eq!(absolute_path(Some("/root"), ""), "/root");
    assert_eq!(absolute_path(Some(""), "a"), "a");
    assert_eq!(absolute_path(None, "a"), "a");
}

#[test]
fn opening_menus_needs_context() {
    let mut m = SpaceMenu::new();
    assert!(!m.try_open_qa(MainMode::Snapshot, PaneFocus::Middle, false, false));
    m.middle_path = Some(s("x.txt"));
    assert!(!m.try_open_qa(MainMode::Delta, PaneFocus::Middle, false, false));
    assert!(!m.try_open_qa(MainMode::Snapshot, PaneFocus::Middle, true, false));
    assert!(m.try_open_qa(MainMode::Duplicates, PaneFocus::Middle, false, true));
    assert!(matches!(m.kind, Some(SpaceMenuKind::Duplicate { open_in_tab: true, .. })));
    assert!(!m.try_open_qa(MainMode::Snapshot, PaneFocus::Middle, false, false));
    m.close();
    assert!(!m.visible && m.kind.is_none());
    m.left_label = Some(s("Reading"));
    assert!(m.try_open_qa(MainMode::Lenses, PaneFocus::Left, false, false));
    assert!(matches!(&m.kind, Some(SpaceMenuKind::Lens { name }) if name == "Reading"));
    m.close();
    assert!(!m.try_open_bulk(MainMode::Snapshot, false));
    assert!(!m.try_open_bulk(MainMode::Delta, true));
    assert!(m.try_open_bulk(MainMode::Lenses, true));
    assert!(matches!(m.kind, Some(SpaceMenuKind::Bulk { lenses: true })));
}

#[test]
fn file_rows_produce_effects() {
    let bulk: Vec<String> = vec![];
    let mut m = file_menu("docs/a b.md", false);
    m.catalog_root = Some(s("/home/u/proj/"));
    let (handled, eff) = m.submit_hotkey('C', None, &bulk);
    assert!(handled);
    assert!(matches!(&eff[0], MenuEffect::CopyText { text, ok } if text == "/home/u/proj/docs/a b.md" && ok == "Copied path"));
    assert!(!m.visible);

    let mut m = file_menu("docs/a.md", false);
    let (_, eff) = m.submit_hotkey('z', None, &bulk);
    assert!(matches!(&eff[0], MenuEffect::Api { call: ApiCall::Enhance { paths }, clear_selection: false, refresh: true } if paths == &vec![s("docs/a.md")]));

    let mut m = file_menu("docs/a.md", false);
    let (_, eff) = m.submit_hotkey('j', None, &bulk);
    assert!(matches!(&eff[0], MenuEffect::CopyZahirJson { path } if path == "docs/a.md"));

    let mut m = file_menu("docs/a.md", false);
    let (_, eff) = m.submit_hotkey('l', None, &bulk);
    assert!(matches!(&eff[0], MenuEffect::LoadLensPicker { paths, exclude: None } if paths == &vec![s("docs/a.md")]));
    assert!(m.visible);

    let mut m = file_menu("docs/a.md", true);
    let (_, eff) = m.submit_hotkey('d', None, &bulk);
    assert!(matches!(&eff[0], MenuEffect::Api { call: ApiCall::RemoveFromLens { lens, paths }, .. } if lens == "Reading" && paths == &vec![s("docs/a.md")]));

    let mut m = file_menu("docs/a.md", false);
    assert_eq!(m.submit_hotkey('q', None, &bulk).0, false);
    assert!(m.visible);
}

#[test]
fn delete_confirm_and_policy_subflows() {
    let bulk: Vec<String> = vec![];
    let mut m = file_menu("docs/a.md", false);
    let (_, eff) = m.submit_hotkey('d', None, &bulk);
    assert!(eff.is_empty());
    assert!(matches!(&m.pending, Some(Pending::DeleteConfirm { paths, lens_name: None }) if paths == &vec![s("docs/a.md")]));
    let rows = m.display_rows();
    assert_eq!(rows, vec![(s("Yes — delete"), 'y'), (s("No"), 'n')]);
    m.move_sel(5);
    assert_eq!(m.selected, 1);
    let eff = m.submit_selected(None, &bulk);
    assert!(eff.is_empty());
    assert!(m.pending.is_none() && m.visible);
    let (_, _) = m.submit_hotkey('d', None, &bulk);
    let (handled, eff) = m.submit_hotkey('y', None, &bulk);
    assert!(handled);
    assert!(matches!(&eff[0], MenuEffect::Api { call: ApiCall::Delete { paths }, clear_selection: true, refresh: true } if paths == &vec![s("docs/a.md")]));
    assert!(!m.visible);

    let mut m = file_menu("docs/a.md", false);
    m.submit_hotkey('p', None, &bulk);
    assert_eq!(m.display_rows()[1].0, "Per-file — manual");
    let (_, eff) = m.submit_hotkey('n', None, &bulk);
    assert!(matches!(&eff[0], MenuEffect::Api { call: ApiCall::EnhancePolicy { path, policy: "manual" }, clear_selection: false, refresh: false } if path == "docs/a.md"));
}

#[test]
fn rename_and_lens_flows() {
    let bulk: Vec<String> = vec![];
    let mut m = file_menu("docs/old.md", false);
    m.submit_hotkey('r', None, &bulk);
    assert!(matches!(&m.pending, Some(Pending::Rename { draft, lens: false, .. }) if draft == "old.md"));
    m.set_rename_draft(s("   "));
    let eff = m.commit_rename_draft();
    assert_eq!(flash_text(&eff[0]), Some((ToastLevel::Warn, s("name is empty"))));
    m.set_rename_draft(s(" new.md "));
    let eff = m.commit_rename_draft();
    assert!(matches!(&eff[0], MenuEffect::Api { call: ApiCall::Rename { path, new_name }, .. } if path == "docs/old.md" && new_name == "new.md"));
    assert!(!m.visible);

    let mut m = SpaceMenu::new();
    m.left_label = Some(s("Reading"));
    m.try_open_qa(MainMode::Lenses, PaneFocus::Left, false, false);
    m.submit_hotkey('d', None, &bulk);
    let (_, eff) = m.submit_hotkey('y', None, &bulk);
    assert!(matches!(&eff[0], MenuEffect::Api { call: ApiCall::DeleteLens { name }, clear_selection: false, refresh: true } if name == "Reading"));

    let mut m = file_menu("a.md", false);
    m.lens_picker_loaded(vec![s("a.md")], vec![s("One"), s("Two"), s("Three")], Some(s("Two")));
    assert_eq!(
        m.display_rows(),
        vec![(s("＋ New lens…"), 'n'), (s("One"), '1'), (s("Three"), '2')]
    );
    assert_eq!(m.submit_hotkey('3', None, &bulk).0, false);
    let (_, eff) = m.submit_hotkey('2', None, &bulk);
    assert!(matches!(&eff[0], MenuEffect::Api { call: ApiCall::AddToLens { lens, paths }, clear_selection: true, refresh: true } if lens == "Three" && paths == &vec![s("a.md")]));

    let mut m = file_menu("a.md", false);
    m.lens_picker_loaded(vec![s("a.md")], vec![s("One")], None);
    m.submit_hotkey('n', None, &bulk);
    assert!(matches!(&m.pending, Some(Pending::NewLens { draft, .. }) if draft.is_empty()));
    let eff = m.commit_new_lens();
    assert_eq!(flash_text(&eff[0]), Some((ToastLevel::Warn, s("lens name is empty"))));
    m.set_new_lens_draft(s("Fresh"));
    let eff = m.commit_new_lens();
    assert!(matches!(&eff[0], MenuEffect::Api { call: ApiCall::CreateLens { name, paths }, .. } if name == "Fresh" && paths == &vec![s("a.md")]));
}

#[test]
fn duplicates_and_bulk_flows() {
    let none: Vec<String> = vec![];
    let mut m = SpaceMenu::new();
    m.middle_path = Some(s("dup/x.png"));
    m.try_open_qa(MainMode::Duplicates, PaneFocus::Middle, false, true);
    let (_, eff) = m.submit_hotkey('o', None, &none);
    assert!(matches!(&eff[0], MenuEffect::OpenRawInTab { path } if path == "dup/x.png"));
    assert_eq!(flash_text(&eff[1]), Some((ToastLevel::Info, s("Opened in new tab"))));
    m.try_open_qa(MainMode::Duplicates, PaneFocus::Middle, false, true);
    m.submit_hotkey('i', None, &none);
    m.try_open_qa(MainMode::Duplicates, PaneFocus::Middle, false, true);
    let (_, eff) = m.submit_hotkey('i', None, &none);
    assert_eq!(flash_text(&eff[0]), Some((ToastLevel::Info, s("Ignored for this session"))));
    assert_eq!(m.ignored, vec![s("dup/x.png")]);

    let mut m = SpaceMenu::new();
    m.try_open_bulk(MainMode::Snapshot, true);
    let (_, eff) = m.submit_hotkey('a', None, &none);
    assert_eq!(flash_text(&eff[0]), Some((ToastLevel::Warn, s("No rows selected"))));
    let sel = vec![s("a/one.txt"), s("b/two.txt")];
    m.submit_hotkey('r', None, &sel);
    assert!(matches!(&m.pending, Some(Pending::BulkRename { draft, .. }) if draft == "one.txt\ntwo.txt"));
    m.set_bulk_rename_draft(s("uno.txt\n\n"));
    let eff = m.commit_bulk_rename();
    assert_eq!(flash_text(&eff[0]), Some((ToastLevel::Warn, s("need 2 non-empty basename lines (got 2)"))));
    m.set_bulk_rename_draft(s("uno.txt\n"));
    let eff = m.commit_bulk_rename();
    assert_eq!(flash_text(&eff[0]), Some((ToastLevel::Warn, s("need 2 non-empty basename lines (got 1)"))));
    m.set_bulk_rename_draft(s(" uno.txt \ndos.txt\n"));
    let eff = m.commit_bulk_rename();
    assert!(matches!(&eff[0], MenuEffect::Api { call: ApiCall::BulkRename { renames }, clear_selection: true, refresh: true } if renames == &vec![(s("a/one.txt"), s("uno.txt")), (s("b/two.txt"), s("dos.txt"))]));

    let mut m = SpaceMenu::new();
    m.left_label = Some(s("Reading"));
    m.try_open_bulk(MainMode::Lenses, true);
    let (_, eff) = m.submit_hotkey('a', None, &sel);
    assert!(matches!(&eff[0], MenuEffect::LoadLensPicker { paths, exclude: Some(ex) } if paths == &sel && ex == "Reading"));
    let eff = m.activate_index(2, &sel);
    assert!(matches!(&eff[0], MenuEffect::Api { call: ApiCall::RemoveFromLens { lens, paths }, clear_selection: true, .. } if lens == "Reading" && paths == &sel));
}

#[test]
fn menu_row_keeps_label_and_key() {
    let r = menu_row("Copy Path", 'c');
    assert_eq!(r.label, "Copy Path");
    assert_eq!(r.key, 'c');
}

#[test]
fn panel_key_map() {
    assert_eq!(menu_key("Escape", false, false, false), MenuKey::Close);
    assert_eq!(menu_key("Enter", false, false, false), MenuKey::Submit);
    assert_eq!(menu_key(" ", false, false, false), MenuKey::Submit);
    assert_eq!(menu_key("ArrowUp", false, false, false), MenuKey::Move(-1));
    assert_eq!(menu_key("ArrowDown", false, false, false), MenuKey::Move(1));
    assert_eq!(menu_key("C", false, false, false), MenuKey::Letter('c'));
    assert_eq!(menu_key("7", false, false, false), MenuKey::Letter('7'));
    assert_eq!(menu_key("é", false, false, false), MenuKey::Ignore);
    assert_eq!(menu_key("-", false, false, false), MenuKey::Ignore);
    assert_eq!(menu_key("F1", false, false, false), MenuKey::Ignore);
    assert_eq!(menu_key("c", true, false, false), MenuKey::Ignore);
    assert_eq!(menu_key("c", false, true, false), MenuKey::Ignore);
    assert_eq!(menu_key("Escape", false, false, true), MenuKey::Ignore);
}

#[test]
fn draft_key_map() {
    assert_eq!(draft_key(false, "Enter", false), DraftKey::Commit);
    assert_eq!(draft_key(true, "Enter", false), DraftKey::Ignore);
    assert_eq!(draft_key(true, "Enter", true), DraftKey::Commit);
    assert_eq!(draft_key(true, "Escape", false), DraftKey::Close);
    assert_eq!(draft_key(false, "a", false), DraftKey::Ignore);
}

#[test]
fn panel_keys_drive_the_menu() {
    let bulk: Vec<String> = vec![];
    let mut m = file_menu("docs/a.md", false);
    let (handled, eff) = m.handle_key(MenuKey::Move(1), &bulk);
    assert!(handled && eff.is_empty());
    assert_eq!(m.selected, 1);
    // `k` is no row's hotkey here: it moves up.
    let (handled, eff) = m.handle_key(MenuKey::Letter('k'), &bulk);
    assert!(handled && eff.is_empty());
    assert_eq!(m.selected, 0);
    // `x` is neither a hotkey nor a move.
    let (handled, eff) = m.handle_key(MenuKey::Letter('x'), &bulk);
    assert!(handled && eff.is_empty() && m.visible && m.selected == 0);
    let (handled, eff) = m.handle_key(MenuKey::Ignore, &bulk);
    assert!(!handled && eff.is_empty() && m.visible);
    // `j` is the Copy Zahir JSON hotkey in a file menu.
    let (handled, eff) = m.handle_key(MenuKey::Letter('j'), &bulk);
    assert!(handled);
    assert!(matches!(&eff[0], MenuEffect::CopyZahirJson { path } if path == "docs/a.md"));

    // Row 0 of a Snapshot file menu is Enhance policy: Enter opens its sub-flow.
    let mut m = file_menu("docs/a.md", false);
    let (handled, eff) = m.handle_key(MenuKey::Submit, &bulk);
    assert!(handled && eff.is_empty());
    assert!(matches!(&m.pending, Some(Pending::EnhancePolicy { path }) if path == "docs/a.md"));
    // Row 1 is Enhance with ZahirScan.
    let mut m = file_menu("docs/a.md", false);
    m.handle_key(MenuKey::Move(1), &bulk);
    let (handled, eff) = m.handle_key(MenuKey::Submit, &bulk);
    assert!(handled);
    assert!(matches!(&eff[0], MenuEffect::Api { call: ApiCall::Enhance { .. }, .. }));

    let mut m = file_menu("docs/a.md", false);
    let (handled, _) = m.handle_key(MenuKey::Close, &bulk);
    assert!(handled && !m.visible && m.kind.is_none());
}

#[test]
fn draft_keys_commit_or_close() {
    let bulk: Vec<String> = vec![];
    let mut m = file_menu("docs/old.md", false);
    let (_, _) = m.submit_hotkey('r', None, &bulk);
    m.set_rename_draft(s(" new.md "));
    let eff = m.handle_draft_key(DraftKey::Ignore);
    assert!(eff.is_empty() && m.pending.is_some());
    let eff = m.handle_draft_key(DraftKey::Commit);
    assert!(matches!(&eff[0], MenuEffect::Api { call: ApiCall::Rename { path, new_name }, .. } if path == "docs/old.md" && new_name == "new.md"));
    assert!(!m.visible);

    let mut m = file_menu("docs/old.md", false);
    let (_, _) = m.submit_hotkey('r', None, &bulk);
    let eff = m.handle_draft_key(DraftKey::Close);
    assert!(eff.is_empty() && !m.visible && m.pending.is_none());

    let mut m = file_menu("docs/old.md", false);
    let eff = m.handle_draft_key(DraftKey::Commit);
    assert!(eff.is_empty() && m.visible);
}
