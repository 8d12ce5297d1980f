use ublx::command::CommandEffect;
use ublx::keys::{KeyInput, WebAction};
use ublx::layout::{PaneFocus, RightTab};
use ublx::menu::{ApiCall, MenuEffect, SpaceMenuKind};
use ublx::nav::MainMode;
use ublx::shell::{Shell, ShellEffect};
use ublx::state::PdfPageNav;

fn s(x: &str) -> String {
    x.to_string()
}

fn key(k: &str, code: &str, ctrl: bool, shift: bool) -> KeyInput {
    KeyInput { key: s(k), code: s(code), ctrl, meta: false, alt: false, shift }
}

#[test]
fn help_overlay_closes_others_and_absorbs_keys() {
    let mut sh = Shell::new();
    sh.menu.middle_path = Some(s("a.txt"));
    sh.dispatch(WebAction::SpaceMenuOpen);
    assert!(sh.menu.visible);
    let e = sh.dispatch(WebAction::HelpToggle);
    assert!(sh.help.visible && !sh.menu.visible);
    assert!(e.command.is_empty() && e.menu.is_empty() && e.shell.is_empty());
    assert_eq!(sh.key_action(&key("j", "KeyJ", false, false), false), Some(WebAction::HelpAbsorb));
    assert_eq!(sh.key_action(&key("Tab", "Tab", false, false), false), Some(WebAction::HelpSectionNext));
    sh.dispatch(WebAction::HelpSectionNext);
    assert_eq!(sh.help.section, 1);
    sh.dispatch(WebAction::HelpSectionNext);
    assert_eq!(sh.help.section, 0);
    sh.dispatch(WebAction::HelpClose);
    assert!(!sh.help.visible);
    assert_eq!(sh.key_action(&key("j", "KeyJ", false, false), true), None);
}

#[test]
fn command_mode_chord_through_the_shell() {
    let mut sh = Shell::new();
    let a = sh.key_action(&key("a", "KeyA", true, false), false);
    assert_eq!(a, Some(WebAction::CommandModeBegin));
    let e = sh.dispatch(WebAction::CommandModeBegin);
    assert!(matches!(e.command[0], CommandEffect::StartChordTimer { generation: 1, delay_ms: 480 }));
    assert_eq!(sh.key_action(&key("s", "KeyS", false, false), false), Some(WebAction::CommandModeHotkey('s')));
    let e = sh.dispatch(WebAction::CommandModeHotkey('s'));
    assert!(matches!(e.command[0], CommandEffect::RunSnapshot));
    assert!(!sh.command.pending);
    // Blocked while the Space menu is open.
    sh.menu.middle_path = Some(s("a.txt"));
    sh.dispatch(WebAction::SpaceMenuOpen);
    assert_eq!(sh.key_action(&key("a", "KeyA", true, false), false), Some(WebAction::SpaceMenuAbsorb));
    // Theme picker moves and commits through the shell.
    sh.dispatch(WebAction::SpaceMenuClose);
    sh.command.theme_picker_loaded(vec![s("dark"), s("light")], 0);
    assert_eq!(sh.key_action(&key("j", "KeyJ", false, false), false), Some(WebAction::CommandModeMoveDown));
    let e = sh.dispatch(WebAction::CommandModeMoveDown);
    assert!(matches!(e.command[0], CommandEffect::PreviewTheme { index: 1 }));
    let e = sh.dispatch(WebAction::CommandModeSubmit);
    assert!(matches!(&e.command[1], CommandEffect::CommitTheme { name, .. } if name == "light"));
}

#[test]
fn space_menu_through_the_shell() {
    let mut sh = Shell::new();
    sh.root = Some(s("/srv/root"));
    sh.menu.middle_path = Some(s("img/a.png"));
    sh.middle_is_image = true;
    assert_eq!(sh.key_action(&key(" ", "Space", false, false), false), Some(WebAction::SpaceMenuOpen));
    sh.dispatch(WebAction::SpaceMenuOpen);
    assert!(matches!(sh.menu.kind, Some(SpaceMenuKind::File { open_in_tab: true, .. })));
    // `j` has a row (Copy Zahir JSON) so it is a hotkey, not a move.
    let e = sh.dispatch(WebAction::SpaceMenuHotkey('c'));
    assert!(matches!(&e.menu[0], MenuEffect::CopyText { text, .. } if text == "/srv/root/img/a.png"));
    assert!(!sh.menu.visible);
    // In a lens-less Lenses bulk menu with no row for `k`, `k` moves the highlight.
    sh.mode = MainMode::Lenses;
    sh.menu.left_label = Some(s("L"));
    sh.pane = PaneFocus::Left;
    sh.dispatch(WebAction::SpaceMenuOpen);
    assert!(matches!(sh.menu.kind, Some(SpaceMenuKind::Lens { .. })));
    sh.dispatch(WebAction::SpaceMenuMoveDown);
    assert_eq!(sh.menu.selected, 1);
    let e = sh.dispatch(WebAction::SpaceMenuHotkey('k'));
    assert!(e.menu.is_empty());
    assert_eq!(sh.menu.selected, 0);
    let e = sh.dispatch(WebAction::SpaceMenuHotkey('d'));
    assert!(e.menu.is_empty());
    let e = sh.dispatch(WebAction::SpaceMenuSubmit);
    assert!(matches!(&e.menu[0], MenuEffect::Api { call: ApiCall::DeleteLens { name }, .. } if name == "L"));
}

#[test]
fn multiselect_and_bulk_through_the_shell() {
    let mut sh = Shell::new();
    sh.multiselect.cursor = Some(s("b.txt"));
    sh.dispatch(WebAction::MultiselectToggleMode);
    sh.multiselect.cursor = Some(s("a.txt"));
    sh.dispatch(WebAction::MultiselectToggleRow);
    assert_eq!(sh.multiselect.count(), 2);
    sh.pane = PaneFocus::Left;
    sh.dispatch(WebAction::MultiselectToggleRow);
    assert_eq!(sh.multiselect.count(), 2);
    sh.dispatch(WebAction::MultiselectOpenBulk);
    assert!(matches!(sh.menu.kind, Some(SpaceMenuKind::Bulk { lenses: false })));
    let e = sh.dispatch(WebAction::SpaceMenuHotkey('z'));
    assert!(matches!(&e.menu[0], MenuEffect::Api { call: ApiCall::Enhance { paths }, .. } if paths == &vec![s("a.txt"), s("b.txt")]));
    sh.dispatch(WebAction::MultiselectCancel);
    assert!(!sh.multiselect.active && sh.multiselect.selected.is_empty());
}

#[test]
fn modes_focus_lists_and_preview_effects() {
    let mut sh = Shell::new();
    let e = sh.dispatch(WebAction::MainMode(MainMode::Lenses));
    assert_eq!(sh.mode, MainMode::Snapshot);
    assert!(e.shell.is_empty());
    sh.has_lenses = true;
    let e = sh.dispatch(WebAction::MainMode(MainMode::Lenses));
    assert_eq!(sh.mode, MainMode::Lenses);
    assert_eq!(e.shell, vec![ShellEffect::SyncModeQuery(MainMode::Lenses)]);
    let e = sh.dispatch(WebAction::MainModeToggle);
    assert_eq!(sh.mode, MainMode::Settings);
    assert_eq!(e.shell, vec![ShellEffect::SyncModeQuery(MainMode::Settings)]);
    sh.dispatch(WebAction::FocusCycle);
    assert_eq!(sh.pane, PaneFocus::Left);
    assert_eq!(sh.dispatch(WebAction::MoveDownFast).shell, vec![ShellEffect::MoveList(10)]);
    assert_eq!(sh.dispatch(WebAction::ListBottom).shell, vec![ShellEffect::ListEnd]);
    assert_eq!(sh.dispatch(WebAction::PreviewTop).shell, vec![ShellEffect::Preview(PdfPageNav::Top)]);
    assert_eq!(sh.dispatch(WebAction::RightTab(RightTab::Writing)).shell, vec![ShellEffect::RequestTab(RightTab::Writing)]);
    assert_eq!(sh.dispatch(WebAction::CycleRightTab).shell, vec![ShellEffect::CycleTab]);
    sh.mode = MainMode::Delta;
    sh.dispatch(WebAction::CycleContentSort);
    assert_eq!(sh.sort.node_text(MainMode::Delta), Some(s("Time \u{2191}")));
    sh.dispatch(WebAction::ViewerFullscreenToggle);
    assert!(sh.viewer_fullscreen);
    assert_eq!(sh.key_action(&key("q", "KeyQ", false, false), false), Some(WebAction::ViewerFullscreenExit));
    sh.dispatch(WebAction::ViewerFullscreenExit);
    assert!(!sh.viewer_fullscreen);
}

#[test]
fn search_and_find_through_the_shell() {
    let mut sh = Shell::new();
    sh.dispatch(WebAction::SearchStart);
    assert!(sh.search.active);
    assert_eq!(sh.key_action(&key("S", "KeyS", false, true), false), None);
    sh.search.query = s("foo");
    sh.dispatch(WebAction::ViewerFindOpen);
    assert!(!sh.search.active && sh.find.active);
    assert_eq!(sh.search.query, "foo");
    sh.find.query = s("x");
    sh.find.submit();
    sh.find.total = 2;
    assert_eq!(sh.key_action(&key("n", "KeyN", false, false), false), Some(WebAction::ViewerFindNext));
    sh.dispatch(WebAction::ViewerFindNext);
    assert_eq!(sh.find.current, 1);
    sh.dispatch(WebAction::ViewerFindPrev);
    sh.dispatch(WebAction::ViewerFindPrev);
    assert_eq!(sh.find.current, 1);
    sh.dispatch(WebAction::ViewerFindClear);
    assert!(!sh.find.committed && sh.find.total == 0);
}

fn busy_shell() -> Shell {
    let mut sh = Shell::new();
    sh.has_lenses = true;
    sh.menu.middle_path = Some(s("a.txt"));
    sh.dispatch(WebAction::SpaceMenuOpen);
    assert!(sh.menu.visible);
    sh.multiselect.active = true;
    sh.multiselect.selected = vec![s("a.txt"), s("b.txt")];
    sh
}

#[test]
fn mode_change_clears_multiselect_menu_and_command_mode() {
    let mut sh = busy_shell();
    let e = sh.dispatch(WebAction::MainMode(MainMode::Lenses));
    assert_eq!(sh.mode, MainMode::Lenses);
    assert!(!sh.multiselect.active && sh.multiselect.selected.is_empty());
    assert!(!sh.menu.visible && sh.menu.kind.is_none() && sh.menu.pending.is_none());
    assert!(!sh.command.is_active());
    assert!(matches!(e.shell.as_slice(), [ShellEffect::SyncModeQuery(MainMode::Lenses)]));

    let mut sh = busy_shell();
    sh.command.pending = true;
    sh.menu.visible = false;
    sh.menu.kind = None;
    sh.dispatch(WebAction::MainModeToggle);
    assert_eq!(sh.mode, MainMode::Lenses);
    assert!(!sh.multiselect.active && !sh.command.is_active());

    // A hidden tab changes nothing.
    let mut sh = busy_shell();
    sh.dispatch(WebAction::MainMode(MainMode::Delta));
    assert_eq!(sh.mode, MainMode::Snapshot);
    assert!(sh.multiselect.active && sh.menu.visible);
}

#[test]
fn mode_change_resets_open_help_section() {
    let mut sh = Shell::new();
    sh.has_lenses = true;
    sh.help.visible = true;
    sh.help.section = 1;
    sh.dispatch(WebAction::MainMode(MainMode::Lenses));
    assert!(sh.help.visible);
    assert_eq!(sh.help.section, 0);
    let mut sh = Shell::new();
    sh.has_lenses = true;
    sh.help.section = 1;
    sh.dispatch(WebAction::MainMode(MainMode::Lenses));
    assert_eq!(sh.help.section, 1);
}

#[test]
fn leaving_contents_pane_ends_multiselect() {
    let mut sh = Shell::new();
    sh.multiselect.active = true;
    sh.multiselect.selected = vec![s("a.txt")];
    sh.dispatch(WebAction::FocusMiddle);
    assert!(sh.multiselect.active);
    sh.dispatch(WebAction::FocusCycle);
    assert_eq!(sh.pane, PaneFocus::Left);
    assert!(!sh.multiselect.active && sh.multiselect.selected.is_empty());
    sh.multiselect.active = true;
    sh.dispatch(WebAction::FocusLeft);
    assert!(!sh.multiselect.active);
}

#[test]
fn tab_clicks_deep_links_and_flags_fall_back_to_snapshot() {
    let mut sh = busy_shell();
    let e = sh.select_mode(MainMode::Duplicates);
    assert_eq!(sh.mode, MainMode::Snapshot);
    assert!(!sh.multiselect.active && !sh.menu.visible);
    assert!(matches!(e.shell.as_slice(), [ShellEffect::SyncModeQuery(MainMode::Snapshot)]));
    sh.select_mode(MainMode::Lenses);
    assert_eq!(sh.mode, MainMode::Lenses);
    let e = sh.set_flags(true, true, false);
    assert_eq!(sh.mode, MainMode::Lenses);
    assert!(e.shell.is_empty() && sh.has_delta);
    sh.multiselect.active = true;
    let e = sh.set_flags(false, true, false);
    assert_eq!(sh.mode, MainMode::Snapshot);
    assert!(!sh.has_lenses && !sh.multiselect.active);
    assert!(matches!(e.shell.as_slice(), [ShellEffect::SyncModeQuery(MainMode::Snapshot)]));
}
