use ublx::keys::ctrl_command_mode_leader_hit;

#[test]
fn leader_a_matches_letter_and_code() {
    assert!(ctrl_command_mode_leader_hit("a", "", 'a'));
    assert!(ctrl_command_mode_leader_hit("A", "KeyB", 'a')); // key letter wins
    assert!(ctrl_command_mode_leader_hit("", "KeyA", 'a'));
    assert!(!ctrl_command_mode_leader_hit("b", "KeyB", 'a'));
}

#[test]
fn leader_a_does_not_match_arrow_keys() {
    // Regression: `starts_with('a')` matched ArrowUp / ArrowDown.
    assert!(!ctrl_command_mode_leader_hit("ArrowUp", "ArrowUp", 'a'));
    assert!(!ctrl_command_mode_leader_hit("ArrowDown", "ArrowDown", 'a'));
    assert!(!ctrl_command_mode_leader_hit("ArrowLeft", "ArrowLeft", 'a'));
    assert!(!ctrl_command_mode_leader_hit(
        "ArrowRight",
        "ArrowRight",
        'a'
    ));
}

#[test]
fn leader_other_letters_and_non_letters() {
    assert!(ctrl_command_mode_leader_hit("x", "", 'X'));
    assert!(ctrl_command_mode_leader_hit("", "keyx", 'x'));
    assert!(!ctrl_command_mode_leader_hit("1", "Digit1", '1'));
    assert!(!ctrl_command_mode_leader_hit("ab", "", 'a'));
}

use ublx::keys::{
    action_from_keydown, CommandModeKeyCtx, FindKeyCtx, KeyInput, MultiselectKeyCtx,
    SpaceMenuKeyCtx, WebAction,
};
use ublx::layout::RightTab;
use ublx::nav::MainMode;

fn ev(key: &str, code: &str, ctrl: bool, shift: bool) -> KeyInput {
    KeyInput {
        key: key.to_string(),
        code: code.to_string(),
        ctrl,
        meta: false,
        alt: false,
        shift,
    }
}

fn find_off() -> FindKeyCtx {
    FindKeyCtx { committed: false, catalog_search_active: false, allow: true }
}

fn ms_off() -> MultiselectKeyCtx {
    MultiselectKeyCtx { active: false, applies: true, middle_focused: true }
}

fn space_closed() -> SpaceMenuKeyCtx {
    SpaceMenuKeyCtx { open: false, can_open: true }
}

fn cmd_idle() -> CommandModeKeyCtx {
    CommandModeKeyCtx { active: false, picker: false, blocked: false, leader: 'a' }
}

fn browse(e: &KeyInput) -> Option<WebAction> {
    action_from_keydown(e, false, find_off(), ms_off(), space_closed(), cmd_idle(), false)
}

#[test]
fn keymap_browse_letters_and_arrows() {
    assert_eq!(browse(&ev("j", "KeyJ", false, false)), Some(WebAction::MoveDown));
    assert_eq!(browse(&ev("k", "KeyK", false, false)), Some(WebAction::MoveUp));
    assert_eq!(browse(&ev("j", "KeyJ", true, false)), Some(WebAction::MoveDownFast));
    assert_eq!(browse(&ev("ArrowUp", "ArrowUp", true, false)), Some(WebAction::MoveUpFast));
    assert_eq!(browse(&ev("ArrowLeft", "ArrowLeft", false, false)), Some(WebAction::FocusLeft));
    assert_eq!(browse(&ev("l", "KeyL", false, false)), Some(WebAction::FocusMiddle));
    assert_eq!(browse(&ev("g", "KeyG", false, false)), Some(WebAction::ListTop));
    assert_eq!(browse(&ev("G", "KeyG", false, true)), Some(WebAction::ListBottom));
    assert_eq!(browse(&ev("s", "KeyS", false, false)), Some(WebAction::CycleContentSort));
    assert_eq!(browse(&ev("V", "KeyV", false, true)), Some(WebAction::RightTab(RightTab::Viewer)));
    assert_eq!(browse(&ev("m", "KeyM", false, false)), Some(WebAction::RightTab(RightTab::Metadata)));
    assert_eq!(browse(&ev("/", "Slash", false, false)), Some(WebAction::SearchStart));
    assert_eq!(browse(&ev("~", "Backquote", false, true)), Some(WebAction::MainModeToggle));
    assert_eq!(browse(&ev("Tab", "Tab", false, false)), Some(WebAction::FocusCycle));
    assert_eq!(browse(&ev("Tab", "Tab", false, true)), Some(WebAction::CycleRightTab));
    assert_eq!(browse(&ev("Escape", "Escape", false, false)), None);
    assert_eq!(browse(&ev("x", "KeyX", false, false)), None);
}

#[test]
fn keymap_mode_digits_and_help() {
    assert_eq!(browse(&ev("1", "Digit1", false, false)), Some(WebAction::MainMode(MainMode::Snapshot)));
    assert_eq!(browse(&ev("7", "Numpad7", false, false)), Some(WebAction::MainMode(MainMode::Delta)));
    assert_eq!(browse(&ev("9", "Digit9", false, false)), Some(WebAction::MainMode(MainMode::Settings)));
    assert_eq!(browse(&ev("3", "Digit3", false, false)), None);
    assert_eq!(browse(&ev("?", "Slash", false, true)), Some(WebAction::HelpToggle));
    let alt = KeyInput { alt: true, ..ev("j", "KeyJ", false, false) };
    assert_eq!(browse(&alt), None);
    let help = |e: &KeyInput| {
        action_from_keydown(e, true, find_off(), ms_off(), space_closed(), cmd_idle(), false)
    };
    assert_eq!(help(&ev("Escape", "Escape", false, false)), Some(WebAction::HelpClose));
    assert_eq!(help(&ev("Tab", "Tab", false, false)), Some(WebAction::HelpSectionNext));
    assert_eq!(help(&ev("Tab", "Tab", false, true)), Some(WebAction::HelpSectionPrev));
    assert_eq!(help(&ev("h", "KeyH", false, false)), Some(WebAction::HelpSectionPrev));
    assert_eq!(help(&ev("j", "KeyJ", false, false)), Some(WebAction::HelpAbsorb));
}

#[test]
fn keymap_find_fullscreen_and_preview() {
    let committed = FindKeyCtx { committed: true, catalog_search_active: false, allow: true };
    let f = |e: &KeyInput, fc: FindKeyCtx, fs: bool| {
        action_from_keydown(e, false, fc, ms_off(), space_closed(), cmd_idle(), fs)
    };
    assert_eq!(f(&ev("S", "KeyS", false, true), find_off(), false), Some(WebAction::ViewerFindOpen));
    let searching = FindKeyCtx { committed: false, catalog_search_active: true, allow: true };
    assert_eq!(f(&ev("S", "KeyS", false, true), searching, false), None);
    assert_eq!(f(&ev("n", "KeyN", false, false), committed, false), Some(WebAction::ViewerFindNext));
    assert_eq!(f(&ev("N", "KeyN", false, true), committed, false), Some(WebAction::ViewerFindPrev));
    assert_eq!(f(&ev("Escape", "Escape", false, false), committed, false), Some(WebAction::ViewerFindClear));
    assert_eq!(f(&ev("Escape", "Escape", false, false), find_off(), true), Some(WebAction::ViewerFullscreenExit));
    assert_eq!(f(&ev("q", "KeyQ", false, false), find_off(), true), Some(WebAction::ViewerFullscreenExit));
    assert_eq!(f(&ev("F", "KeyF", false, true), find_off(), false), Some(WebAction::ViewerFullscreenToggle));
    assert_eq!(f(&ev("J", "KeyJ", false, true), find_off(), false), Some(WebAction::ScrollPreviewDown));
    assert_eq!(f(&ev("ArrowUp", "ArrowUp", false, true), find_off(), false), Some(WebAction::ScrollPreviewUp));
    assert_eq!(f(&ev("B", "KeyB", false, true), find_off(), false), Some(WebAction::PreviewTop));
    assert_eq!(f(&ev("E", "KeyE", false, true), find_off(), false), Some(WebAction::PreviewBottom));
}

#[test]
fn keymap_multiselect_and_space_menu() {
    let on = MultiselectKeyCtx { active: true, applies: true, middle_focused: true };
    let m = |e: &KeyInput, ms: MultiselectKeyCtx, sp: SpaceMenuKeyCtx| {
        action_from_keydown(e, false, find_off(), ms, sp, cmd_idle(), false)
    };
    assert_eq!(m(&ev(" ", "Space", true, false), ms_off(), space_closed()), Some(WebAction::MultiselectToggleMode));
    let unfocused = MultiselectKeyCtx { active: false, applies: true, middle_focused: false };
    assert_eq!(m(&ev(" ", "Space", true, false), unfocused, space_closed()), None);
    assert_eq!(m(&ev(" ", "Space", false, false), on, space_closed()), Some(WebAction::MultiselectToggleRow));
    assert_eq!(m(&ev("Escape", "Escape", false, false), on, space_closed()), Some(WebAction::MultiselectCancel));
    assert_eq!(m(&ev("a", "KeyA", false, false), on, space_closed()), Some(WebAction::MultiselectOpenBulk));
    assert_eq!(m(&ev(" ", "Space", false, false), ms_off(), space_closed()), Some(WebAction::SpaceMenuOpen));
    let no_menu = SpaceMenuKeyCtx { open: false, can_open: false };
    assert_eq!(m(&ev(" ", "Space", false, false), ms_off(), no_menu), None);
    let open = SpaceMenuKeyCtx { open: true, can_open: true };
    assert_eq!(m(&ev("Escape", "Escape", false, false), ms_off(), open), Some(WebAction::SpaceMenuClose));
    assert_eq!(m(&ev("Enter", "Enter", false, false), ms_off(), open), Some(WebAction::SpaceMenuSubmit));
    assert_eq!(m(&ev("J", "KeyJ", false, false), ms_off(), open), Some(WebAction::SpaceMenuHotkey('j')));
    assert_eq!(m(&ev("3", "Digit3", false, false), ms_off(), open), Some(WebAction::SpaceMenuHotkey('3')));
    assert_eq!(m(&ev("ArrowDown", "ArrowDown", false, false), ms_off(), open), Some(WebAction::SpaceMenuMoveDown));
    assert_eq!(m(&ev("Tab", "Tab", false, false), ms_off(), open), Some(WebAction::SpaceMenuAbsorb));
}

#[test]
fn keymap_command_mode() {
    let c = |e: &KeyInput, cmd: CommandModeKeyCtx| {
        action_from_keydown(e, false, find_off(), ms_off(), space_closed(), cmd, false)
    };
    assert_eq!(c(&ev("a", "KeyA", true, false), cmd_idle()), Some(WebAction::CommandModeBegin));
    let blocked = CommandModeKeyCtx { blocked: true, ..cmd_idle() };
    assert_eq!(c(&ev("a", "KeyA", true, false), blocked), None);
    let active = CommandModeKeyCtx { active: true, ..cmd_idle() };
    assert_eq!(c(&ev("Escape", "Escape", false, false), active), Some(WebAction::CommandModeClose));
    assert_eq!(c(&ev("T", "KeyT", false, false), active), Some(WebAction::CommandModeHotkey('t')));
    assert_eq!(c(&ev("1", "Digit1", false, false), active), Some(WebAction::CommandModeAbsorb));
    let picker = CommandModeKeyCtx { active: true, picker: true, ..cmd_idle() };
    assert_eq!(c(&ev("Enter", "Enter", false, false), picker), Some(WebAction::CommandModeSubmit));
    assert_eq!(c(&ev("k", "KeyK", false, false), picker), Some(WebAction::CommandModeMoveUp));
    assert_eq!(c(&ev("Down", "ArrowDown", false, false), picker), Some(WebAction::CommandModeMoveDown));
    assert_eq!(c(&ev("x", "KeyX", false, false), picker), Some(WebAction::CommandModeAbsorb));
}
