//! Browser keyboard map — a TUI-shaped subset for list, pane and mode navigation.
//!
//! [`action_from_keydown`] decides, from one key press and the open overlays,
//! which [`WebAction`] the shell runs (or that the key passes through).

use vstd::prelude::*;
use vstd::utf8::encode_utf8;

use crate::layout::RightTab;
use crate::nav::MainMode;
use crate::text::{
    chars_eq_ignore_case, chars_is, chars_of, eq_ignore_case, is_alpha, is_ascii_alpha, is_ascii_digit,
    is_digit, lower_char, lower_chars, lower_seq, to_lower, to_upper, upper_char, digit_char,
};

verus! {

/// The fields of a browser `keydown` event that the key map reads.
#[derive(Clone, Debug)]
pub struct KeyInput {
    /// `KeyboardEvent.key` (e.g. `"a"`, `"ArrowUp"`, `" "`).
    pub key: String,
    /// `KeyboardEvent.code` (e.g. `"KeyA"`, `"Digit1"`).
    pub code: String,
    pub ctrl: bool,
    pub meta: bool,
    pub alt: bool,
    pub shift: bool,
}

/// Actions the web shell handles.
#[derive(Clone, Copy, Debug, PartialEq, Eq, Structural)]
pub enum WebAction {
    SearchStart,
    MainMode(MainMode),
    MainModeToggle,
    FocusLeft,
    FocusMiddle,
    FocusCycle,
    MoveUp,
    MoveDown,
    MoveUpFast,
    MoveDownFast,
    ListTop,
    ListBottom,
    RightTab(RightTab),
    CycleRightTab,
    HelpToggle,
    HelpClose,
    HelpSectionNext,
    HelpSectionPrev,
    /// Help is open — consume the key without side effects.
    HelpAbsorb,
    /// Cycle middle-pane content sort (`s`).
    CycleContentSort,
    /// Right-pane preview: scroll down / next PDF page.
    ScrollPreviewDown,
    /// Right-pane preview: scroll up / previous PDF page.
    ScrollPreviewUp,
    /// Right-pane preview: top / first PDF page.
    PreviewTop,
    /// Right-pane preview: bottom / last PDF page.
    PreviewBottom,
    /// Open / re-edit Viewer find (Shift+S).
    ViewerFindOpen,
    /// Next find match (`n` while find committed).
    ViewerFindNext,
    /// Previous find match (`N` while find committed).
    ViewerFindPrev,
    /// Clear Viewer find (Esc while committed).
    ViewerFindClear,
    /// Toggle right-pane fullscreen (Shift+F).
    ViewerFullscreenToggle,
    /// Exit right-pane fullscreen (Esc / q while fullscreen).
    ViewerFullscreenExit,
    /// Ctrl+Space — enter/exit multi-select.
    MultiselectToggleMode,
    /// Space — toggle cursor row while multi-select is active.
    MultiselectToggleRow,
    /// Esc — exit multi-select.
    MultiselectCancel,
    /// `a` — open bulk menu while multi-select is active.
    MultiselectOpenBulk,
    /// Space — open quick-actions (when multi-select is off).
    SpaceMenuOpen,
    SpaceMenuMoveUp,
    SpaceMenuMoveDown,
    SpaceMenuSubmit,
    SpaceMenuClose,
    /// Letter hotkey while the Space / bulk menu is open.
    SpaceMenuHotkey(char),
    /// Menu open — swallow unmatched keys.
    SpaceMenuAbsorb,
    /// Ctrl+leader — start the Command Mode chord.
    CommandModeBegin,
    CommandModeClose,
    CommandModeHotkey(char),
    CommandModeMoveUp,
    CommandModeMoveDown,
    CommandModeSubmit,
    CommandModeAbsorb,
}

/// Keymap gates for Viewer find.
#[derive(Clone, Copy, Debug)]
pub struct FindKeyCtx {
    /// Find bar committed (n/N / Esc clear).
    pub committed: bool,
    /// Catalog `/` search is typing — blocks Shift+S.
    pub catalog_search_active: bool,
    /// False in Settings.
    pub allow: bool,
}

/// Keymap gates for multi-select.
#[derive(Clone, Copy, Debug)]
pub struct MultiselectKeyCtx {
    pub active: bool,
    /// Snapshot or Lenses.
    pub applies: bool,
    /// Contents (middle) pane focused.
    pub middle_focused: bool,
}

/// Keymap gates for the Space / bulk menu.
#[derive(Clone, Copy, Debug)]
pub struct SpaceMenuKeyCtx {
    pub open: bool,
    /// Snapshot / Lenses / Duplicates (not Delta / Settings).
    pub can_open: bool,
}

/// Keymap gates for Command Mode (Ctrl+leader).
#[derive(Clone, Copy, Debug)]
pub struct CommandModeKeyCtx {
    /// Chord pending, menu open, or theme/root picker open.
    pub active: bool,
    /// Theme / root picker (j/k Enter instead of letter actions).
    pub picker: bool,
    /// Help, Space menu, Settings, catalog search — do not begin the chord.
    pub blocked: bool,
    pub leader: char,
}

// ---------------------------------------------------------------------------
// Specification of the key map
// ---------------------------------------------------------------------------

/// The key text is one byte long in UTF-8 (`key.len() == 1`): a single ASCII character.
pub open spec fn one_byte(k: Seq<char>) -> bool {
    k.len() == 1 && (k[0] as u32) < 0x80
}

/// `one_byte` is exactly "the UTF-8 encoding is one byte long".
pub proof fn lemma_one_byte(k: Seq<char>)
    ensures
        one_byte(k) <==> encode_utf8(k).len() == 1,
{
    if k.len() >= 1 {
        assert(k.drop_first().len() == k.len() - 1);
        lemma_encode_len_ge(k.drop_first());
        vstd::utf8::char_is_scalar(k[0]);
    }
}

proof fn lemma_encode_len_ge(k: Seq<char>)
    ensures
        encode_utf8(k).len() >= k.len(),
    decreases k.len(),
{
    if k.len() > 0 {
        lemma_encode_len_ge(k.drop_first());
    }
}

/// `key` / `code` is exactly the Command Mode leader (letter key or `Key<L>` code).
pub open spec fn leader_hit_spec(key: Seq<char>, code: Seq<char>, leader: char) -> bool {
    let l = lower_char(leader);
    &&& is_ascii_alpha(l)
    &&& (one_byte(key) && eq_ignore_case(key, seq![l])) || eq_ignore_case(
        code,
        "Key"@.push(upper_char(l)),
    )
}

/// The leader matches only its bare letter or its `Key<L>` code: a longer key
/// text such as `ArrowUp` (which starts with the leader `a`) never does.
pub proof fn law_leader_exact_only(key: Seq<char>, code: Seq<char>, leader: char)
    requires
        key.len() != 1,
        !eq_ignore_case(code, "Key"@.push(upper_char(lower_char(leader)))),
    ensures
        !leader_hit_spec(key, code, leader),
{
}

/// Keys while the help overlay is open.
pub open spec fn help_spec(key: Seq<char>, ctrl: bool, shift: bool) -> WebAction {
    if !ctrl && key == "Escape"@ {
        WebAction::HelpClose
    } else if !ctrl && !shift && key == "Tab"@ {
        WebAction::HelpSectionNext
    } else if shift && !ctrl && key == "Tab"@ {
        WebAction::HelpSectionPrev
    } else if !ctrl && !shift && (key == "ArrowRight"@ || key == "l"@ || key == "L"@) {
        WebAction::HelpSectionNext
    } else if !ctrl && !shift && (key == "ArrowLeft"@ || key == "h"@ || key == "H"@) {
        WebAction::HelpSectionPrev
    } else {
        WebAction::HelpAbsorb
    }
}

/// Keys while the Command Mode chord, menu or a picker is active.
pub open spec fn command_spec(
    key: Seq<char>,
    code: Seq<char>,
    ctrl: bool,
    shift: bool,
    picker: bool,
) -> Option<WebAction> {
    if !ctrl && key == "Escape"@ {
        Some(WebAction::CommandModeClose)
    } else if picker {
        if !ctrl && !shift && (key == "Enter"@ || key == " "@) {
            Some(WebAction::CommandModeSubmit)
        } else if !ctrl && !shift && (key == "ArrowUp"@ || key == "k"@ || key == "K"@) {
            Some(WebAction::CommandModeMoveUp)
        } else if !ctrl && !shift && (key == "ArrowDown"@ || key == "j"@ || key == "J"@) {
            Some(WebAction::CommandModeMoveDown)
        } else if !ctrl && !shift && code == "ArrowUp"@ {
            Some(WebAction::CommandModeMoveUp)
        } else if !ctrl && !shift && code == "ArrowDown"@ {
            Some(WebAction::CommandModeMoveDown)
        } else {
            Some(WebAction::CommandModeAbsorb)
        }
    } else if !ctrl && !shift && one_byte(key) {
        if is_ascii_alpha(lower_char(key[0])) {
            Some(WebAction::CommandModeHotkey(lower_char(key[0])))
        } else {
            Some(WebAction::CommandModeAbsorb)
        }
    } else {
        Some(WebAction::CommandModeAbsorb)
    }
}

/// Keys while the Space / bulk menu is open.
pub open spec fn space_spec(key: Seq<char>, ctrl: bool, shift: bool) -> Option<WebAction> {
    if !ctrl && key == "Escape"@ {
        Some(WebAction::SpaceMenuClose)
    } else if !ctrl && !shift && (key == "Enter"@ || key == " "@) {
        Some(WebAction::SpaceMenuSubmit)
    } else if !ctrl && !shift && one_byte(key) && (is_ascii_alpha(lower_char(key[0]))
        || is_ascii_digit(lower_char(key[0]))) {
        Some(WebAction::SpaceMenuHotkey(lower_char(key[0])))
    } else if !ctrl && !shift && key == "ArrowUp"@ {
        Some(WebAction::SpaceMenuMoveUp)
    } else if !ctrl && !shift && key == "ArrowDown"@ {
        Some(WebAction::SpaceMenuMoveDown)
    } else {
        Some(WebAction::SpaceMenuAbsorb)
    }
}

/// Main tab for a digit key `code` (top row or numpad).
pub open spec fn digit_mode_spec(code: Seq<char>) -> Option<MainMode> {
    if code == "Digit1"@ || code == "Numpad1"@ {
        Some(MainMode::Snapshot)
    } else if code == "Digit2"@ || code == "Numpad2"@ {
        Some(MainMode::Lenses)
    } else if code == "Digit7"@ || code == "Numpad7"@ {
        Some(MainMode::Delta)
    } else if code == "Digit8"@ || code == "Numpad8"@ {
        Some(MainMode::Duplicates)
    } else if code == "Digit9"@ || code == "Numpad9"@ {
        Some(MainMode::Settings)
    } else {
        None
    }
}

/// Arrow keys outside every overlay.
pub open spec fn arrows_spec(key: Seq<char>, ctrl: bool, shift: bool) -> Option<WebAction> {
    if key == "ArrowLeft"@ && !ctrl && !shift {
        Some(WebAction::FocusLeft)
    } else if key == "ArrowRight"@ && !ctrl && !shift {
        Some(WebAction::FocusMiddle)
    } else if key == "ArrowUp"@ && !shift {
        Some(if ctrl { WebAction::MoveUpFast } else { WebAction::MoveUp })
    } else if key == "ArrowDown"@ && !shift {
        Some(if ctrl { WebAction::MoveDownFast } else { WebAction::MoveDown })
    } else {
        None
    }
}

/// Letter keys (compared ASCII-lowercased) outside every overlay.
pub open spec fn letters_spec(key: Seq<char>, ctrl: bool, shift: bool) -> Option<WebAction> {
    let lower = lower_seq(key);
    if lower == "v"@ && !ctrl {
        Some(WebAction::RightTab(RightTab::Viewer))
    } else if lower == "t"@ && !ctrl {
        Some(WebAction::RightTab(RightTab::Templates))
    } else if lower == "m"@ && !ctrl {
        Some(WebAction::RightTab(RightTab::Metadata))
    } else if lower == "w"@ && !ctrl {
        Some(WebAction::RightTab(RightTab::Writing))
    } else if lower == "h"@ && !ctrl && !shift {
        Some(WebAction::FocusLeft)
    } else if lower == "l"@ && !ctrl && !shift {
        Some(WebAction::FocusMiddle)
    } else if lower == "k"@ && !shift {
        Some(if ctrl { WebAction::MoveUpFast } else { WebAction::MoveUp })
    } else if lower == "j"@ && !shift {
        Some(if ctrl { WebAction::MoveDownFast } else { WebAction::MoveDown })
    } else if lower == "g"@ && !ctrl && !shift && key == "g"@ {
        Some(WebAction::ListTop)
    } else if lower == "g"@ && !ctrl && key == "G"@ {
        Some(WebAction::ListBottom)
    } else if lower == "s"@ && !ctrl && !shift && key == "s"@ {
        Some(WebAction::CycleContentSort)
    } else {
        arrows_spec(key, ctrl, shift)
    }
}

/// Keys when no overlay (help, Command Mode, Space menu) takes them.
pub open spec fn browse_spec(
    key: Seq<char>,
    code: Seq<char>,
    ctrl: bool,
    shift: bool,
    find: FindKeyCtx,
    ms: MultiselectKeyCtx,
    space: SpaceMenuKeyCtx,
    fullscreen: bool,
) -> Option<WebAction> {
    let is_space = key == " "@ || code == "Space"@;
    if shift && !ctrl && key == "Tab"@ {
        Some(WebAction::CycleRightTab)
    } else if shift && !ctrl && find.allow && !find.catalog_search_active && (key == "S"@ || key
        == "s"@) {
        Some(WebAction::ViewerFindOpen)
    } else if find.committed && !ctrl && key == "Escape"@ {
        Some(WebAction::ViewerFindClear)
    } else if find.committed && !ctrl && !shift && (key == "n"@ || key == "N"@) {
        Some(WebAction::ViewerFindNext)
    } else if find.committed && !ctrl && shift && (key == "N"@ || key == "n"@ || code
        == "KeyN"@) {
        Some(WebAction::ViewerFindPrev)
    } else if ctrl && !shift && is_space {
        if ms.applies && ms.middle_focused {
            Some(WebAction::MultiselectToggleMode)
        } else {
            None
        }
    } else if ms.active && !ctrl && !shift && is_space {
        Some(WebAction::MultiselectToggleRow)
    } else if ms.active && !ctrl && key == "Escape"@ {
        Some(WebAction::MultiselectCancel)
    } else if ms.active && !ctrl && !shift && (key == "a"@ || key == "A"@) {
        Some(WebAction::MultiselectOpenBulk)
    } else if fullscreen && !ctrl && key == "Escape"@ {
        Some(WebAction::ViewerFullscreenExit)
    } else if fullscreen && !ctrl && !shift && (key == "q"@ || key == "Q"@) {
        Some(WebAction::ViewerFullscreenExit)
    } else if !ms.active && !ctrl && !shift && is_space && space.can_open {
        Some(WebAction::SpaceMenuOpen)
    } else if shift && !ctrl && (key == "F"@ || key == "f"@ || code == "KeyF"@) {
        Some(WebAction::ViewerFullscreenToggle)
    } else if shift && !ctrl && (key == "J"@ || key == "j"@ || code == "ArrowDown"@) {
        Some(WebAction::ScrollPreviewDown)
    } else if shift && !ctrl && (key == "K"@ || key == "k"@ || code == "ArrowUp"@) {
        Some(WebAction::ScrollPreviewUp)
    } else if shift && !ctrl && (key == "B"@ || key == "b"@) {
        Some(WebAction::PreviewTop)
    } else if shift && !ctrl && (key == "E"@ || key == "e"@) {
        Some(WebAction::PreviewBottom)
    } else if !ctrl && !shift && digit_mode_spec(code) is Some {
        Some(WebAction::MainMode(digit_mode_spec(code)->0))
    } else if !ctrl && !shift && key == "/"@ {
        Some(WebAction::SearchStart)
    } else if !ctrl && key == "~"@ {
        Some(WebAction::MainModeToggle)
    } else if !ctrl && !shift && key == "Tab"@ {
        Some(WebAction::FocusCycle)
    } else if !ctrl && key == "Escape"@ {
        None
    } else {
        letters_spec(key, ctrl, shift)
    }
}

/// The whole key map: which action a key press triggers, if any.
pub open spec fn action_spec(
    ev: KeyInput,
    help_open: bool,
    find: FindKeyCtx,
    ms: MultiselectKeyCtx,
    space: SpaceMenuKeyCtx,
    cmd: CommandModeKeyCtx,
    fullscreen: bool,
) -> Option<WebAction> {
    let key = ev.key@;
    let code = ev.code@;
    let ctrl = ev.ctrl || ev.meta;
    let shift = ev.shift;
    if ev.alt {
        None
    } else if !ctrl && (key == "?"@ || (shift && code == "Slash"@)) {
        Some(WebAction::HelpToggle)
    } else if help_open {
        Some(help_spec(key, ctrl, shift))
    } else if cmd.active {
        command_spec(key, code, ctrl, shift, cmd.picker)
    } else if ctrl && !shift && !cmd.blocked && leader_hit_spec(key, code, cmd.leader) {
        Some(WebAction::CommandModeBegin)
    } else if space.open {
        space_spec(key, ctrl, shift)
    } else {
        browse_spec(key, code, ctrl, shift, find, ms, space, fullscreen)
    }
}

// ---------------------------------------------------------------------------
// Implementation
// ---------------------------------------------------------------------------

/// True when `key` / `code` is exactly the Command Mode leader (e.g. `a` / `KeyA`).
///
/// No prefix matching: `ArrowUp` / `ArrowDown` start with `a` but never open Command Mode.
pub fn ctrl_command_mode_leader_hit(key: &str, code: &str, leader: char) -> (r: bool)
    ensures
        r == leader_hit_spec(key@, code@, leader),
{
    let leader = to_lower(leader);
    if !is_alpha(leader) {
        return false;
    }
    let kv = chars_of(key);
    let mut lv: Vec<char> = Vec::new();
    lv.push(leader);
    if is_one_byte(&kv) && chars_eq_ignore_case(&kv, &lv) {
        assert(lv@ =~= seq![leader]);
        return true;
    }
    assert(lv@ =~= seq![leader]);
    let cv = chars_of(code);
    let mut target = chars_of("Key");
    target.push(to_upper(leader));
    chars_eq_ignore_case(&cv, &target)
}

/// True when `k` is a single ASCII character.
fn is_one_byte(k: &Vec<char>) -> (r: bool)
    ensures
        r == one_byte(k@),
{
    k.len() == 1 && (k[0] as u32) < 0x80
}

fn help_action(key: &Vec<char>, ctrl: bool, shift: bool) -> (r: WebAction)
    ensures
        r == help_spec(key@, ctrl, shift),
{
    if !ctrl && chars_is(key, "Escape") {
        return WebAction::HelpClose;
    }
    let tab = chars_is(key, "Tab");
    if !ctrl && !shift && tab {
        return WebAction::HelpSectionNext;
    }
    if shift && !ctrl && tab {
        return WebAction::HelpSectionPrev;
    }
    if !ctrl && !shift {
        if chars_is(key, "ArrowRight") || chars_is(key, "l") || chars_is(key, "L") {
            return WebAction::HelpSectionNext;
        }
        if chars_is(key, "ArrowLeft") || chars_is(key, "h") || chars_is(key, "H") {
            return WebAction::HelpSectionPrev;
        }
    }
    WebAction::HelpAbsorb
}

fn command_action(
    key: &Vec<char>,
    code: &Vec<char>,
    one: bool,
    ctrl: bool,
    shift: bool,
    picker: bool,
) -> (r: Option<WebAction>)
    requires
        one == one_byte(key@),
    ensures
        r == command_spec(key@, code@, ctrl, shift, picker),
{
    if !ctrl && chars_is(key, "Escape") {
        return Some(WebAction::CommandModeClose);
    }
    if picker {
        if !ctrl && !shift && (chars_is(key, "Enter") || chars_is(key, " ")) {
            return Some(WebAction::CommandModeSubmit);
        }
        if !ctrl && !shift {
            if chars_is(key, "ArrowUp") || chars_is(key, "k") || chars_is(key, "K") {
                return Some(WebAction::CommandModeMoveUp);
            }
            if chars_is(key, "ArrowDown") || chars_is(key, "j") || chars_is(key, "J") {
                return Some(WebAction::CommandModeMoveDown);
            }
            if chars_is(code, "ArrowUp") {
                return Some(WebAction::CommandModeMoveUp);
            }
            if chars_is(code, "ArrowDown") {
                return Some(WebAction::CommandModeMoveDown);
            }
        }
        return Some(WebAction::CommandModeAbsorb);
    }
    if !ctrl && !shift && one {
        let c = to_lower(key[0]);
        if is_alpha(c) {
            return Some(WebAction::CommandModeHotkey(c));
        }
    }
    Some(WebAction::CommandModeAbsorb)
}

fn space_action(key: &Vec<char>, one: bool, ctrl: bool, shift: bool) -> (r: Option<WebAction>)
    requires
        one == one_byte(key@),
    ensures
        r == space_spec(key@, ctrl, shift),
{
    if !ctrl && chars_is(key, "Escape") {
        return Some(WebAction::SpaceMenuClose);
    }
    if !ctrl && !shift && (chars_is(key, "Enter") || chars_is(key, " ")) {
        return Some(WebAction::SpaceMenuSubmit);
    }
    if !ctrl && !shift && one {
        let c = to_lower(key[0]);
        if is_alpha(c) || is_digit(c) {
            return Some(WebAction::SpaceMenuHotkey(c));
        }
    }
    if !ctrl && !shift {
        if chars_is(key, "ArrowUp") {
            return Some(WebAction::SpaceMenuMoveUp);
        }
        if chars_is(key, "ArrowDown") {
            return Some(WebAction::SpaceMenuMoveDown);
        }
    }
    Some(WebAction::SpaceMenuAbsorb)
}

fn digit_mode(code: &Vec<char>) -> (r: Option<MainMode>)
    ensures
        r == digit_mode_spec(code@),
{
    if chars_is(code, "Digit1") || chars_is(code, "Numpad1") {
        Some(MainMode::Snapshot)
    } else if chars_is(code, "Digit2") || chars_is(code, "Numpad2") {
        Some(MainMode::Lenses)
    } else if chars_is(code, "Digit7") || chars_is(code, "Numpad7") {
        Some(MainMode::Delta)
    } else if chars_is(code, "Digit8") || chars_is(code, "Numpad8") {
        Some(MainMode::Duplicates)
    } else if chars_is(code, "Digit9") || chars_is(code, "Numpad9") {
        Some(MainMode::Settings)
    } else {
        None
    }
}

fn arrows_action(key: &Vec<char>, ctrl: bool, shift: bool) -> (r: Option<WebAction>)
    ensures
        r == arrows_spec(key@, ctrl, shift),
{
    if chars_is(key, "ArrowLeft") && !ctrl && !shift {
        Some(WebAction::FocusLeft)
    } else if chars_is(key, "ArrowRight") && !ctrl && !shift {
        Some(WebAction::FocusMiddle)
    } else if chars_is(key, "ArrowUp") && !shift {
        Some(
            if ctrl {
                WebAction::MoveUpFast
            } else {
                WebAction::MoveUp
            },
        )
    } else if chars_is(key, "ArrowDown") && !shift {
        Some(
            if ctrl {
                WebAction::MoveDownFast
            } else {
                WebAction::MoveDown
            },
        )
    } else {
        None
    }
}

fn letters_action(key: &Vec<char>, ctrl: bool, shift: bool) -> (r: Option<WebAction>)
    ensures
        r == letters_spec(key@, ctrl, shift),
{
    let lower = lower_chars(key);
    if chars_is(&lower, "v") && !ctrl {
        Some(WebAction::RightTab(RightTab::Viewer))
    } else if chars_is(&lower, "t") && !ctrl {
        Some(WebAction::RightTab(RightTab::Templates))
    } else if chars_is(&lower, "m") && !ctrl {
        Some(WebAction::RightTab(RightTab::Metadata))
    } else if chars_is(&lower, "w") && !ctrl {
        Some(WebAction::RightTab(RightTab::Writing))
    } else if chars_is(&lower, "h") && !ctrl && !shift {
        Some(WebAction::FocusLeft)
    } else if chars_is(&lower, "l") && !ctrl && !shift {
        Some(WebAction::FocusMiddle)
    } else if chars_is(&lower, "k") && !shift {
        Some(
            if ctrl {
                WebAction::MoveUpFast
            } else {
                WebAction::MoveUp
            },
        )
    } else if chars_is(&lower, "j") && !shift {
        Some(
            if ctrl {
                WebAction::MoveDownFast
            } else {
                WebAction::MoveDown
            },
        )
    } else if chars_is(&lower, "g") && !ctrl && !shift && chars_is(key, "g") {
        Some(WebAction::ListTop)
    } else if chars_is(&lower, "g") && !ctrl && chars_is(key, "G") {
        Some(WebAction::ListBottom)
    } else if chars_is(&lower, "s") && !ctrl && !shift && chars_is(key, "s") {
        Some(WebAction::CycleContentSort)
    } else {
        arrows_action(key, ctrl, shift)
    }
}

fn browse_action(
    key: &Vec<char>,
    code: &Vec<char>,
    ctrl: bool,
    shift: bool,
    find: FindKeyCtx,
    ms: MultiselectKeyCtx,
    space: SpaceMenuKeyCtx,
    fullscreen: bool,
) -> (r: Option<WebAction>)
    ensures
        r == browse_spec(key@, code@, ctrl, shift, find, ms, space, fullscreen),
{
    let esc = chars_is(key, "Escape");
    let is_space = chars_is(key, " ") || chars_is(code, "Space");
    if shift && !ctrl && chars_is(key, "Tab") {
        return Some(WebAction::CycleRightTab);
    }
    if shift && !ctrl && find.allow && !find.catalog_search_active && (chars_is(key, "S")
        || chars_is(key, "s")) {
        return Some(WebAction::ViewerFindOpen);
    }
    if find.committed && !ctrl {
        if esc {
            return Some(WebAction::ViewerFindClear);
        }
        let n = chars_is(key, "n") || chars_is(key, "N");
        if !shift && n {
            return Some(WebAction::ViewerFindNext);
        }
        if shift && (n || chars_is(code, "KeyN")) {
            return Some(WebAction::ViewerFindPrev);
        }
    }
    if ctrl && !shift && is_space {
        if ms.applies && ms.middle_focused {
            return Some(WebAction::MultiselectToggleMode);
        }
        return None;
    }
    if ms.active && !ctrl && !shift && is_space {
        return Some(WebAction::MultiselectToggleRow);
    }
    if ms.active && !ctrl && esc {
        return Some(WebAction::MultiselectCancel);
    }
    if ms.active && !ctrl && !shift && (chars_is(key, "a") || chars_is(key, "A")) {
        return Some(WebAction::MultiselectOpenBulk);
    }
    if fullscreen && !ctrl {
        if esc {
            return Some(WebAction::ViewerFullscreenExit);
        }
        if !shift && (chars_is(key, "q") || chars_is(key, "Q")) {
            return Some(WebAction::ViewerFullscreenExit);
        }
    }
    if !ms.active && !ctrl && !shift && is_space && space.can_open {
        return Some(WebAction::SpaceMenuOpen);
    }
    if shift && !ctrl {
        if chars_is(key, "F") || chars_is(key, "f") || chars_is(code, "KeyF") {
            return Some(WebAction::ViewerFullscreenToggle);
        }
        if chars_is(key, "J") || chars_is(key, "j") || chars_is(code, "ArrowDown") {
            return Some(WebAction::ScrollPreviewDown);
        }
        if chars_is(key, "K") || chars_is(key, "k") || chars_is(code, "ArrowUp") {
            return Some(WebAction::ScrollPreviewUp);
        }
        if chars_is(key, "B") || chars_is(key, "b") {
            return Some(WebAction::PreviewTop);
        }
        if chars_is(key, "E") || chars_is(key, "e") {
            return Some(WebAction::PreviewBottom);
        }
    }
    if !ctrl && !shift {
        if let Some(m) = digit_mode(code) {
            return Some(WebAction::MainMode(m));
        }
    }
    if !ctrl {
        if !shift && chars_is(key, "/") {
            return Some(WebAction::SearchStart);
        }
        if chars_is(key, "~") {
            return Some(WebAction::MainModeToggle);
        }
        if !shift && chars_is(key, "Tab") {
            return Some(WebAction::FocusCycle);
        }
        if esc {
            return None;
        }
    }
    letters_action(key, ctrl, shift)
}

/// Map a key press to a [`WebAction`]; `None` when the event should pass through.
///
/// The caller skips this while a form field is focused. While help is open only help
/// navigation / close / toggle come back.
pub fn action_from_keydown(
    ev: &KeyInput,
    help_open: bool,
    find: FindKeyCtx,
    ms: MultiselectKeyCtx,
    space: SpaceMenuKeyCtx,
    cmd: CommandModeKeyCtx,
    viewer_fullscreen: bool,
) -> (r: Option<WebAction>)
    ensures
        r == action_spec(*ev, help_open, find, ms, space, cmd, viewer_fullscreen),
{
    let key = chars_of(ev.key.as_str());
    let code = chars_of(ev.code.as_str());
    let ctrl = ev.ctrl || ev.meta;
    let alt = ev.alt;
    let shift = ev.shift;
    let one = is_one_byte(&key);

    if alt {
        return None;
    }
    if !ctrl && (chars_is(&key, "?") || (shift && chars_is(&code, "Slash"))) {
        return Some(WebAction::HelpToggle);
    }
    if help_open {
        return Some(help_action(&key, ctrl, shift));
    }
    if cmd.active {
        return command_action(&key, &code, one, ctrl, shift, cmd.picker);
    }
    if ctrl && !shift && !cmd.blocked && ctrl_command_mode_leader_hit(
        ev.key.as_str(),
        ev.code.as_str(),
        cmd.leader,
    ) {
        return Some(WebAction::CommandModeBegin);
    }
    if space.open {
        return space_action(&key, one, ctrl, shift);
    }
    browse_action(&key, &code, ctrl, shift, find, ms, space, viewer_fullscreen)
}

/// Keys on the focused picker panel of Command Mode (theme / root list).
pub open spec fn picker_panel_spec(picker_open: bool, key: Seq<char>, code: Seq<char>, ctrl: bool, shift: bool) -> Option<WebAction> {
    if !picker_open || ctrl || shift {
        None
    } else if key == "Escape"@ {
        Some(WebAction::CommandModeClose)
    } else if key == "Enter"@ || key == " "@ {
        Some(WebAction::CommandModeSubmit)
    } else if key == "ArrowUp"@ || key == "k"@ || key == "K"@ || code == "ArrowUp"@ {
        Some(WebAction::CommandModeMoveUp)
    } else if key == "ArrowDown"@ || key == "j"@ || key == "J"@ || code == "ArrowDown"@ {
        Some(WebAction::CommandModeMoveDown)
    } else {
        None
    }
}

/// A key pressed on the picker panel itself: Esc closes, Enter / Space
/// submits, Up / k and Down / j move; `None` lets the key through (also with
/// Ctrl or Shift held, or when no picker is open).
pub fn picker_panel_action(picker_open: bool, ev: &KeyInput) -> (r: Option<WebAction>)
    ensures
        r == picker_panel_spec(picker_open, ev.key@, ev.code@, ev.ctrl || ev.meta, ev.shift),
{
    let ctrl = ev.ctrl || ev.meta;
    if !picker_open || ctrl || ev.shift {
        return None;
    }
    let key = chars_of(ev.key.as_str());
    let code = chars_of(ev.code.as_str());
    if chars_is(&key, "Escape") {
        Some(WebAction::CommandModeClose)
    } else if chars_is(&key, "Enter") || chars_is(&key, " ") {
        Some(WebAction::CommandModeSubmit)
    } else if chars_is(&key, "ArrowUp") || chars_is(&key, "k") || chars_is(&key, "K") || chars_is(&code, "ArrowUp") {
        Some(WebAction::CommandModeMoveUp)
    } else if chars_is(&key, "ArrowDown") || chars_is(&key, "j") || chars_is(&key, "J") || chars_is(&code, "ArrowDown") {
        Some(WebAction::CommandModeMoveDown)
    } else {
        None
    }
}

/// Each tab's digit key, on the top row or the numpad, selects that tab: the
/// code `Digit<d>` / `Numpad<d>` for the tab's digit `d` (Snapshot 1,
/// Lenses 2, Delta 7, Duplicates 8, Settings 9) reads back as the tab, and
/// no other code does.
pub proof fn law_digit_keys_select_their_tab(m: MainMode, code: Seq<char>)
    ensures
        digit_mode_spec("Digit"@ + seq![digit_char(m.digit_spec() as nat)]) == Some(m),
        digit_mode_spec("Numpad"@ + seq![digit_char(m.digit_spec() as nat)]) == Some(m),
        digit_mode_spec(code) == Some(m) ==> code == "Digit"@ + seq![digit_char(m.digit_spec() as nat)] || code
            == "Numpad"@ + seq![digit_char(m.digit_spec() as nat)],
{
    reveal_strlit("Digit");
    reveal_strlit("Numpad");
    reveal_strlit("Digit1");
    reveal_strlit("Numpad1");
    reveal_strlit("Digit2");
    reveal_strlit("Numpad2");
    reveal_strlit("Digit7");
    reveal_strlit("Numpad7");
    reveal_strlit("Digit8");
    reveal_strlit("Numpad8");
    reveal_strlit("Digit9");
    reveal_strlit("Numpad9");
    lemma_tab_digit_char(m);
    let d = digit_char(m.digit_spec() as nat);
    let top = "Digit"@ + seq![d];
    let pad = "Numpad"@ + seq![d];
    match m {
        MainMode::Snapshot => {
            assert(top =~= "Digit1"@);
            assert(pad =~= "Numpad1"@);
            assert(digit_mode_spec(top) == Some(MainMode::Snapshot));
            assert(digit_mode_spec(pad) == Some(MainMode::Snapshot));
        },
        MainMode::Lenses => {
            assert(top =~= "Digit2"@);
            assert(pad =~= "Numpad2"@);
            assert(top[5] != "Digit1"@[5]);
            assert(pad[6] != "Numpad1"@[6]);
            assert(digit_mode_spec(top) == Some(MainMode::Lenses));
            assert(digit_mode_spec(pad) == Some(MainMode::Lenses));
        },
        MainMode::Delta => {
            assert(top =~= "Digit7"@);
            assert(pad =~= "Numpad7"@);
            assert(top[5] != "Digit1"@[5]);
            assert(pad[6] != "Numpad1"@[6]);
            assert(top[5] != "Digit2"@[5]);
            assert(pad[6] != "Numpad2"@[6]);
            assert(digit_mode_spec(top) == Some(MainMode::Delta));
            assert(digit_mode_spec(pad) == Some(MainMode::Delta));
        },
        MainMode::Duplicates => {
            assert(top =~= "Digit8"@);
            assert(pad =~= "Numpad8"@);
            assert(top[5] != "Digit1"@[5]);
            assert(pad[6] != "Numpad1"@[6]);
            assert(top[5] != "Digit2"@[5]);
            assert(pad[6] != "Numpad2"@[6]);
            assert(top[5] != "Digit7"@[5]);
            assert(pad[6] != "Numpad7"@[6]);
            assert(digit_mode_spec(top) == Some(MainMode::Duplicates));
            assert(digit_mode_spec(pad) == Some(MainMode::Duplicates));
        },
        MainMode::Settings => {
            assert(top =~= "Digit9"@);
            assert(pad =~= "Numpad9"@);
            assert(top[5] != "Digit1"@[5]);
            assert(pad[6] != "Numpad1"@[6]);
            assert(top[5] != "Digit2"@[5]);
            assert(pad[6] != "Numpad2"@[6]);
            assert(top[5] != "Digit7"@[5]);
            assert(pad[6] != "Numpad7"@[6]);
            assert(top[5] != "Digit8"@[5]);
            assert(pad[6] != "Numpad8"@[6]);
            assert(digit_mode_spec(top) == Some(MainMode::Settings));
            assert(digit_mode_spec(pad) == Some(MainMode::Settings));
        },
    }
}

/// The digit character of a tab: `1`, `2`, `7`, `8` or `9`.
proof fn lemma_tab_digit_char(m: MainMode)
    ensures
        digit_char(m.digit_spec() as nat) == match m {
            MainMode::Snapshot => '1',
            MainMode::Lenses => '2',
            MainMode::Delta => '7',
            MainMode::Duplicates => '8',
            MainMode::Settings => '9',
        },
{
}

/// Outside every overlay, pressing a tab's digit with no modifier selects
/// that tab (e.g. `8` goes to Duplicates), whatever the other gates say.
pub proof fn law_digit_press_selects_tab(
    m: MainMode,
    ev: KeyInput,
    numpad: bool,
    find: FindKeyCtx,
    ms: MultiselectKeyCtx,
    space: SpaceMenuKeyCtx,
    cmd: CommandModeKeyCtx,
)
    requires
        ev.key@ == seq![digit_char(m.digit_spec() as nat)],
        ev.code@ == (if numpad { "Numpad"@ } else { "Digit"@ }) + seq![digit_char(m.digit_spec() as nat)],
        !ev.ctrl && !ev.meta && !ev.alt && !ev.shift,
        !find.committed,
        !ms.active,
        !space.open,
        !cmd.active,
    ensures
        action_spec(ev, false, find, ms, space, cmd, false) == Some(WebAction::MainMode(m)),
{
    law_digit_keys_select_their_tab(m, ev.code@);
    lemma_tab_digit_char(m);
    reveal_strlit("?");
    reveal_strlit(" ");
    reveal_strlit("Space");
    reveal_strlit("Digit");
    reveal_strlit("Numpad");
    assert(ev.key@[0] != "?"@[0]);
    assert(ev.key@[0] != " "@[0]);
    assert(ev.code@.len() != "Space"@.len());
}

} // verus!
