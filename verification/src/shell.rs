//! The shell: one key action from the key map applied to the state of every
//! overlay and pane (help, Command Mode, the Space menu, search, find,
//! multi-select, content sort, main mode and pane focus), with the work left
//! for the page (list moves, preview paging, tab requests, the address bar).

use vstd::prelude::*;
use vstd::multiset::Multiset;

use crate::command::{
    begun_spec, chord_begun_effects, closed_all_spec, command_hotkey_post, picker_move_post,
    picker_submit_post, restore_effects, CommandEffect, CommandMode,
};
use crate::keys::{
    action_from_keydown, action_spec, CommandModeKeyCtx, FindKeyCtx, KeyInput, MultiselectKeyCtx,
    SpaceMenuKeyCtx, WebAction,
};
use crate::layout::{PaneFocus, RightTab};
use crate::menu::{
    closed_from, move_sel_post, open_bulk_post, open_qa_post, qa_opens, bulk_opens,
    submit_hotkey_spec, submit_row_spec, effective_root, MenuEffect, SpaceMenu,
};
use crate::nav::{next_visible_spec, MainMode};
use crate::sort::{sorted_by, ContentSort};
use crate::state::{
    distinct_texts, find_cleared, multiselect_cleared, next_hit, prev_hit, section_count_spec,
    toggle_mode_post, toggle_row_post, CatalogSearch, HelpOverlay, Multiselect, PdfPageNav,
    TextOrder, ViewerFind,
};

verus! {

/// Work for the page after an action.
#[derive(Clone, Copy, Debug, PartialEq, Eq, Structural)]
pub enum ShellEffect {
    /// Drop the row focus ring and move the focused list by this many rows.
    MoveList(i32),
    /// Drop the row focus ring and go to the focused list's first row.
    ListStart,
    /// Drop the row focus ring and go to the focused list's last row.
    ListEnd,
    /// A paging key for the mounted PDF, text window or scrolled preview.
    Preview(PdfPageNav),
    /// Ask the right pane for this tab.
    RequestTab(RightTab),
    /// Shift+Tab over the right tabs.
    CycleTab,
    /// Write the main mode to the address bar.
    SyncModeQuery(MainMode),
}

/// Everything an action asks of the page, per source.
pub struct Effects {
    pub command: Vec<CommandEffect>,
    pub menu: Vec<MenuEffect>,
    pub shell: Vec<ShellEffect>,
}

/// State of the web shell.
pub struct Shell {
    pub mode: MainMode,
    pub pane: PaneFocus,
    pub has_lenses: bool,
    pub has_delta: bool,
    pub has_duplicates: bool,
    /// Served catalog root, for Copy Path.
    pub root: Option<String>,
    /// The contents row under the cursor is an image (its menu offers a new tab).
    pub middle_is_image: bool,
    /// The right pane fills the window.
    pub viewer_fullscreen: bool,
    pub help: HelpOverlay,
    pub command: CommandMode,
    pub menu: SpaceMenu,
    pub search: CatalogSearch,
    pub find: ViewerFind,
    pub multiselect: Multiselect,
    pub sort: ContentSort,
}

/// `b` lists the checked paths sorted, as the bulk menus take them.
pub open spec fn is_bulk_of(m: Multiselect, b: Seq<String>) -> bool {
    b.to_multiset() == m.selected@.to_multiset() && sorted_by(&TextOrder, b)
}

/// The root handed to the Space menu.
pub open spec fn root_of(s: Shell) -> Option<Seq<char>> {
    match s.root {
        Some(r) => Some(r@),
        None => match s.menu.catalog_root {
            Some(c) => Some(c@),
            None => None,
        },
    }
}

/// The help after a section step.
pub open spec fn help_cycled(h: HelpOverlay, mode: MainMode, delta: int) -> HelpOverlay {
    HelpOverlay { section: ((h.section as int + delta) % (section_count_spec(mode) as int)) as usize, ..h }
}

/// The help after `?`.
pub open spec fn help_toggled(h: HelpOverlay) -> HelpOverlay {
    HelpOverlay { visible: !h.visible, section: if h.visible { h.section } else { 0 } }
}

/// No effects of any kind.
pub open spec fn quiet(e: (Seq<CommandEffect>, Seq<MenuEffect>, Seq<ShellEffect>)) -> bool {
    e.0.len() == 0 && e.1.len() == 0 && e.2.len() == 0
}

/// Only shell effects, these.
pub open spec fn only_shell(e: (Seq<CommandEffect>, Seq<MenuEffect>, Seq<ShellEffect>), sh: Seq<ShellEffect>) -> bool {
    e.0.len() == 0 && e.1.len() == 0 && e.2 == sh
}

/// Only Command Mode effects, these.
pub open spec fn only_command(e: (Seq<CommandEffect>, Seq<MenuEffect>, Seq<ShellEffect>), c: Seq<CommandEffect>) -> bool {
    e.0 == c && e.1.len() == 0 && e.2.len() == 0
}

/// A switch of the main mode to `m`: the mode is set (and written to the
/// address bar), multi-select is cleared, the Space menu and Command Mode
/// close, and an open help goes back to its first section.
pub open spec fn mode_switch_post(
    s: Shell,
    m: MainMode,
    t: Shell,
    e: (Seq<CommandEffect>, Seq<MenuEffect>, Seq<ShellEffect>),
) -> bool {
    &&& t == Shell {
        mode: m,
        help: HelpOverlay { section: if s.help.visible { 0 } else { s.help.section }, ..s.help },
        menu: closed_from(s.menu),
        command: closed_all_spec(s.command),
        multiselect: t.multiselect,
        ..s
    }
    &&& multiselect_cleared(s.multiselect, t.multiselect)
    &&& e.0 == restore_effects(s.command)
    &&& e.1.len() == 0
    &&& e.2 == seq![ShellEffect::SyncModeQuery(m)]
}

/// Focus moves to pane `p`; leaving the contents pane ends multi-select.
pub open spec fn focus_post(s: Shell, p: PaneFocus, t: Shell) -> bool {
    &&& t == Shell { pane: p, multiselect: t.multiselect, ..s }
    &&& if p != PaneFocus::Middle && s.multiselect.active {
        multiselect_cleared(s.multiselect, t.multiselect)
    } else {
        t.multiselect == s.multiselect
    }
}

/// What an action does to the shell `s`, giving `t` and the effects `e`.
pub open spec fn dispatch_spec(
    s: Shell,
    a: WebAction,
    t: Shell,
    e: (Seq<CommandEffect>, Seq<MenuEffect>, Seq<ShellEffect>),
) -> bool {
    match a {
        WebAction::HelpToggle => t == Shell {
            menu: closed_from(s.menu),
            command: closed_all_spec(s.command),
            help: help_toggled(s.help),
            ..s
        } && only_command(e, restore_effects(s.command)),
        WebAction::HelpClose => t == Shell { help: HelpOverlay { visible: false, ..s.help }, ..s } && quiet(e),
        WebAction::HelpSectionNext => t == Shell { help: help_cycled(s.help, s.mode, 1), ..s } && quiet(e),
        WebAction::HelpSectionPrev => t == Shell { help: help_cycled(s.help, s.mode, -1), ..s } && quiet(e),
        WebAction::HelpAbsorb | WebAction::CommandModeAbsorb | WebAction::SpaceMenuAbsorb => t == s && quiet(e),
        WebAction::CommandModeBegin => t == Shell {
            help: HelpOverlay { visible: false, ..s.help },
            menu: closed_from(s.menu),
            command: begun_spec(s.command),
            ..s
        } && only_command(e, chord_begun_effects(s.command)),
        WebAction::CommandModeClose => t == Shell { command: closed_all_spec(s.command), ..s } && only_command(
            e,
            restore_effects(s.command),
        ),
        WebAction::CommandModeHotkey(c) => t == Shell { command: t.command, ..s } && e.1.len() == 0
            && e.2.len() == 0 && command_hotkey_post(s.command, c, t.command, s.command.picker is None, e.0),
        WebAction::CommandModeMoveUp => t == Shell { command: t.command, ..s } && e.1.len() == 0 && e.2.len()
            == 0 && picker_move_post(s.command, -1i32, t.command, e.0),
        WebAction::CommandModeMoveDown => t == Shell { command: t.command, ..s } && e.1.len() == 0
            && e.2.len() == 0 && picker_move_post(s.command, 1, t.command, e.0),
        WebAction::CommandModeSubmit => t == Shell { command: t.command, ..s } && e.1.len() == 0 && e.2.len()
            == 0 && picker_submit_post(s.command, t.command, e.0),
        WebAction::SpaceMenuOpen => t == Shell { command: closed_all_spec(s.command), menu: t.menu, ..s }
            && only_command(e, restore_effects(s.command)) && open_qa_post(
            s.menu,
            s.mode,
            s.pane,
            s.multiselect.active,
            s.middle_is_image,
            t.menu,
            qa_opens(s.menu, s.mode, s.pane, s.multiselect.active),
        ),
        WebAction::SpaceMenuMoveUp => t == Shell { menu: t.menu, ..s } && quiet(e) && move_sel_post(s.menu, -1i32, t.menu),
        WebAction::SpaceMenuMoveDown => t == Shell { menu: t.menu, ..s } && quiet(e) && move_sel_post(s.menu, 1, t.menu),
        WebAction::SpaceMenuSubmit => t == Shell { menu: t.menu, ..s } && e.0.len() == 0 && e.2.len() == 0
            && exists|b: Seq<String>|
            #[trigger] is_bulk_of(s.multiselect, b) && submit_row_spec(
                s.menu,
                s.menu.selected,
                root_of(s),
                b,
                t.menu,
                e.1,
            ),
        WebAction::SpaceMenuHotkey(c) => t == Shell { menu: t.menu, ..s } && e.0.len() == 0 && e.2.len() == 0
            && exists|b: Seq<String>|
            #[trigger] is_bulk_of(s.multiselect, b) && (submit_hotkey_spec(
                s.menu,
                c,
                root_of(s),
                b,
                t.menu,
                true,
                e.1,
            ) || (submit_hotkey_spec(s.menu, c, root_of(s), b, s.menu, false, Seq::empty()) && e.1.len() == 0
                && if c == 'k' {
                move_sel_post(s.menu, -1i32, t.menu)
            } else if c == 'j' {
                move_sel_post(s.menu, 1, t.menu)
            } else {
                t.menu == s.menu
            })),
        WebAction::SpaceMenuClose => t == Shell { menu: closed_from(s.menu), ..s } && quiet(e),
        WebAction::SearchStart => t == Shell {
            menu: closed_from(s.menu),
            command: closed_all_spec(s.command),
            search: CatalogSearch { active: true, ..s.search },
            find: t.find,
            ..s
        } && find_cleared(s.find, t.find) && only_command(e, restore_effects(s.command)),
        WebAction::ViewerFindOpen => t == Shell {
            menu: closed_from(s.menu),
            command: closed_all_spec(s.command),
            search: CatalogSearch { active: false, ..s.search },
            find: ViewerFind { active: true, committed: false, ..s.find },
            ..s
        } && only_command(e, restore_effects(s.command)),
        WebAction::ViewerFindNext => t == Shell {
            find: ViewerFind { current: next_hit(s.find.current, s.find.total), ..s.find },
            ..s
        } && quiet(e),
        WebAction::ViewerFindPrev => t == Shell {
            find: ViewerFind { current: prev_hit(s.find.current, s.find.total), ..s.find },
            ..s
        } && quiet(e),
        WebAction::ViewerFindClear => t == Shell { find: t.find, ..s } && find_cleared(s.find, t.find) && quiet(e),
        WebAction::ViewerFullscreenToggle => t == Shell { viewer_fullscreen: !s.viewer_fullscreen, ..s } && quiet(e),
        WebAction::ViewerFullscreenExit => t == Shell { viewer_fullscreen: false, ..s } && quiet(e),
        WebAction::MultiselectToggleMode => t == Shell {
            menu: closed_from(s.menu),
            command: closed_all_spec(s.command),
            multiselect: t.multiselect,
            ..s
        } && only_command(e, restore_effects(s.command)) && toggle_mode_post(
            s.multiselect,
            s.mode,
            s.pane == PaneFocus::Middle,
            t.multiselect,
            (s.mode == MainMode::Snapshot || s.mode == MainMode::Lenses) && s.pane == PaneFocus::Middle,
        ),
        WebAction::MultiselectToggleRow => t == Shell { multiselect: t.multiselect, ..s } && quiet(e) && if s.pane
            == PaneFocus::Middle {
            toggle_row_post(s.multiselect, t.multiselect)
        } else {
            t.multiselect == s.multiselect
        },
        WebAction::MultiselectCancel => t == Shell { menu: closed_from(s.menu), multiselect: t.multiselect, ..s }
            && multiselect_cleared(s.multiselect, t.multiselect) && quiet(e),
        WebAction::MultiselectOpenBulk => t == Shell { command: closed_all_spec(s.command), menu: t.menu, ..s }
            && only_command(e, restore_effects(s.command)) && open_bulk_post(
            s.menu,
            s.mode,
            s.multiselect.active,
            t.menu,
            bulk_opens(s.menu, s.mode, s.multiselect.active),
        ),
        WebAction::CycleContentSort => t == Shell { sort: s.sort.cycle_spec(s.mode), ..s } && quiet(e),
        WebAction::ScrollPreviewDown => t == s && only_shell(e, seq![ShellEffect::Preview(PdfPageNav::Next)]),
        WebAction::ScrollPreviewUp => t == s && only_shell(e, seq![ShellEffect::Preview(PdfPageNav::Prev)]),
        WebAction::PreviewTop => t == s && only_shell(e, seq![ShellEffect::Preview(PdfPageNav::Top)]),
        WebAction::PreviewBottom => t == s && only_shell(e, seq![ShellEffect::Preview(PdfPageNav::Bottom)]),
        WebAction::MainMode(m) => if m.visible_spec(s.has_lenses, s.has_delta, s.has_duplicates) {
            mode_switch_post(s, m, t, e)
        } else {
            t == s && quiet(e)
        },
        WebAction::MainModeToggle => mode_switch_post(
            s,
            next_visible_spec(s.mode, s.has_lenses, s.has_delta, s.has_duplicates),
            t,
            e,
        ),
        WebAction::FocusLeft => focus_post(s, PaneFocus::Left, t) && quiet(e),
        WebAction::FocusMiddle => focus_post(s, PaneFocus::Middle, t) && quiet(e),
        WebAction::FocusCycle => focus_post(
            s,
            if s.pane == PaneFocus::Left { PaneFocus::Middle } else { PaneFocus::Left },
            t,
        ) && quiet(e),
        WebAction::MoveUp => t == s && only_shell(e, seq![ShellEffect::MoveList(-1i32)]),
        WebAction::MoveDown => t == s && only_shell(e, seq![ShellEffect::MoveList(1)]),
        WebAction::MoveUpFast => t == s && only_shell(e, seq![ShellEffect::MoveList(-10i32)]),
        WebAction::MoveDownFast => t == s && only_shell(e, seq![ShellEffect::MoveList(10)]),
        WebAction::ListTop => t == s && only_shell(e, seq![ShellEffect::ListStart]),
        WebAction::ListBottom => t == s && only_shell(e, seq![ShellEffect::ListEnd]),
        WebAction::RightTab(tab) => t == s && only_shell(e, seq![ShellEffect::RequestTab(tab)]),
        WebAction::CycleRightTab => t == s && only_shell(e, seq![ShellEffect::CycleTab]),
    }
}

/// The key-map gates the shell's state sets for a key press.
pub open spec fn find_ctx_of(s: Shell) -> FindKeyCtx {
    FindKeyCtx {
        committed: s.find.committed && !s.find.active,
        catalog_search_active: s.search.active,
        allow: s.mode != MainMode::Settings,
    }
}

pub open spec fn multiselect_ctx_of(s: Shell) -> MultiselectKeyCtx {
    MultiselectKeyCtx {
        active: s.multiselect.active,
        applies: s.mode == MainMode::Snapshot || s.mode == MainMode::Lenses,
        middle_focused: s.pane == PaneFocus::Middle,
    }
}

pub open spec fn space_ctx_of(s: Shell) -> SpaceMenuKeyCtx {
    SpaceMenuKeyCtx {
        open: s.menu.visible,
        can_open: s.mode == MainMode::Snapshot || s.mode == MainMode::Lenses || s.mode == MainMode::Duplicates,
    }
}

pub open spec fn command_ctx_of(s: Shell) -> CommandModeKeyCtx {
    CommandModeKeyCtx {
        active: s.command.pending || s.command.menu_visible || s.command.picker is Some,
        picker: s.command.picker is Some,
        blocked: s.help.visible || s.menu.visible || s.search.active || s.mode == MainMode::Settings,
        leader: s.command.leader,
    }
}

/// The action of a key press: none while a form field has focus (its own
/// handlers see the keys), else the key map under the shell's gates.
pub open spec fn shell_key_spec(s: Shell, ev: KeyInput, typing_in_form_field: bool) -> Option<WebAction> {
    if typing_in_form_field {
        None
    } else {
        action_spec(
            ev,
            s.help.visible,
            find_ctx_of(s),
            multiselect_ctx_of(s),
            space_ctx_of(s),
            command_ctx_of(s),
            s.viewer_fullscreen,
        )
    }
}

/// The action groups handled by each part of [`Shell::dispatch`].
pub open spec fn is_help_action(a: WebAction) -> bool {
    a is HelpToggle || a is HelpClose || a is HelpSectionNext || a is HelpSectionPrev || a is HelpAbsorb
        || a is CommandModeAbsorb || a is SpaceMenuAbsorb
}

pub open spec fn is_command_action(a: WebAction) -> bool {
    a is CommandModeBegin || a is CommandModeClose || a is CommandModeHotkey || a is CommandModeMoveUp
        || a is CommandModeMoveDown || a is CommandModeSubmit
}

pub open spec fn is_menu_action(a: WebAction) -> bool {
    a is SpaceMenuOpen || a is SpaceMenuMoveUp || a is SpaceMenuMoveDown || a is SpaceMenuSubmit
        || a is SpaceMenuHotkey || a is SpaceMenuClose
}

pub open spec fn is_find_action(a: WebAction) -> bool {
    a is SearchStart || a is ViewerFindOpen || a is ViewerFindNext || a is ViewerFindPrev
        || a is ViewerFindClear || a is ViewerFullscreenToggle || a is ViewerFullscreenExit
}

pub open spec fn is_multiselect_action(a: WebAction) -> bool {
    a is MultiselectToggleMode || a is MultiselectToggleRow || a is MultiselectCancel
        || a is MultiselectOpenBulk
}

impl Shell {
    fn dispatch_help(&mut self, a: WebAction) -> (e: Effects)
        requires
            is_help_action(a),
        ensures
            dispatch_spec(*old(self), a, *final(self), (e.command@, e.menu@, e.shell@)),
    {
        let mut command: Vec<CommandEffect> = Vec::new();
        match a {
            WebAction::HelpToggle => {
                self.menu.close();
                command = self.command.close_all();
                self.help.toggle();
            },
            WebAction::HelpClose => self.help.close(),
            WebAction::HelpSectionNext => self.help.cycle_section(self.mode, 1),
            WebAction::HelpSectionPrev => self.help.cycle_section(self.mode, -1),
            _ => {},
        }
        Effects { command, menu: Vec::new(), shell: Vec::new() }
    }

    fn dispatch_command(&mut self, a: WebAction) -> (e: Effects)
        requires
            is_command_action(a),
        ensures
            dispatch_spec(*old(self), a, *final(self), (e.command@, e.menu@, e.shell@)),
    {
        let command: Vec<CommandEffect> = match a {
            WebAction::CommandModeBegin => {
                self.help.close();
                self.menu.close();
                self.command.begin_chord()
            },
            WebAction::CommandModeClose => self.command.close_all(),
            WebAction::CommandModeHotkey(c) => {
                let (_, eff) = self.command.submit_hotkey(c);
                eff
            },
            WebAction::CommandModeMoveUp => self.command.picker_move(-1),
            WebAction::CommandModeMoveDown => self.command.picker_move(1),
            _ => self.command.picker_submit(),
        };
        Effects { command, menu: Vec::new(), shell: Vec::new() }
    }

    fn dispatch_menu(&mut self, a: WebAction) -> (e: Effects)
        requires
            is_menu_action(a),
        ensures
            dispatch_spec(*old(self), a, *final(self), (e.command@, e.menu@, e.shell@)),
    {
        let mut command: Vec<CommandEffect> = Vec::new();
        let mut menu: Vec<MenuEffect> = Vec::new();
        match a {
            WebAction::SpaceMenuOpen => {
                command = self.command.close_all();
                let _ = self.menu.try_open_qa(self.mode, self.pane, self.multiselect.active, self.middle_is_image);
            },
            WebAction::SpaceMenuMoveUp => self.menu.move_sel(-1),
            WebAction::SpaceMenuMoveDown => self.menu.move_sel(1),
            WebAction::SpaceMenuSubmit => {
                let bulk = self.multiselect.bulk_paths();
                let root = self.root.clone();
                menu = match &root {
                    Some(r) => self.menu.submit_selected(Some(r.as_str()), &bulk),
                    None => self.menu.submit_selected(None, &bulk),
                };
                assert(is_bulk_of(old(self).multiselect, bulk@));
            },
            WebAction::SpaceMenuHotkey(c) => {
                let bulk = self.multiselect.bulk_paths();
                let root = self.root.clone();
                let (handled, eff) = match &root {
                    Some(r) => self.menu.submit_hotkey(c, Some(r.as_str()), &bulk),
                    None => self.menu.submit_hotkey(c, None, &bulk),
                };
                menu = eff;
                if !handled {
                    if c == 'k' {
                        self.menu.move_sel(-1);
                    } else if c == 'j' {
                        self.menu.move_sel(1);
                    }
                }
                assert(is_bulk_of(old(self).multiselect, bulk@));
            },
            _ => self.menu.close(),
        }
        Effects { command, menu, shell: Vec::new() }
    }

    fn dispatch_find(&mut self, a: WebAction) -> (e: Effects)
        requires
            is_find_action(a),
        ensures
            dispatch_spec(*old(self), a, *final(self), (e.command@, e.menu@, e.shell@)),
    {
        let mut command: Vec<CommandEffect> = Vec::new();
        match a {
            WebAction::SearchStart => {
                self.find.clear();
                self.menu.close();
                command = self.command.close_all();
                self.search.start();
            },
            WebAction::ViewerFindOpen => {
                self.search.submit();
                self.menu.close();
                command = self.command.close_all();
                self.find.start();
            },
            WebAction::ViewerFindNext => self.find.next(),
            WebAction::ViewerFindPrev => self.find.prev(),
            WebAction::ViewerFindClear => self.find.clear(),
            WebAction::ViewerFullscreenToggle => {
                self.viewer_fullscreen = !self.viewer_fullscreen;
            },
            _ => {
                self.viewer_fullscreen = false;
            },
        }
        Effects { command, menu: Vec::new(), shell: Vec::new() }
    }

    fn dispatch_multiselect(&mut self, a: WebAction) -> (e: Effects)
        requires
            is_multiselect_action(a),
            distinct_texts(old(self).multiselect.selected@),
        ensures
            dispatch_spec(*old(self), a, *final(self), (e.command@, e.menu@, e.shell@)),
            distinct_texts(final(self).multiselect.selected@),
    {
        let mut command: Vec<CommandEffect> = Vec::new();
        match a {
            WebAction::MultiselectToggleMode => {
                self.menu.close();
                command = self.command.close_all();
                let middle = self.pane == PaneFocus::Middle;
                let _ = self.multiselect.try_toggle_mode(self.mode, middle);
            },
            WebAction::MultiselectToggleRow => {
                if self.pane == PaneFocus::Middle {
                    self.multiselect.toggle_row();
                }
            },
            WebAction::MultiselectCancel => {
                self.menu.close();
                self.multiselect.clear();
            },
            _ => {
                command = self.command.close_all();
                let _ = self.menu.try_open_bulk(self.mode, self.multiselect.active);
            },
        }
        Effects { command, menu: Vec::new(), shell: Vec::new() }
    }

    fn dispatch_view(&mut self, a: WebAction) -> (e: Effects)
        requires
            !is_help_action(a) && !is_command_action(a) && !is_menu_action(a) && !is_find_action(a)
                && !is_multiselect_action(a),
        ensures
            dispatch_spec(*old(self), a, *final(self), (e.command@, e.menu@, e.shell@)),
    {
        let mut shell: Vec<ShellEffect> = Vec::new();
        match a {
            WebAction::CycleContentSort => {
                self.sort = self.sort.cycle_for_mode(self.mode);
            },
            WebAction::ScrollPreviewDown => shell.push(ShellEffect::Preview(PdfPageNav::Next)),
            WebAction::ScrollPreviewUp => shell.push(ShellEffect::Preview(PdfPageNav::Prev)),
            WebAction::PreviewTop => shell.push(ShellEffect::Preview(PdfPageNav::Top)),
            WebAction::PreviewBottom => shell.push(ShellEffect::Preview(PdfPageNav::Bottom)),
            WebAction::MainMode(m) => {
                if m.is_visible(self.has_lenses, self.has_delta, self.has_duplicates) {
                    return self.switch_mode(m);
                }
            },
            WebAction::MainModeToggle => {
                let next = crate::nav::next_visible_mode(self.mode, self.has_lenses, self.has_delta, self.has_duplicates);
                return self.switch_mode(next);
            },
            WebAction::FocusLeft => {
                self.focus(PaneFocus::Left);
            },
            WebAction::FocusMiddle => {
                self.focus(PaneFocus::Middle);
            },
            WebAction::FocusCycle => {
                let next = self.pane.cycle();
                self.focus(next);
            },
            WebAction::MoveUp => shell.push(ShellEffect::MoveList(-1)),
            WebAction::MoveDown => shell.push(ShellEffect::MoveList(1)),
            WebAction::MoveUpFast => shell.push(ShellEffect::MoveList(-10)),
            WebAction::MoveDownFast => shell.push(ShellEffect::MoveList(10)),
            WebAction::ListTop => shell.push(ShellEffect::ListStart),
            WebAction::ListBottom => shell.push(ShellEffect::ListEnd),
            WebAction::RightTab(tab) => shell.push(ShellEffect::RequestTab(tab)),
            _ => shell.push(ShellEffect::CycleTab),
        }
        Effects { command: Vec::new(), menu: Vec::new(), shell }
    }

    /// Switches the main mode to `m` (see [`mode_switch_post`]).
    fn switch_mode(&mut self, m: MainMode) -> (e: Effects)
        ensures
            mode_switch_post(*old(self), m, *final(self), (e.command@, e.menu@, e.shell@)),
    {
        self.mode = m;
        if self.help.visible {
            self.help.section = 0;
        }
        self.multiselect.clear();
        self.menu.close();
        let command = self.command.close_all();
        let mut shell: Vec<ShellEffect> = Vec::new();
        shell.push(ShellEffect::SyncModeQuery(m));
        Effects { command, menu: Vec::new(), shell }
    }

    /// Moves focus to pane `p` (see [`focus_post`]).
    fn focus(&mut self, p: PaneFocus)
        ensures
            focus_post(*old(self), p, *final(self)),
    {
        self.pane = p;
        if p != PaneFocus::Middle && self.multiselect.active {
            self.multiselect.clear();
        }
    }

    /// A tab click or a deep link asks for mode `m`: a tab that these catalog
    /// flags hide falls back to Snapshot.
    pub fn select_mode(&mut self, m: MainMode) -> (e: Effects)
        ensures
            mode_switch_post(
                *old(self),
                crate::nav::clamp_spec(m, old(self).has_lenses, old(self).has_delta, old(self).has_duplicates),
                *final(self),
                (e.command@, e.menu@, e.shell@),
            ),
    {
        let target = crate::nav::clamp_mode_to_visible(m, self.has_lenses, self.has_delta, self.has_duplicates);
        self.switch_mode(target)
    }

    /// New catalog flags: when they hide the current tab, the shell falls back
    /// to Snapshot; otherwise only the flags change.
    pub fn set_flags(&mut self, has_lenses: bool, has_delta: bool, has_duplicates: bool) -> (e: Effects)
        ensures
            old(self).mode.visible_spec(has_lenses, has_delta, has_duplicates) ==> *final(self) == (Shell {
                has_lenses,
                has_delta,
                has_duplicates,
                ..*old(self)
            }) && e.command@.len() == 0 && e.menu@.len() == 0 && e.shell@.len() == 0,
            !old(self).mode.visible_spec(has_lenses, has_delta, has_duplicates) ==> mode_switch_post(
                Shell { has_lenses, has_delta, has_duplicates, ..*old(self) },
                MainMode::Snapshot,
                *final(self),
                (e.command@, e.menu@, e.shell@),
            ),
    {
        self.has_lenses = has_lenses;
        self.has_delta = has_delta;
        self.has_duplicates = has_duplicates;
        if self.mode.is_visible(has_lenses, has_delta, has_duplicates) {
            Effects { command: Vec::new(), menu: Vec::new(), shell: Vec::new() }
        } else {
            self.switch_mode(MainMode::Snapshot)
        }
    }

    /// The shell at start: Snapshot, contents focused, no flags, nothing open.
    pub fn new() -> (r: Self)
        ensures
            r.mode == MainMode::Snapshot && r.pane == PaneFocus::Middle,
            !r.has_lenses && !r.has_delta && !r.has_duplicates,
            r.root is None && !r.middle_is_image && !r.viewer_fullscreen,
            !r.help.visible && r.help.section == 0,
            !command_active(r.command) && r.command.leader == crate::command::DEFAULT_LEADER,
            !r.menu.visible && r.menu.kind is None && r.menu.pending is None,
            !r.search.active && r.search.query@.len() == 0,
            !r.find.active && !r.find.committed && r.find.query@.len() == 0,
            !r.multiselect.active && r.multiselect.selected@.len() == 0,
            r.sort.snapshot_key == crate::sort::SnapshotSortKey::Name,
            r.sort.snapshot_dir == crate::sort::SortDirection::Asc && r.sort.delta_dir == crate::sort::SortDirection::Asc,
            overlays_exclusive(r),
    {
        Shell {
            mode: MainMode::Snapshot,
            pane: PaneFocus::Middle,
            has_lenses: false,
            has_delta: false,
            has_duplicates: false,
            root: None,
            middle_is_image: false,
            viewer_fullscreen: false,
            help: HelpOverlay::new(),
            command: CommandMode::new(),
            menu: SpaceMenu::new(),
            search: CatalogSearch::new(),
            find: ViewerFind::new(),
            multiselect: Multiselect::new(),
            sort: ContentSort::new(),
        }
    }

    /// The action for a key press (see [`shell_key_spec`]).
    pub fn key_action(&self, ev: &KeyInput, typing_in_form_field: bool) -> (r: Option<WebAction>)
        ensures
            r == shell_key_spec(*self, *ev, typing_in_form_field),
    {
        if typing_in_form_field {
            return None;
        }
        let find = FindKeyCtx {
            committed: self.find.committed && !self.find.active,
            catalog_search_active: self.search.active,
            allow: self.mode != MainMode::Settings,
        };
        let ms = MultiselectKeyCtx {
            active: self.multiselect.active,
            applies: crate::state::Multiselect::applies(self.mode),
            middle_focused: self.pane == PaneFocus::Middle,
        };
        let can_open = match self.mode {
            MainMode::Snapshot | MainMode::Lenses | MainMode::Duplicates => true,
            _ => false,
        };
        let space = SpaceMenuKeyCtx { open: self.menu.visible, can_open };
        let cmd = CommandModeKeyCtx {
            active: self.command.is_active(),
            picker: self.command.picker_open(),
            blocked: self.help.visible || self.menu.visible || self.search.active || self.mode == MainMode::Settings,
            leader: self.command.leader,
        };
        action_from_keydown(ev, self.help.visible, find, ms, space, cmd, self.viewer_fullscreen)
    }

    /// Applies one key action: the next state of every overlay and pane, and
    /// the work left for the page.
    pub fn dispatch(&mut self, a: WebAction) -> (e: Effects)
        requires
            distinct_texts(old(self).multiselect.selected@),
        ensures
            dispatch_spec(*old(self), a, *final(self), (e.command@, e.menu@, e.shell@)),
            distinct_texts(final(self).multiselect.selected@),
    {
        if is_help(a) {
            self.dispatch_help(a)
        } else if is_command(a) {
            self.dispatch_command(a)
        } else if is_menu(a) {
            self.dispatch_menu(a)
        } else if is_find(a) {
            self.dispatch_find(a)
        } else if is_multiselect(a) {
            self.dispatch_multiselect(a)
        } else {
            self.dispatch_view(a)
        }
    }
}

fn is_help(a: WebAction) -> (r: bool)
    ensures
        r == is_help_action(a),
{
    match a {
        WebAction::HelpToggle | WebAction::HelpClose | WebAction::HelpSectionNext
        | WebAction::HelpSectionPrev | WebAction::HelpAbsorb | WebAction::CommandModeAbsorb
        | WebAction::SpaceMenuAbsorb => true,
        _ => false,
    }
}

fn is_command(a: WebAction) -> (r: bool)
    ensures
        r == is_command_action(a),
{
    match a {
        WebAction::CommandModeBegin | WebAction::CommandModeClose | WebAction::CommandModeHotkey(_)
        | WebAction::CommandModeMoveUp | WebAction::CommandModeMoveDown | WebAction::CommandModeSubmit => true,
        _ => false,
    }
}

fn is_menu(a: WebAction) -> (r: bool)
    ensures
        r == is_menu_action(a),
{
    match a {
        WebAction::SpaceMenuOpen | WebAction::SpaceMenuMoveUp | WebAction::SpaceMenuMoveDown
        | WebAction::SpaceMenuSubmit | WebAction::SpaceMenuHotkey(_) | WebAction::SpaceMenuClose => true,
        _ => false,
    }
}

fn is_find(a: WebAction) -> (r: bool)
    ensures
        r == is_find_action(a),
{
    match a {
        WebAction::SearchStart | WebAction::ViewerFindOpen | WebAction::ViewerFindNext
        | WebAction::ViewerFindPrev | WebAction::ViewerFindClear | WebAction::ViewerFullscreenToggle
        | WebAction::ViewerFullscreenExit => true,
        _ => false,
    }
}

fn is_multiselect(a: WebAction) -> (r: bool)
    ensures
        r == is_multiselect_action(a),
{
    match a {
        WebAction::MultiselectToggleMode | WebAction::MultiselectToggleRow | WebAction::MultiselectCancel
        | WebAction::MultiselectOpenBulk => true,
        _ => false,
    }
}

// ---------------------------------------------------------------------------
// Overlays
// ---------------------------------------------------------------------------

/// Command Mode shows something (a pending chord, the letter table or a picker).
pub open spec fn command_active(c: CommandMode) -> bool {
    c.pending || c.menu_visible || c.picker is Some
}

/// At most one overlay at a time: help, the Space menu, Command Mode.
pub open spec fn overlays_exclusive(s: Shell) -> bool {
    &&& !(s.help.visible && s.menu.visible)
    &&& !(s.help.visible && command_active(s.command))
    &&& !(s.menu.visible && command_active(s.command))
}

/// The actions a key can give while an overlay is up: help keys under the
/// help, menu keys under the Space menu, Command Mode keys during Command
/// Mode (and `?` under the last two).
pub open spec fn action_allowed(s: Shell, a: WebAction) -> bool {
    &&& s.help.visible ==> (a is HelpToggle || a is HelpClose || a is HelpSectionNext || a is HelpSectionPrev
        || a is HelpAbsorb)
    &&& s.menu.visible ==> (a is HelpToggle || a is SpaceMenuClose || a is SpaceMenuSubmit || a is SpaceMenuHotkey
        || a is SpaceMenuMoveUp || a is SpaceMenuMoveDown || a is SpaceMenuAbsorb)
    &&& command_active(s.command) ==> (a is HelpToggle || a is CommandModeClose || a is CommandModeSubmit
        || a is CommandModeMoveUp || a is CommandModeMoveDown || a is CommandModeHotkey || a is CommandModeAbsorb)
}

/// Under the shell's gates the key map only gives actions allowed by the open overlay.
pub proof fn lemma_key_actions_allowed(s: Shell, ev: KeyInput, a: WebAction)
    requires
        overlays_exclusive(s),
        shell_key_spec(s, ev, false) == Some(a),
    ensures
        action_allowed(s, a),
{
}

/// Key actions never leave two overlays up at once: opening one closes the others.
pub proof fn law_overlays_stay_exclusive(
    s: Shell,
    a: WebAction,
    t: Shell,
    e: (Seq<CommandEffect>, Seq<MenuEffect>, Seq<ShellEffect>),
)
    requires
        overlays_exclusive(s),
        action_allowed(s, a),
        dispatch_spec(s, a, t, e),
    ensures
        overlays_exclusive(t),
{
}

/// Whatever key is pressed, the action the shell's key map gives for it
/// never leaves two overlays up at once.
pub proof fn law_keys_keep_overlays_exclusive(
    s: Shell,
    ev: KeyInput,
    typing_in_form_field: bool,
    a: WebAction,
    t: Shell,
    e: (Seq<CommandEffect>, Seq<MenuEffect>, Seq<ShellEffect>),
)
    requires
        overlays_exclusive(s),
        shell_key_spec(s, ev, typing_in_form_field) == Some(a),
        dispatch_spec(s, a, t, e),
    ensures
        overlays_exclusive(t),
{
    lemma_key_actions_allowed(s, ev, a);
    law_overlays_stay_exclusive(s, a, t, e);
}

/// j / ArrowDown moves the focused list one row forward and k / ArrowUp one
/// row back (Ctrl: ten rows), changing nothing else: from row `i` with a row
/// after it, the step lands on row `i + 1`, and from a row with one before
/// it, the step back lands on row `i - 1`.
pub proof fn law_list_keys_move_their_way(
    s: Shell,
    a: WebAction,
    t: Shell,
    e: (Seq<CommandEffect>, Seq<MenuEffect>, Seq<ShellEffect>),
)
    requires
        a is MoveDown || a is MoveUp || a is MoveDownFast || a is MoveUpFast,
        dispatch_spec(s, a, t, e),
    ensures
        t == s,
        e.0.len() == 0 && e.1.len() == 0 && e.2.len() == 1,
        e.2[0] matches ShellEffect::MoveList(d) && {
            &&& a is MoveDown ==> d == 1
            &&& a is MoveUp ==> d == -1
            &&& a is MoveDownFast ==> d == 10
            &&& a is MoveUpFast ==> d == -10
        },
        a is MoveDown ==> forall|i: int, n: int|
            0 <= i < n - 1 ==> #[trigger] crate::state::step_index_spec(Some(i), e.2[0]->MoveList_0, n) == i + 1,
        a is MoveUp ==> forall|i: int, n: int|
            0 < i < n ==> #[trigger] crate::state::step_index_spec(Some(i), e.2[0]->MoveList_0, n) == i - 1,
{
}

} // verus!
