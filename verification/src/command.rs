//! Command Mode: the Ctrl+leader chord, its letter actions, and the theme and
//! root pickers.
//!
//! The chord is a state machine. After Ctrl+leader it waits for a letter; if
//! none comes within the menu delay the table of letters is shown. A
//! generation counter tells stale timers from the current chord.

use vstd::prelude::*;
use crate::text::{
    push_all, string_push, to_lower, lower_char,
};
use crate::toast::ToastLevel;

verus! {

/// Default leader letter (Ctrl+a).
pub const DEFAULT_LEADER: char = 'a';

/// Delay before the centered letter table appears, in milliseconds.
pub const CHORD_MENU_DELAY_MS: i32 = 480;

/// Letters of Command Mode and what they do.
pub open spec fn command_rows_spec() -> Seq<(Seq<char>, Seq<char>)> {
    seq![
        ("d"@, "Run duplicate detection"@),
        ("t"@, "Theme selector"@),
        ("s"@, "Take snapshot"@),
        ("r"@, "Reload config from disk"@),
        ("x"@, "Export Zahir JSON (ublx-export/)"@),
        ("l"@, "Export lenses as Markdown (ublx-lenses/)"@),
        ("p"@, "Switch UBLX project"@),
    ]
}

/// The letter table of Command Mode.
pub fn command_mode_rows() -> (r: Vec<(&'static str, &'static str)>)
    ensures
        r@.len() == command_rows_spec().len(),
        forall|i: int|
            0 <= i < r@.len() ==> (#[trigger] r@[i]).0@ == command_rows_spec()[i].0 && r@[i].1@
                == command_rows_spec()[i].1,
{
    vec![
        ("d", "Run duplicate detection"),
        ("t", "Theme selector"),
        ("s", "Take snapshot"),
        ("r", "Reload config from disk"),
        ("x", "Export Zahir JSON (ublx-export/)"),
        ("l", "Export lenses as Markdown (ublx-lenses/)"),
        ("p", "Switch UBLX project"),
    ]
}

/// Popup title, such as `Command Mode (Ctrl+a)`.
pub fn popup_title(leader: char) -> (r: String)
    ensures
        r@ == "Command Mode (Ctrl+"@ + seq![leader] + ")"@,
{
    let mut r = String::new();
    push_all(&mut r, "Command Mode (Ctrl+");
    string_push(&mut r, leader);
    push_all(&mut r, ")");
    r
}

/// First characters of the row letters, in row order.
pub open spec fn command_keys_spec() -> Seq<char> {
    seq!['d', 't', 's', 'r', 'x', 'l', 'p']
}

/// Each row's letter is the one-character string of its key.
pub proof fn lemma_command_keys()
    ensures
        forall|i: int|
            0 <= i < command_rows_spec().len() ==> (#[trigger] command_rows_spec()[i]).0 == seq![
                command_keys_spec()[i],
            ],
{
    reveal_strlit("d");
    reveal_strlit("t");
    reveal_strlit("s");
    reveal_strlit("r");
    reveal_strlit("x");
    reveal_strlit("l");
    reveal_strlit("p");
}

/// The description of the first row whose letter starts with `key`.
pub open spec fn description_spec(key: char) -> Option<Seq<char>> {
    match crate::nav::position_spec(command_keys_spec(), key) {
        Some(i) => Some(command_rows_spec()[i].1),
        None => None,
    }
}

/// What a Command Mode letter does, if anything.
pub fn description_for(key: char) -> (r: Option<&'static str>)
    ensures
        r matches Some(d) ==> description_spec(key) == Some(d@),
        r is None ==> description_spec(key) is None,
{
    let rows = command_mode_rows();
    let ghost keys = command_keys_spec();
    let letters = ['d', 't', 's', 'r', 'x', 'l', 'p'];
    let mut i: usize = 0;
    while i < 7
        invariant
            i <= 7,
            letters@ == seq!['d', 't', 's', 'r', 'x', 'l', 'p'],
            keys =~= seq!['d', 't', 's', 'r', 'x', 'l', 'p'],
            rows@.len() == 7,
            forall|j: int|
                0 <= j < rows@.len() ==> (#[trigger] rows@[j]).1@ == command_rows_spec()[j].1,
            forall|k: int| 0 <= k < i ==> keys[k] != key,
        decreases 7 - i,
    {
        if letters[i] == key {
            proof {
                crate::nav::lemma_position_found(keys, key, i as int);
            }
            return Some(rows[i].1);
        }
        i += 1;
    }
    proof {
        crate::nav::lemma_position_absent(keys, key);
    }
    None
}

// ---------------------------------------------------------------------------
// Chord state machine
// ---------------------------------------------------------------------------

/// Settings file the theme picker reads and writes.
#[derive(Clone, Copy, Debug, PartialEq, Eq, Structural)]
pub enum SettingsScope {
    Global,
    Local,
}

/// An open picker: themes (by name, in order) or indexed roots.
#[derive(Clone, Debug)]
pub enum Picker {
    Theme { themes: Vec<String>, selected: usize },
    Root { paths: Vec<String>, selected: usize },
}

/// Work for the shell after a Command Mode transition.
#[derive(Clone, Debug)]
pub enum CommandEffect {
    /// Undo the live theme preview (leaving the theme picker without committing).
    RestoreThemePreview,
    /// Show theme `index` of the picker as a live preview.
    PreviewTheme { index: usize },
    /// After `delay_ms`, report `generation` back to [`CommandMode::chord_timer_fired`].
    StartChordTimer { generation: u32, delay_ms: i32 },
    /// Letter actions.
    RunDuplicates,
    RunSnapshot,
    ReloadConfig,
    ExportZahir,
    ExportLenses,
    /// Fetch the settings of `scope` and open the theme picker.
    LoadThemePicker { scope: SettingsScope },
    /// Fetch the indexed roots and open the root picker.
    LoadRootPicker,
    /// Save theme `name` to the settings of `scope`.
    CommitTheme { name: String, scope: SettingsScope },
    /// Switch the served root to `dir` and reload the page.
    SwitchRoot { dir: String },
    /// Show a toast.
    Flash { level: ToastLevel, msg: String },
}

/// State of Command Mode.
pub struct CommandMode {
    /// Ctrl+leader pressed, waiting for a letter.
    pub pending: bool,
    /// The letter table is showing.
    pub menu_visible: bool,
    pub leader: char,
    pub picker: Option<Picker>,
    /// Scope used when opening / committing the theme picker.
    pub theme_scope: SettingsScope,
    /// Bumped after a successful theme commit.
    pub theme_committed: u32,
    /// Generation so stale chord timers do not open the menu after Esc.
    pub chord_gen: u32,
}

/// Number of choices in a picker.
pub open spec fn picker_len(p: Picker) -> nat {
    match p {
        Picker::Theme { themes, .. } => themes@.len(),
        Picker::Root { paths, .. } => paths@.len(),
    }
}

/// Highlighted choice of a picker.
pub open spec fn picker_selected(p: Picker) -> usize {
    match p {
        Picker::Theme { selected, .. } => selected,
        Picker::Root { selected, .. } => selected,
    }
}

/// The generation after `g` (wrapping).
pub open spec fn next_gen(g: u32) -> u32 {
    if g == u32::MAX {
        0
    } else {
        (g + 1) as u32
    }
}

/// The letter action of `c`, as an effect.
pub open spec fn letter_effect_spec(c: char) -> Option<CommandEffect> {
    if c == 'd' {
        Some(CommandEffect::RunDuplicates)
    } else if c == 's' {
        Some(CommandEffect::RunSnapshot)
    } else if c == 'r' {
        Some(CommandEffect::ReloadConfig)
    } else if c == 'x' {
        Some(CommandEffect::ExportZahir)
    } else if c == 'l' {
        Some(CommandEffect::ExportLenses)
    } else if c == 'p' {
        Some(CommandEffect::LoadRootPicker)
    } else {
        None
    }
}

/// A picker after moving its highlight by `delta` (wrapping); unchanged when
/// absent or empty.
pub open spec fn picker_moved_spec(p: Option<Picker>, q: Option<Picker>, delta: i32) -> bool {
    match p {
        None => q is None,
        Some(Picker::Theme { themes, selected }) => if themes@.len() == 0 {
            q == p
        } else {
            q matches Some(Picker::Theme { themes: t2, selected: s2 }) && t2 == themes && s2 as int == (
            selected + delta) % (themes@.len() as int)
        },
        Some(Picker::Root { paths, selected }) => if paths@.len() == 0 {
            q == p
        } else {
            q matches Some(Picker::Root { paths: p2, selected: s2 }) && p2 == paths && s2 as int == (
            selected + delta) % (paths@.len() as int)
        },
    }
}

/// `[RestoreThemePreview]` when a theme picker is open, else nothing.
pub open spec fn restore_effects(s: CommandMode) -> Seq<CommandEffect> {
    if s.picker matches Some(Picker::Theme { .. }) {
        seq![CommandEffect::RestoreThemePreview]
    } else {
        Seq::empty()
    }
}

/// `[PreviewTheme]` of the highlighted theme, when it exists.
pub open spec fn preview_effects(p: Option<Picker>) -> Seq<CommandEffect> {
    match p {
        Some(Picker::Theme { themes, selected }) => if selected < themes@.len() {
            seq![CommandEffect::PreviewTheme { index: selected }]
        } else {
            Seq::empty()
        },
        _ => Seq::empty(),
    }
}

/// Effects of Ctrl+leader: restore a previewed theme, then arm the menu timer.
pub open spec fn chord_begun_effects(s: CommandMode) -> Seq<CommandEffect> {
    restore_effects(s).push(
        CommandEffect::StartChordTimer { generation: next_gen(s.chord_gen), delay_ms: CHORD_MENU_DELAY_MS },
    )
}

/// A letter `c` while the chord is active (see [`CommandMode::submit_hotkey`]):
/// ignored while a picker is open; an unknown letter ends the chord; `t` opens
/// the Local theme selector; other letters run their action.
pub open spec fn command_hotkey_post(s: CommandMode, c: char, t: CommandMode, handled: bool, eff: Seq<CommandEffect>) -> bool {
    if s.picker is Some {
        !handled && t == s && eff.len() == 0
    } else if description_spec(lower_char(c)) is None {
        handled && t == chord_ended_spec(s) && eff.len() == 0
    } else if lower_char(c) == 't' {
        handled && t == (CommandMode { theme_scope: SettingsScope::Local, ..chord_ended_spec(s) })
            && eff == seq![CommandEffect::LoadThemePicker { scope: SettingsScope::Local }]
    } else {
        handled && t == chord_ended_spec(s) && eff == seq![letter_effect_spec(lower_char(c))->0]
    }
}

/// Up / Down in a picker: the highlight moves by `delta`, wrapping, and the
/// highlighted theme is previewed.
pub open spec fn picker_move_post(s: CommandMode, delta: i32, t: CommandMode, eff: Seq<CommandEffect>) -> bool {
    &&& t == (CommandMode { picker: t.picker, ..s })
    &&& picker_moved_spec(s.picker, t.picker, delta)
    &&& eff == (if s.picker is Some && picker_len(s.picker->0) > 0 {
        preview_effects(t.picker)
    } else {
        Seq::empty()
    })
}

/// Enter in a picker: the highlighted theme is committed (its preview kept) or
/// the highlighted root switched to; nothing happens without a highlighted row.
pub open spec fn picker_submit_post(s: CommandMode, t: CommandMode, eff: Seq<CommandEffect>) -> bool {
    match s.picker {
        Some(Picker::Theme { themes, selected }) => if selected < themes@.len() {
            t == (CommandMode { picker: None, ..s }) && eff.len() == 2 && eff[0] == (CommandEffect::PreviewTheme {
                index: selected,
            }) && (eff[1] matches CommandEffect::CommitTheme { name, scope } && name == themes@[selected as int]
                && scope == s.theme_scope)
        } else {
            t == s && eff.len() == 0
        },
        Some(Picker::Root { paths, selected }) => if selected < paths@.len() {
            t == (CommandMode { picker: None, ..s }) && eff.len() == 1 && (eff[0] matches CommandEffect::SwitchRoot {
                dir,
            } && dir == paths@[selected as int])
        } else {
            t == s && eff.len() == 0
        },
        None => t == s && eff.len() == 0,
    }
}

impl CommandMode {
    /// Idle Command Mode with the default leader.
    pub fn new() -> (r: Self)
        ensures
            !r.pending && !r.menu_visible && r.picker is None,
            r.leader == DEFAULT_LEADER,
            r.theme_scope == SettingsScope::Local,
            r.theme_committed == 0 && r.chord_gen == 0,
    {
        CommandMode {
            pending: false,
            menu_visible: false,
            leader: DEFAULT_LEADER,
            picker: None,
            theme_scope: SettingsScope::Local,
            theme_committed: 0,
            chord_gen: 0,
        }
    }

    /// Chord pending, letter table up, or a picker open.
    pub fn is_active(&self) -> (r: bool)
        ensures
            r == (self.pending || self.menu_visible || self.picker is Some),
    {
        self.pending || self.menu_visible || self.picker.is_some()
    }

    /// A picker is open.
    pub fn picker_open(&self) -> (r: bool)
        ensures
            r == self.picker is Some,
    {
        self.picker.is_some()
    }

    /// Ends the chord (the table closes, stale timers are ignored).
    pub fn end_chord(&mut self)
        ensures
            *final(self) == (CommandMode {
                pending: false,
                menu_visible: false,
                chord_gen: next_gen(old(self).chord_gen),
                ..*old(self)
            }),
    {
        self.pending = false;
        self.menu_visible = false;
        self.chord_gen = if self.chord_gen == u32::MAX { 0 } else { self.chord_gen + 1 };
    }

    /// Esc: restores a previewed theme, ends the chord and closes any picker.
    pub fn close_all(&mut self) -> (eff: Vec<CommandEffect>)
        ensures
            *final(self) == closed_all_spec(*old(self)),
            eff@ == restore_effects(*old(self)),
    {
        let mut eff: Vec<CommandEffect> = Vec::new();
        if let Some(Picker::Theme { .. }) = &self.picker {
            eff.push(CommandEffect::RestoreThemePreview);
        }
        self.end_chord();
        self.picker = None;
        eff
    }

    /// Ctrl+leader: starts waiting for a letter and arms the menu timer.
    pub fn begin_chord(&mut self) -> (eff: Vec<CommandEffect>)
        ensures
            *final(self) == begun_spec(*old(self)),
            eff@ == chord_begun_effects(*old(self)),
    {
        let mut eff: Vec<CommandEffect> = Vec::new();
        if let Some(Picker::Theme { .. }) = &self.picker {
            eff.push(CommandEffect::RestoreThemePreview);
        }
        self.picker = None;
        self.pending = true;
        self.menu_visible = false;
        self.chord_gen = if self.chord_gen == u32::MAX { 0 } else { self.chord_gen + 1 };
        eff.push(CommandEffect::StartChordTimer { generation: self.chord_gen, delay_ms: CHORD_MENU_DELAY_MS });
        eff
    }

    /// The menu timer of chord `generation` ran out: show the letter table if
    /// that chord is still waiting.
    pub fn chord_timer_fired(&mut self, generation: u32)
        ensures
            *final(self) == timer_fired_spec(*old(self), generation),
    {
        if self.chord_gen != generation {
            return;
        }
        if self.pending && !self.menu_visible {
            self.menu_visible = true;
        }
    }

    /// Opens the theme selector for `scope` (Command Mode `t`, Settings theme control).
    pub fn open_theme_selector(&mut self, scope: SettingsScope) -> (eff: Vec<CommandEffect>)
        ensures
            *final(self) == (CommandMode {
                pending: false,
                menu_visible: false,
                chord_gen: next_gen(old(self).chord_gen),
                theme_scope: scope,
                ..*old(self)
            }),
            eff@ == seq![CommandEffect::LoadThemePicker { scope }],
    {
        self.end_chord();
        self.theme_scope = scope;
        let mut eff: Vec<CommandEffect> = Vec::new();
        eff.push(CommandEffect::LoadThemePicker { scope });
        eff
    }

    /// A letter while the chord is active. Unknown letters just end the chord.
    /// Returns whether the key was handled (not while a picker is open).
    pub fn submit_hotkey(&mut self, c: char) -> (r: (bool, Vec<CommandEffect>))
        ensures
            command_hotkey_post(*old(self), c, *final(self), r.0, r.1@),
    {
        if self.picker.is_some() {
            return (false, Vec::new());
        }
        let c = to_lower(c);
        if description_for(c).is_none() {
            self.end_chord();
            return (true, Vec::new());
        }
        proof {
            if !(c == 'd' || c == 't' || c == 's' || c == 'r' || c == 'x' || c == 'l' || c == 'p') {
                crate::nav::lemma_position_absent(command_keys_spec(), c);
            }
        }
        self.end_chord();
        let mut eff: Vec<CommandEffect> = Vec::new();
        if c == 't' {
            self.theme_scope = SettingsScope::Local;
            eff.push(CommandEffect::LoadThemePicker { scope: SettingsScope::Local });
        } else if c == 'd' {
            eff.push(CommandEffect::RunDuplicates);
        } else if c == 's' {
            eff.push(CommandEffect::RunSnapshot);
        } else if c == 'r' {
            eff.push(CommandEffect::ReloadConfig);
        } else if c == 'x' {
            eff.push(CommandEffect::ExportZahir);
        } else if c == 'l' {
            eff.push(CommandEffect::ExportLenses);
        } else {
            eff.push(CommandEffect::LoadRootPicker);
        }
        (true, eff)
    }

    /// The settings arrived: opens the theme picker at the current theme
    /// (`selected`) and previews it.
    pub fn theme_picker_loaded(&mut self, themes: Vec<String>, selected: usize) -> (eff: Vec<CommandEffect>)
        ensures
            *final(self) == (CommandMode { picker: Some(Picker::Theme { themes, selected }), ..*old(self) }),
            eff@ == preview_effects(final(self).picker),
    {
        let n = themes.len();
        self.picker = Some(Picker::Theme { themes, selected });
        let mut eff: Vec<CommandEffect> = Vec::new();
        if selected < n {
            eff.push(CommandEffect::PreviewTheme { index: selected });
        }
        eff
    }

    /// The roots arrived (`(path, current)` pairs): opens the root picker at
    /// the current root, or says there are none.
    pub fn root_picker_loaded(&mut self, roots: Vec<(String, bool)>) -> (eff: Vec<CommandEffect>)
        ensures
            roots@.len() == 0 ==> *final(self) == *old(self) && eff@.len() == 1 && (eff@[0] matches CommandEffect::Flash {
                level,
                msg,
            } && level == ToastLevel::Info && msg@ == "No indexed roots"@),
            roots@.len() > 0 ==> eff@.len() == 0 && *final(self) == (CommandMode { picker: final(self).picker, ..*old(self) }),
            roots@.len() > 0 ==> (final(self).picker matches Some(Picker::Root { paths, selected })
                && paths@ == roots@.map_values(|r: (String, bool)| r.0) && selected == match crate::nav::position_spec(
                roots@.map_values(|r: (String, bool)| r.1),
                true,
            ) {
                Some(i) => i as usize,
                None => 0usize,
            }),
    {
        let mut eff: Vec<CommandEffect> = Vec::new();
        if roots.len() == 0 {
            let mut m = String::new();
            push_all(&mut m, "No indexed roots");
            eff.push(CommandEffect::Flash { level: ToastLevel::Info, msg: m });
            return eff;
        }
        let ghost cur = roots@.map_values(|r: (String, bool)| r.1);
        let mut j: usize = 0;
        while j < roots.len() && !roots[j].1
            invariant
                j <= roots@.len(),
                cur == roots@.map_values(|r: (String, bool)| r.1),
                forall|k: int| 0 <= k < j ==> cur[k] != true,
            decreases roots@.len() - j,
        {
            j += 1;
        }
        let selected = if j < roots.len() {
            proof {
                crate::nav::lemma_position_found(cur, true, j as int);
            }
            j
        } else {
            proof {
                crate::nav::lemma_position_absent(cur, true);
            }
            0
        };
        let mut paths: Vec<String> = Vec::new();
        let mut i: usize = 0;
        while i < roots.len()
            invariant
                i <= roots@.len(),
                paths@ == roots@.take(i as int).map_values(|r: (String, bool)| r.0),
            decreases roots@.len() - i,
        {
            paths.push(roots[i].0.clone());
            i += 1;
            assert(paths@ =~= roots@.take(i as int).map_values(|r: (String, bool)| r.0));
        }
        assert(roots@.take(roots@.len() as int) =~= roots@);
        self.picker = Some(Picker::Root { paths, selected });
        eff
    }

    /// Up/Down in a picker: moves the highlight by `delta`, wrapping, and
    /// previews the highlighted theme.
    pub fn picker_move(&mut self, delta: i32) -> (eff: Vec<CommandEffect>)
        ensures
            picker_move_post(*old(self), delta, *final(self), eff@),
    {
        let mut eff: Vec<CommandEffect> = Vec::new();
        let mut taken: Option<Picker> = None;
        std::mem::swap(&mut taken, &mut self.picker);
        let p = match taken {
            Some(p) => p,
            None => {
                return eff;
            },
        };
        let n: usize = match &p {
            Picker::Theme { themes, .. } => themes.len(),
            Picker::Root { paths, .. } => paths.len(),
        };
        if n == 0 {
            self.picker = Some(p);
            return eff;
        }
        let cur: usize = match &p {
            Picker::Theme { selected, .. } => *selected,
            Picker::Root { selected, .. } => *selected,
        };
        let next = wrap_index(cur, delta, n);
        let q = match p {
            Picker::Theme { themes, .. } => Picker::Theme { themes, selected: next },
            Picker::Root { paths, .. } => Picker::Root { paths, selected: next },
        };
        if let Picker::Theme { .. } = &q {
            eff.push(CommandEffect::PreviewTheme { index: next });
        }
        self.picker = Some(q);
        eff
    }

    /// Enter in a picker: commits the highlighted theme (keeping its preview)
    /// or switches to the highlighted root.
    pub fn picker_submit(&mut self) -> (eff: Vec<CommandEffect>)
        ensures
            picker_submit_post(*old(self), *final(self), eff@),
    {
        let mut eff: Vec<CommandEffect> = Vec::new();
        match &self.picker {
            Some(Picker::Theme { themes, selected }) => {
                if *selected < themes.len() {
                    let name = themes[*selected].clone();
                    eff.push(CommandEffect::PreviewTheme { index: *selected });
                    eff.push(CommandEffect::CommitTheme { name, scope: self.theme_scope });
                    self.picker = None;
                }
            },
            Some(Picker::Root { paths, selected }) => {
                if *selected < paths.len() {
                    let dir = paths[*selected].clone();
                    eff.push(CommandEffect::SwitchRoot { dir });
                    self.picker = None;
                }
            },
            None => {},
        }
        eff
    }

    /// A theme commit finished: on success count it and toast `Theme: name`;
    /// on failure restore the previous theme and toast the error.
    pub fn theme_commit_finished(&mut self, name: &str, result: Result<(), String>) -> (eff: Vec<CommandEffect>)
        ensures
            result is Ok ==> *final(self) == (CommandMode {
                theme_committed: next_gen(old(self).theme_committed),
                ..*old(self)
            }) && eff@.len() == 1 && (eff@[0] matches CommandEffect::Flash { level, msg } && level
                == ToastLevel::Info && msg@ == "Theme: "@ + name@),
            result matches Err(e) ==> *final(self) == *old(self) && eff@.len() == 2 && eff@[0]
                == CommandEffect::RestoreThemePreview && eff@[1] == (CommandEffect::Flash {
                level: ToastLevel::Info,
                msg: e,
            }),
    {
        let mut eff: Vec<CommandEffect> = Vec::new();
        match result {
            Ok(()) => {
                self.theme_committed = if self.theme_committed == u32::MAX {
                    0
                } else {
                    self.theme_committed + 1
                };
                let mut m = String::new();
                push_all(&mut m, "Theme: ");
                push_all(&mut m, name);
                eff.push(CommandEffect::Flash { level: ToastLevel::Info, msg: m });
            },
            Err(e) => {
                eff.push(CommandEffect::RestoreThemePreview);
                eff.push(CommandEffect::Flash { level: ToastLevel::Info, msg: e });
            },
        }
        eff
    }
}

/// The menu timer of `generation` fired: the table shows only for the
/// current, still waiting chord.
pub open spec fn timer_fired_spec(s: CommandMode, generation: u32) -> CommandMode {
    if generation == s.chord_gen && s.pending && !s.menu_visible {
        CommandMode { menu_visible: true, ..s }
    } else {
        s
    }
}

/// State after Esc (spec form of [`CommandMode::close_all`]).
pub open spec fn closed_all_spec(s: CommandMode) -> CommandMode {
    CommandMode { picker: None, ..chord_ended_spec(s) }
}

/// State after Ctrl+leader (spec form of [`CommandMode::begin_chord`]).
pub open spec fn begun_spec(s: CommandMode) -> CommandMode {
    CommandMode {
        pending: true,
        menu_visible: false,
        chord_gen: next_gen(s.chord_gen),
        picker: None,
        ..s
    }
}

/// After Esc nothing of Command Mode is active.
pub proof fn law_close_all_deactivates(s: CommandMode)
    ensures
        !closed_all_spec(s).pending && !closed_all_spec(s).menu_visible && closed_all_spec(s).picker is None,
{
}

/// A timer armed before Esc never opens the table afterwards.
pub proof fn law_stale_timer_ignored(s: CommandMode)
    ensures
        timer_fired_spec(closed_all_spec(s), s.chord_gen) == closed_all_spec(s),
        timer_fired_spec(chord_ended_spec(s), s.chord_gen) == chord_ended_spec(s),
{
}

/// The timer armed by Ctrl+leader shows the table when nothing happened meanwhile.
pub proof fn law_fresh_timer_opens_menu(s: CommandMode)
    ensures
        timer_fired_spec(begun_spec(s), begun_spec(s).chord_gen).menu_visible,
        timer_fired_spec(begun_spec(s), begun_spec(s).chord_gen).pending,
{
}

/// Moving a non-empty picker keeps its highlight on a choice.
pub proof fn law_picker_move_in_range(p: Option<Picker>, q: Option<Picker>, delta: i32)
    requires
        picker_moved_spec(p, q, delta),
        p is Some && picker_len(p->0) > 0,
    ensures
        q is Some && picker_selected(q->0) < picker_len(q->0),
{
}

/// The chord ended (spec form of [`CommandMode::end_chord`]).
pub open spec fn chord_ended_spec(s: CommandMode) -> CommandMode {
    CommandMode { pending: false, menu_visible: false, chord_gen: next_gen(s.chord_gen), ..s }
}

/// Adding a multiple of `n` keeps the residue.
proof fn lemma_shift_mod(x: int, y: int, n: int)
    requires
        0 < n,
        0 <= x,
        0 <= y,
    ensures
        ((x % n) + (y % n)) % n == (x + y) % n,
        ((x % n) + n - (y % n)) % n == (x - y) % n,
{
    vstd::arithmetic::div_mod::lemma_add_mod_noop(x, y, n);
    vstd::arithmetic::div_mod::lemma_fundamental_div_mod(x, n);
    vstd::arithmetic::div_mod::lemma_fundamental_div_mod(y, n);
    let k = 1 - x / n + y / n;
    assert((x % n) + n - (y % n) == n * k + (x - y)) by (nonlinear_arith)
        requires
            x == n * (x / n) + x % n,
            y == n * (y / n) + y % n,
            k == 1 - x / n + y / n,
    ;
    vstd::arithmetic::div_mod::lemma_mod_multiples_vanish(k, x - y, n);
}

/// `(cur + delta)` modulo `n`, always in `0..n` (`rem_euclid`).
pub fn wrap_index(cur: usize, delta: i32, n: usize) -> (r: usize)
    requires
        n > 0,
    ensures
        r < n,
        r as int == (cur as int + delta as int) % (n as int),
{
    let a: usize = cur % n;
    if delta >= 0 {
        let b: usize = (delta as usize) % n;
        let r = ((a as u128 + b as u128) % (n as u128)) as usize;
        proof {
            lemma_shift_mod(cur as int, delta as int, n as int);
        }
        r
    } else {
        let k: usize = ((0i64 - delta as i64) as u64) as usize;
        let b: usize = k % n;
        let r = ((a as u128 + n as u128 - b as u128) % (n as u128)) as usize;
        proof {
            lemma_shift_mod(cur as int, k as int, n as int);
        }
        r
    }
}

} // verus!
