use ublx::command::{
    command_mode_rows, description_for, popup_title, wrap_index, CommandEffect, CommandMode,
    Picker, SettingsScope, CHORD_MENU_DELAY_MS, DEFAULT_LEADER,
};
use ublx::toast::ToastLevel;

fn s(x: &str) -> String {
    x.to_string()
}

#[test]
fn command_table_and_descriptions() {
    let rows = command_mode_rows();
    assert_eq!(rows.len(), 7);
    assert_eq!(rows[0], ("d", "Run duplicate detection"));
    assert_eq!(rows[6], ("p", "Switch UBLX project"));
    assert_eq!(description_for('t'), Some("Theme selector"));
    assert_eq!(description_for('q'), None);
    assert_eq!(popup_title('a'), "Command Mode (Ctrl+a)");
    assert_eq!(DEFAULT_LEADER, 'a');
    assert_eq!(CHORD_MENU_DELAY_MS, 480);
}

#[test]
fn chord_timer_and_escape() {
    let mut c = CommandMode::new();
    assert!(!c.is_active());
    let eff = c.begin_chord();
    assert!(c.is_active() && c.pending && !c.menu_visible);
    let generation = match eff[0] {
        CommandEffect::StartChordTimer { generation, delay_ms } => {
            assert_eq!(delay_ms, 480);
            generation
        }
        _ => panic!("expected a chord timer"),
    };
    assert_eq!(generation, 1);
    c.chord_timer_fired(generation);
    assert!(c.menu_visible);
    let eff = c.close_all();
    assert!(eff.is_empty());
    assert!(!c.is_active());
    // A timer from the closed chord does nothing.
    c.chord_timer_fired(generation);
    assert!(!c.menu_visible);
    // A fresh chord ignores the timer of the previous one.
    let eff = c.begin_chord();
    assert!(matches!(eff[0], CommandEffect::StartChordTimer { generation: 3, .. }));
    c.chord_timer_fired(generation);
    assert!(!c.menu_visible);
    c.chord_timer_fired(3);
    assert!(c.menu_visible);
}

#[test]
fn letters_run_actions() {
    let mut c = CommandMode::new();
    c.begin_chord();
    let (handled, eff) = c.submit_hotkey('S');
    assert!(handled);
    assert!(matches!(eff[0], CommandEffect::RunSnapshot));
    assert!(!c.is_active());
    c.begin_chord();
    let (handled, eff) = c.submit_hotkey('q');
    assert!(handled && eff.is_empty() && !c.is_active());
    c.begin_chord();
    let (_, eff) = c.submit_hotkey('t');
    assert!(matches!(eff[0], CommandEffect::LoadThemePicker { scope: SettingsScope::Local }));
    c.begin_chord();
    let (_, eff) = c.submit_hotkey('p');
    assert!(matches!(eff[0], CommandEffect::LoadRootPicker));
    for (k, want) in [('d', "dup"), ('r', "reload"), ('x', "zahir"), ('l', "lenses")] {
        c.begin_chord();
        let (_, eff) = c.submit_hotkey(k);
        let ok = match (&eff[0], want) {
            (CommandEffect::RunDuplicates, "dup") => true,
            (CommandEffect::ReloadConfig, "reload") => true,
            (CommandEffect::ExportZahir, "zahir") => true,
            (CommandEffect::ExportLenses, "lenses") => true,
            _ => false,
        };
        assert!(ok, "{k}");
    }
}

#[test]
fn theme_picker_previews_and_commits() {
    let mut c = CommandMode::new();
    let eff = c.open_theme_selector(SettingsScope::Global);
    assert!(matches!(eff[0], CommandEffect::LoadThemePicker { scope: SettingsScope::Global }));
    let eff = c.theme_picker_loaded(vec![s("dark"), s("light"), s("solar")], 1);
    assert!(matches!(eff[0], CommandEffect::PreviewTheme { index: 1 }));
    assert!(c.picker_open());
    assert_eq!(c.submit_hotkey('d').0, false);
    let eff = c.picker_move(-2);
    assert!(matches!(eff[0], CommandEffect::PreviewTheme { index: 2 }));
    let eff = c.picker_move(1);
    assert!(matches!(eff[0], CommandEffect::PreviewTheme { index: 0 }));
    let eff = c.picker_submit();
    assert!(matches!(eff[0], CommandEffect::PreviewTheme { index: 0 }));
    assert!(matches!(&eff[1], CommandEffect::CommitTheme { name, scope: SettingsScope::Global } if name == "dark"));
    assert!(!c.picker_open());
    let eff = c.theme_commit_finished("dark", Ok(()));
    assert!(matches!(&eff[0], CommandEffect::Flash { level: ToastLevel::Info, msg } if msg == "Theme: dark"));
    assert_eq!(c.theme_committed, 1);
    let eff = c.theme_commit_finished("dark", Err(s("HTTP 500")));
    assert!(matches!(eff[0], CommandEffect::RestoreThemePreview));
    assert!(matches!(&eff[1], CommandEffect::Flash { msg, .. } if msg == "HTTP 500"));
    assert_eq!(c.theme_committed, 1);
    // Leaving an open theme picker restores the preview.
    c.theme_picker_loaded(vec![s("dark")], 0);
    let eff = c.close_all();
    assert!(matches!(eff[0], CommandEffect::RestoreThemePreview));
}

#[test]
fn root_picker_starts_at_current_root() {
    let mut c = CommandMode::new();
    let eff = c.root_picker_loaded(vec![]);
    assert!(matches!(&eff[0], CommandEffect::Flash { level: ToastLevel::Info, msg } if msg == "No indexed roots"));
    assert!(!c.picker_open());
    let eff = c.root_picker_loaded(vec![(s("/a"), false), (s("/b"), true), (s("/c"), true)]);
    assert!(eff.is_empty());
    assert!(matches!(&c.picker, Some(Picker::Root { selected: 1, .. })));
    assert!(c.picker_move(1).is_empty());
    let eff = c.picker_submit();
    assert!(matches!(&eff[0], CommandEffect::SwitchRoot { dir } if dir == "/c"));
}

#[test]
fn wrap_index_is_euclidean() {
    assert_eq!(wrap_index(0, -1, 3), 2);
    assert_eq!(wrap_index(2, 1, 3), 0);
    assert_eq!(wrap_index(1, -7, 3), 0);
    assert_eq!(wrap_index(5, 0, 3), 2);
    assert_eq!(wrap_index(0, i32::MIN, 7), (i32::MIN as i64).rem_euclid(7) as usize);
    assert_eq!(wrap_index(usize::MAX, i32::MAX, 10), ((usize::MAX as i128 + i32::MAX as i128) % 10) as usize);
}
