use std::collections::BTreeMap;
use ublx::theme::{theme_css_at, theme_names, theme_picker_rows, ThemeCssView, ThemePickerRow};

fn palette() -> BTreeMap<String, String> {
    let mut m = BTreeMap::new();
    m.insert("--background".to_string(), "0 0% 100%".to_string());
    m.insert("--foreground".to_string(), "222 47% 11%".to_string());
    m
}

#[test]
fn from_parts_keeps_each_part() {
    let v = ThemeCssView::from_parts("Solarized".to_string(), "light".to_string(), palette());
    assert_eq!(v.name, "Solarized");
    assert_eq!(v.appearance, "light");
    assert_eq!(v.vars, palette());
}

#[test]
fn light_appearance_drops_dark_class_in_any_case() {
    for a in ["light", "Light", "LIGHT"] {
        let v = ThemeCssView::from_parts("t".to_string(), a.to_string(), BTreeMap::new());
        assert!(!v.wants_dark_class(), "{a}");
    }
}

#[test]
fn other_appearances_take_dark_class() {
    for a in ["dark", "", "lights", " light"] {
        let v = ThemeCssView::from_parts("t".to_string(), a.to_string(), BTreeMap::new());
        assert!(v.wants_dark_class(), "{a}");
    }
}

fn theme_row(name: &str, appearance: &str) -> ThemePickerRow {
    ThemePickerRow::Theme {
        name: name.to_string(),
        appearance: appearance.to_string(),
        swatch: "#000".to_string(),
        css: ThemeCssView::from_parts(name.to_string(), appearance.to_string(), palette()),
    }
}

fn section(label: &str) -> ThemePickerRow {
    ThemePickerRow::Section { label: label.to_string() }
}

#[test]
fn picker_rows_fall_back_to_bare_names() {
    let rows = theme_picker_rows(vec![], &vec!["a".to_string(), "b".to_string()]);
    assert_eq!(rows.len(), 2);
    match &rows[1] {
        ThemePickerRow::Theme { name, appearance, swatch, css } => {
            assert_eq!(name, "b");
            assert!(appearance.is_empty() && swatch.is_empty());
            assert!(css.name.is_empty() && css.appearance.is_empty() && css.vars.is_empty());
        }
        ThemePickerRow::Section { .. } => panic!("expected a theme row"),
    }
    let given = vec![section("Dark"), theme_row("night", "dark")];
    let rows = theme_picker_rows(given, &vec!["ignored".to_string()]);
    assert_eq!(rows.len(), 2);
    assert!(matches!(&rows[0], ThemePickerRow::Section { label } if label == "Dark"));
}

#[test]
fn picker_highlight_skips_sections() {
    let rows = vec![
        section("Dark"),
        theme_row("night", "dark"),
        theme_row("ink", "dark"),
        section("Light"),
        theme_row("paper", "light"),
    ];
    assert_eq!(theme_names(&rows), vec!["night", "ink", "paper"]);
    assert_eq!(theme_css_at(&rows, 0).map(|c| c.name.as_str()), Some("night"));
    assert_eq!(theme_css_at(&rows, 2).map(|c| c.name.as_str()), Some("paper"));
    assert!(!theme_css_at(&rows, 2).unwrap().wants_dark_class());
    assert!(theme_css_at(&rows, 3).is_none());
    assert!(theme_names(&vec![section("Dark")]).is_empty());
}
