//! The theme payload the shell applies to the page: palette tokens and
//! whether the page takes the dark class.

use std::collections::BTreeMap;
use vstd::prelude::*;
use crate::text::{str_eq_ignore_case, eq_ignore_case};

verus! {

/// The part of a settings `css` payload that the shell uses: the theme's
/// name, its appearance (`"light"` or `"dark"`) and its CSS custom
/// properties, keyed by property name.
#[derive(Clone, Debug)]
pub struct ThemeCssView {
    pub name: String,
    pub appearance: String,
    pub vars: BTreeMap<String, String>,
}

impl ThemeCssView {
    /// Assembles a view from its three parts, each kept as given.
    pub fn from_parts(name: String, appearance: String, vars: BTreeMap<String, String>) -> (r: Self)
        ensures
            r.name == name,
            r.appearance == appearance,
            r.vars == vars,
    {
        ThemeCssView { name, appearance, vars }
    }

    /// Whether the page takes the `dark` class: every appearance but
    /// `light` (compared ASCII case-insensitively) is dark.
    pub fn wants_dark_class(&self) -> (r: bool)
        ensures
            r == !eq_ignore_case(self.appearance@, "light"@),
    {
        !str_eq_ignore_case(self.appearance.as_str(), "light")
    }
}

/// A row of the theme picker: a section heading (Dark, Light) or a theme.
#[derive(Clone, Debug)]
pub enum ThemePickerRow {
    Section { label: String },
    Theme { name: String, appearance: String, swatch: String, css: ThemeCssView },
}

/// The theme rows of a picker, in order; the picker's highlight counts these
/// only, skipping the section headings.
pub open spec fn theme_items(rows: Seq<ThemePickerRow>) -> Seq<ThemePickerRow> {
    rows.filter(|r: ThemePickerRow| r is Theme)
}

/// A theme row's name.
pub open spec fn row_theme_name(r: ThemePickerRow) -> Seq<char> {
    match r {
        ThemePickerRow::Theme { name, .. } => name@,
        ThemePickerRow::Section { .. } => Seq::empty(),
    }
}

/// A theme row for `name` with nothing else known: no appearance, no swatch
/// and an empty palette.
pub open spec fn bare_theme_row(r: ThemePickerRow, name: String) -> bool {
    r matches ThemePickerRow::Theme { name: n, appearance, swatch, css } && n == name && appearance@.len()
        == 0 && swatch@.len() == 0 && css.name@.len() == 0 && css.appearance@.len() == 0 && css.vars@
        == Map::<String, String>::empty()
}

/// The picker rows a settings payload offers: its own rows, or, when it has
/// none (an older server), one bare row per theme name.
pub fn theme_picker_rows(theme_picker: Vec<ThemePickerRow>, themes: &Vec<String>) -> (r: Vec<ThemePickerRow>)
    ensures
        theme_picker@.len() > 0 ==> r@ == theme_picker@,
        theme_picker@.len() == 0 ==> r@.len() == themes@.len() && forall|i: int|
            0 <= i < themes@.len() ==> bare_theme_row(#[trigger] r@[i], themes@[i]),
{
    if theme_picker.len() > 0 {
        return theme_picker;
    }
    let mut out: Vec<ThemePickerRow> = Vec::new();
    let mut i: usize = 0;
    while i < themes.len()
        invariant
            i <= themes@.len(),
            out@.len() == i,
            forall|k: int| 0 <= k < i ==> bare_theme_row(#[trigger] out@[k], themes@[k]),
        decreases themes@.len() - i,
    {
        let css = ThemeCssView { name: String::new(), appearance: String::new(), vars: BTreeMap::new() };
        out.push(ThemePickerRow::Theme {
            name: themes[i].clone(),
            appearance: String::new(),
            swatch: String::new(),
            css,
        });
        i += 1;
    }
    out
}

/// The names of the theme rows, in order: what the picker's highlight moves over.
pub fn theme_names(rows: &Vec<ThemePickerRow>) -> (r: Vec<String>)
    ensures
        r@.map_values(|n: String| n@) == theme_items(rows@).map_values(|t: ThemePickerRow| row_theme_name(t)),
{
    let mut out: Vec<String> = Vec::new();
    let mut i: usize = 0;
    while i < rows.len()
        invariant
            i <= rows@.len(),
            out@.map_values(|n: String| n@) == theme_items(rows@.take(i as int)).map_values(
                |t: ThemePickerRow| row_theme_name(t),
            ),
        decreases rows@.len() - i,
    {
        proof {
            lemma_items_step(rows@, i as int);
        }
        let ghost before = out@;
        match &rows[i] {
            ThemePickerRow::Theme { name, .. } => {
                out.push(name.clone());
                proof {
                    assert(out@.map_values(|n: String| n@) =~= before.map_values(|n: String| n@).push(
                        row_theme_name(rows@[i as int]),
                    ));
                    assert(theme_items(rows@.take(i as int)).push(rows@[i as int]).map_values(
                        |t: ThemePickerRow| row_theme_name(t),
                    ) =~= theme_items(rows@.take(i as int)).map_values(|t: ThemePickerRow| row_theme_name(t)).push(
                        row_theme_name(rows@[i as int]),
                    ));
                }
            },
            ThemePickerRow::Section { .. } => {},
        }
        i += 1;
    }
    proof {
        assert(rows@.take(rows@.len() as int) =~= rows@);
    }
    out
}

/// The palette of the `idx`-th theme row (section headings not counted).
pub fn theme_css_at(rows: &Vec<ThemePickerRow>, idx: usize) -> (r: Option<&ThemeCssView>)
    ensures
        idx >= theme_items(rows@).len() ==> r is None,
        idx < theme_items(rows@).len() ==> (r matches Some(c) && theme_items(rows@)[idx as int] matches ThemePickerRow::Theme {
            css,
            ..
        } && *c == css),
{
    let mut seen: usize = 0;
    let mut i: usize = 0;
    while i < rows.len()
        invariant
            i <= rows@.len(),
            seen == theme_items(rows@.take(i as int)).len(),
            seen <= idx,
        decreases rows@.len() - i,
    {
        proof {
            lemma_items_step(rows@, i as int);
            lemma_items_prefix(rows@, i as int + 1);
        }
        match &rows[i] {
            ThemePickerRow::Theme { css, .. } => {
                if seen == idx {
                    proof {
                        assert(theme_items(rows@.take(i + 1))[seen as int] == rows@[i as int]);
                    }
                    return Some(css);
                }
                seen += 1;
            },
            ThemePickerRow::Section { .. } => {},
        }
        i += 1;
    }
    proof {
        assert(rows@.take(rows@.len() as int) =~= rows@);
    }
    None
}

/// One more row adds itself to the theme rows when it is a theme.
proof fn lemma_items_step(rows: Seq<ThemePickerRow>, i: int)
    requires
        0 <= i < rows.len(),
    ensures
        theme_items(rows.take(i + 1)) == (if rows[i] is Theme {
            theme_items(rows.take(i)).push(rows[i])
        } else {
            theme_items(rows.take(i))
        }),
{
    assert(rows.take(i + 1).drop_last() =~= rows.take(i));
    reveal_with_fuel(Seq::<_>::filter, 1);
}

/// The theme rows of a prefix are a prefix of the theme rows.
proof fn lemma_items_prefix(rows: Seq<ThemePickerRow>, n: int)
    requires
        0 <= n <= rows.len(),
    ensures
        theme_items(rows.take(n)).len() <= theme_items(rows).len(),
        forall|k: int|
            0 <= k < theme_items(rows.take(n)).len() ==> theme_items(rows)[k] == #[trigger] theme_items(
                rows.take(n),
            )[k],
    decreases rows.len() - n,
{
    if n < rows.len() {
        lemma_items_prefix(rows, n + 1);
        lemma_items_step(rows, n);
        assert forall|k: int| 0 <= k < theme_items(rows.take(n)).len() implies theme_items(rows)[k]
            == #[trigger] theme_items(rows.take(n))[k] by {
            assert(theme_items(rows.take(n + 1))[k] == theme_items(rows.take(n))[k]);
        }
    } else {
        assert(rows.take(n) =~= rows);
    }
}

} // verus!
