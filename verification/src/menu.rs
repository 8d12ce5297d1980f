//! The Space menu: which menu opens for the focused row, its rows and
//! hotkeys, the sub-flows after a row (rename, confirm, lens picker, …), and
//! the mutations each row asks for.
//!
//! The menu is a state machine. Each transition takes the current state and
//! an event (a key, a submitted row, an edited draft) and returns the next
//! state together with the effects for the shell to perform: serve API calls,
//! clipboard writes, tabs to open and toasts to show.

use vstd::prelude::*;
use crate::text::{
    chars_of, string_of, rfind_char, sub_chars, trim_chars, trim_char_chars, push_all,
    push_chars, string_push, split_chars, to_lower, is_digit, last_index_of, trim_spec,
    trim_char_end_spec, split_spec, lower_char, is_ascii_digit, lemma_last_index_of_bounds,
    digit_char, str_eq, is_alpha, is_ascii_alpha,
};

verus! {

// ---------------------------------------------------------------------------
// Menu kinds, rows and titles
// ---------------------------------------------------------------------------

/// Which Space menu is open.
#[derive(Clone, Debug)]
pub enum SpaceMenuKind {
    /// A catalog file; `lenses` when it is listed inside a lens, `open_in_tab`
    /// for images (shows **Open in new tab**).
    File { path: String, lenses: bool, open_in_tab: bool },
    /// A lens name in the left pane.
    Lens { name: String },
    /// A member of a duplicate group.
    Duplicate { path: String, open_in_tab: bool },
    /// The multi-selection.
    Bulk { lenses: bool },
}

/// One menu row: its label and hotkey.
#[derive(Clone, Copy, Debug)]
pub struct MenuRow {
    pub label: &'static str,
    pub key: char,
}

/// A row as a label and a hotkey.
pub open spec fn row_view(r: MenuRow) -> (Seq<char>, char) {
    (r.label@, r.key)
}

/// The row with this label and hotkey.
pub fn menu_row(label: &'static str, key: char) -> (r: MenuRow)
    ensures
        row_view(r) == (label@, key),
{
    MenuRow { label, key }
}

/// The rows of a menu, in display order.
pub open spec fn menu_rows_spec(kind: SpaceMenuKind) -> Seq<(Seq<char>, char)> {
    match kind {
        SpaceMenuKind::File { lenses, open_in_tab, .. } => {
            (if open_in_tab { seq![("Open in new tab"@, 'o')] } else { Seq::empty() })
                + (if !lenses { seq![("Enhance policy"@, 'p')] } else { Seq::empty() })
                + seq![("Enhance with ZahirScan"@, 'z')]
                + (if lenses {
                seq![("Delete from current Lens"@, 'd')]
            } else {
                seq![("Add to Lens"@, 'l')]
            }) + seq![("Copy Path"@, 'c'), ("Copy Zahir JSON"@, 'j'), ("Rename"@, 'r')]
                + (if !lenses { seq![("Delete"@, 'd')] } else { Seq::empty() })
        },
        SpaceMenuKind::Lens { .. } => seq![("Rename"@, 'r'), ("Delete"@, 'd')],
        SpaceMenuKind::Duplicate { open_in_tab, .. } => {
            seq![("Delete"@, 'd'), ("Ignore"@, 'i')]
                + (if open_in_tab { seq![("Open in new tab"@, 'o')] } else { Seq::empty() })
                + seq![("Copy Path"@, 'c')]
        },
        SpaceMenuKind::Bulk { lenses } => seq![
            (if lenses { "Add to other lens"@ } else { "Add to Lens"@ }, 'a'),
            ("Rename"@, 'r'),
            (if lenses { "Delete from current Lens"@ } else { "Delete"@ }, 'd'),
            ("Enhance with ZahirScan"@, 'z'),
        ],
    }
}

/// The rows of `kind`'s menu.
pub fn menu_rows(kind: &SpaceMenuKind) -> (r: Vec<MenuRow>)
    ensures
        r@.map_values(|x: MenuRow| row_view(x)) == menu_rows_spec(*kind),
{
    let mut v: Vec<MenuRow> = Vec::new();
    match kind {
        SpaceMenuKind::File { lenses, open_in_tab, .. } => {
            if *open_in_tab {
                v.push(menu_row("Open in new tab", 'o'));
            }
            if !*lenses {
                v.push(menu_row("Enhance policy", 'p'));
            }
            v.push(menu_row("Enhance with ZahirScan", 'z'));
            if *lenses {
                v.push(menu_row("Delete from current Lens", 'd'));
            } else {
                v.push(menu_row("Add to Lens", 'l'));
            }
            v.push(menu_row("Copy Path", 'c'));
            v.push(menu_row("Copy Zahir JSON", 'j'));
            v.push(menu_row("Rename", 'r'));
            if !*lenses {
                v.push(menu_row("Delete", 'd'));
            }
        },
        SpaceMenuKind::Lens { .. } => {
            v.push(menu_row("Rename", 'r'));
            v.push(menu_row("Delete", 'd'));
        },
        SpaceMenuKind::Duplicate { open_in_tab, .. } => {
            v.push(menu_row("Delete", 'd'));
            v.push(menu_row("Ignore", 'i'));
            v.push(menu_row("Copy Path", 'c'));
            if *open_in_tab {
                v.insert(2, menu_row("Open in new tab", 'o'));
            }
        },
        SpaceMenuKind::Bulk { lenses } => {
            v.push(
                menu_row(if *lenses { "Add to other lens" } else { "Add to Lens" }, 'a'),
            );
            v.push(menu_row("Rename", 'r'));
            v.push(
                menu_row(if *lenses { "Delete from current Lens" } else { "Delete" }, 'd'),
            );
            v.push(menu_row("Enhance with ZahirScan", 'z'));
        },
    }
    assert(v@.map_values(|x: MenuRow| row_view(x)) =~= menu_rows_spec(*kind));
    v
}

/// Rows of the open menu, or none when no menu kind is set.
pub fn menu_rows_for_kind(kind: Option<&SpaceMenuKind>) -> (r: Vec<MenuRow>)
    ensures
        kind is None ==> r@.len() == 0,
        kind matches Some(k) ==> r@.map_values(|x: MenuRow| row_view(x)) == menu_rows_spec(*k),
{
    match kind {
        Some(k) => menu_rows(k),
        None => Vec::new(),
    }
}

/// Title word of a menu kind.
pub open spec fn title_spec(kind: SpaceMenuKind) -> Seq<char> {
    match kind {
        SpaceMenuKind::File { .. } => "Actions"@,
        SpaceMenuKind::Lens { .. } => "Lens"@,
        SpaceMenuKind::Duplicate { .. } => "Duplicates"@,
        SpaceMenuKind::Bulk { .. } => "Bulk"@,
    }
}

/// Title word of a menu kind.
pub fn title_for(kind: &SpaceMenuKind) -> (r: &'static str)
    ensures
        r@ == title_spec(*kind),
{
    match kind {
        SpaceMenuKind::File { .. } => "Actions",
        SpaceMenuKind::Lens { .. } => "Lens",
        SpaceMenuKind::Duplicate { .. } => "Duplicates",
        SpaceMenuKind::Bulk { .. } => "Bulk",
    }
}

/// `label (key)`.
pub open spec fn label_with_hotkey_spec(label: Seq<char>, key: char) -> Seq<char> {
    label + " ("@ + seq![key] + ")"@
}

/// A row label followed by its hotkey in brackets.
pub fn label_with_hotkey(label: &str, key: char) -> (r: String)
    ensures
        r@ == label_with_hotkey_spec(label@, key),
{
    let mut r = String::new();
    push_all(&mut r, label);
    push_all(&mut r, " (");
    string_push(&mut r, key);
    push_all(&mut r, ")");
    r
}

// ---------------------------------------------------------------------------
// Path helpers
// ---------------------------------------------------------------------------

/// Last `/`-separated segment of a path.
pub open spec fn basename_spec(path: Seq<char>) -> Seq<char> {
    match last_index_of(path, '/') {
        Some(i) => path.skip(i + 1),
        None => path,
    }
}

/// Last path segment (basename).
pub fn basename(path: &str) -> (r: String)
    ensures
        r@ == basename_spec(path@),
{
    let v = chars_of(path);
    proof {
        lemma_last_index_of_bounds(v@, '/');
    }
    match rfind_char(&v, '/') {
        Some(i) => {
            assert(i < v@.len());
            let t = sub_chars(&v, i + 1, v.len());
            assert(t@ =~= v@.skip(i + 1));
            string_of(&t)
        },
        None => string_of(&v),
    }
}

/// Catalog root joined with a relative path (`root/rel`), for Copy Path.
pub open spec fn absolute_path_spec(root: Option<Seq<char>>, rel: Seq<char>) -> Seq<char> {
    match root {
        Some(r) => if r.len() > 0 {
            let r2 = trim_char_end_spec(r, '/');
            if rel.len() == 0 {
                r2
            } else {
                r2 + "/"@ + rel
            }
        } else {
            rel
        },
        None => rel,
    }
}

/// `s` without its trailing `c`s.
fn trim_end_char(s: &Vec<char>, c: char) -> (r: Vec<char>)
    ensures
        r@ == trim_char_end_spec(s@, c),
{
    let mut j: usize = s.len();
    assert(s@.take(j as int) =~= s@);
    while j > 0 && s[j - 1] == c
        invariant
            j <= s@.len(),
            trim_char_end_spec(s@, c) == trim_char_end_spec(s@.take(j as int), c),
        decreases j,
    {
        assert(s@.take(j as int).drop_last() =~= s@.take(j - 1));
        j -= 1;
    }
    let r = sub_chars(s, 0, j);
    assert(r@ =~= s@.take(j as int));
    r
}

/// Joins the catalog root and a relative path for Copy Path / display.
pub fn absolute_path(root: Option<&str>, rel: &str) -> (r: String)
    ensures
        r@ == absolute_path_spec(
            match root {
                Some(x) => Some(x@),
                None => None,
            },
            rel@,
        ),
{
    match root {
        Some(r) => {
            let rv = chars_of(r);
            if rv.len() > 0 {
                let t = trim_end_char(&rv, '/');
                let mut out = string_of(&t);
                let relv = chars_of(rel);
                if relv.len() > 0 {
                    push_all(&mut out, "/");
                    push_all(&mut out, rel);
                }
                out
            } else {
                let mut out = String::new();
                push_all(&mut out, rel);
                out
            }
        },
        None => {
            let mut out = String::new();
            push_all(&mut out, rel);
            out
        },
    }
}

} // verus!

verus! {

// ---------------------------------------------------------------------------
// Sub-flows, effects and the menu state
// ---------------------------------------------------------------------------

/// Sub-flow after a menu row.
#[derive(Clone, Debug)]
pub enum Pending {
    /// Renaming a catalog path or a lens.
    Rename { target: String, draft: String, lens: bool },
    /// Yes/No before deleting files, or a lens when `lens_name` is set.
    DeleteConfirm { paths: Vec<String>, lens_name: Option<String> },
    /// Choosing the lens to add paths to (row 0 creates a new lens).
    LensPicker { paths: Vec<String>, names: Vec<String>, exclude: Option<String> },
    /// Typing the name of a new lens for `paths`.
    NewLens { paths: Vec<String>, draft: String },
    /// Automatic or manual enhancement for one path.
    EnhancePolicy { path: String },
    /// One new basename per line for `paths`.
    BulkRename { paths: Vec<String>, draft: String },
}

/// A serve mutation requested by the menu.
#[derive(Clone, Debug)]
pub enum ApiCall {
    Delete { paths: Vec<String> },
    DeleteLens { name: String },
    EnhancePolicy { path: String, policy: &'static str },
    AddToLens { lens: String, paths: Vec<String> },
    Enhance { paths: Vec<String> },
    RemoveFromLens { lens: String, paths: Vec<String> },
    Rename { path: String, new_name: String },
    RenameLens { name: String, new_name: String },
    CreateLens { name: String, paths: Vec<String> },
    BulkRename { renames: Vec<(String, String)> },
}

/// Work for the shell after a menu transition.
#[derive(Clone, Debug)]
pub enum MenuEffect {
    /// Show a toast.
    Flash { level: crate::toast::ToastLevel, msg: String },
    /// Open the file's raw content in a new browser tab.
    OpenRawInTab { path: String },
    /// Write `text` to the clipboard; toast `ok` on success.
    CopyText { text: String, ok: String },
    /// Fetch the entry's Zahir JSON and copy it pretty-printed.
    CopyZahirJson { path: String },
    /// Fetch the lens names and open the lens picker for `paths`.
    LoadLensPicker { paths: Vec<String>, exclude: Option<String> },
    /// Run a mutation; on success clear the multi-selection and/or refresh the catalog.
    Api { call: ApiCall, clear_selection: bool, refresh: bool },
}

/// State of the Space menu.
pub struct SpaceMenu {
    pub visible: bool,
    pub kind: Option<SpaceMenuKind>,
    pub selected: usize,
    /// Path under the middle-pane cursor.
    pub middle_path: Option<String>,
    /// Label under the left-pane cursor (a lens name in Lenses mode).
    pub left_label: Option<String>,
    /// Duplicate paths ignored for this session (no repeats).
    pub ignored: Vec<String>,
    /// Catalog root for Copy Path.
    pub catalog_root: Option<String>,
    pub pending: Option<Pending>,
}

/// The menu closed: nothing open, nothing pending, first row selected.
pub open spec fn closed_from(s: SpaceMenu) -> SpaceMenu {
    SpaceMenu { visible: false, kind: None, selected: 0, pending: None, ..s }
}

/// A toast of `level` with text `msg`.
pub open spec fn is_flash(e: MenuEffect, level: crate::toast::ToastLevel, msg: Seq<char>) -> bool {
    e matches MenuEffect::Flash { level: l, msg: m } && l == level && m@ == msg
}

/// An API effect with these flags.
pub open spec fn is_api(e: MenuEffect, clear: bool, refresh: bool) -> bool {
    e matches MenuEffect::Api { clear_selection, refresh: r, .. } && clear_selection == clear && r == refresh
}

/// The call inside an API effect.
pub open spec fn api_call(e: MenuEffect) -> ApiCall {
    e->Api_call
}

/// Whether the pending sub-flow lets arrows move the highlight.
pub open spec fn allows_navigation_spec(p: Option<Pending>) -> bool {
    match p {
        None => true,
        Some(Pending::DeleteConfirm { .. }) | Some(Pending::EnhancePolicy { .. }) | Some(
            Pending::LensPicker { .. },
        ) => true,
        _ => false,
    }
}

/// Arrows move the highlight only in row lists (not while typing a draft).
pub fn pending_allows_navigation(pending: Option<&Pending>) -> (r: bool)
    ensures
        r == allows_navigation_spec(
            match pending {
                Some(p) => Some(*p),
                None => None,
            },
        ),
{
    match pending {
        None => true,
        Some(Pending::DeleteConfirm { .. }) | Some(Pending::EnhancePolicy { .. }) | Some(
            Pending::LensPicker { .. },
        ) => true,
        _ => false,
    }
}

/// Title of the popup: the sub-flow's, else the menu kind's, else ` Actions `.
pub open spec fn pending_title_spec(pending: Option<Pending>, kind: Option<SpaceMenuKind>) -> Seq<char> {
    match pending {
        Some(Pending::DeleteConfirm { .. }) => " Confirm delete "@,
        Some(Pending::EnhancePolicy { .. }) => " Enhance policy "@,
        Some(Pending::LensPicker { .. }) => " Add to Lens "@,
        _ => match kind {
            Some(k) => " "@ + title_spec(k) + " "@,
            None => " Actions "@,
        },
    }
}

/// Title of the popup.
pub fn pending_title(pending: Option<&Pending>, kind: Option<&SpaceMenuKind>) -> (r: String)
    ensures
        r@ == pending_title_spec(
            match pending {
                Some(p) => Some(*p),
                None => None,
            },
            match kind {
                Some(k) => Some(*k),
                None => None,
            },
        ),
{
    let mut r = String::new();
    match pending {
        Some(Pending::DeleteConfirm { .. }) => push_all(&mut r, " Confirm delete "),
        Some(Pending::EnhancePolicy { .. }) => push_all(&mut r, " Enhance policy "),
        Some(Pending::LensPicker { .. }) => push_all(&mut r, " Add to Lens "),
        _ => match kind {
            Some(k) => {
                push_all(&mut r, " ");
                push_all(&mut r, title_for(k));
                push_all(&mut r, " ");
            },
            None => push_all(&mut r, " Actions "),
        },
    }
    r
}

/// Hotkey of the `i`-th lens in the picker: digits 1–9, then blank.
pub open spec fn picker_key_spec(i: int) -> char {
    if i < 9 {
        digit_char((i + 1) as nat)
    } else {
        ' '
    }
}

/// Rows shown for the current state: the sub-flow's choices, or the menu's rows.
pub open spec fn display_rows_spec(s: SpaceMenu) -> Seq<(Seq<char>, char)> {
    match s.pending {
        Some(Pending::DeleteConfirm { .. }) => seq![("Yes — delete"@, 'y'), ("No"@, 'n')],
        Some(Pending::EnhancePolicy { .. }) => seq![
            ("Always — automatic"@, 'y'),
            ("Per-file — manual"@, 'n'),
        ],
        Some(Pending::LensPicker { names, .. }) => seq![("＋ New lens…"@, 'n')] + Seq::new(
            names@.len(),
            |i: int| (names@[i]@, picker_key_spec(i)),
        ),
        Some(_) => Seq::empty(),
        None => match s.kind {
            Some(k) => menu_rows_spec(k).map_values(
                |r: (Seq<char>, char)| (label_with_hotkey_spec(r.0, r.1), r.1),
            ),
            None => Seq::empty(),
        },
    }
}

/// Copies of the strings in `v`.
pub fn clone_strings(v: &Vec<String>) -> (r: Vec<String>)
    ensures
        r@ == v@,
{
    let mut r: Vec<String> = Vec::new();
    let mut i: usize = 0;
    while i < v.len()
        invariant
            i <= v@.len(),
            r@ == v@.take(i as int),
        decreases v@.len() - i,
    {
        r.push(v[i].clone());
        i += 1;
        assert(r@ =~= v@.take(i as int));
    }
    assert(v@.take(v@.len() as int) =~= v@);
    r
}

/// A fresh toast effect.
fn flash(level: crate::toast::ToastLevel, msg: &str) -> (e: MenuEffect)
    ensures
        is_flash(e, level, msg@),
{
    let mut m = String::new();
    push_all(&mut m, msg);
    MenuEffect::Flash { level, msg: m }
}

impl SpaceMenu {
    /// A closed menu with no cursor context.
    pub fn new() -> (r: Self)
        ensures
            !r.visible,
            r.kind is None,
            r.selected == 0,
            r.middle_path is None,
            r.left_label is None,
            r.ignored@.len() == 0,
            r.catalog_root is None,
            r.pending is None,
    {
        SpaceMenu {
            visible: false,
            kind: None,
            selected: 0,
            middle_path: None,
            left_label: None,
            ignored: Vec::new(),
            catalog_root: None,
            pending: None,
        }
    }

    /// Hides the menu and drops its kind, selection and sub-flow.
    pub fn close(&mut self)
        ensures
            *final(self) == closed_from(*old(self)),
    {
        self.visible = false;
        self.kind = None;
        self.selected = 0;
        self.pending = None;
    }

    /// Shows `kind`'s menu with its first row selected.
    pub fn open(&mut self, kind: SpaceMenuKind)
        ensures
            *final(self) == (SpaceMenu {
                visible: true,
                kind: Some(kind),
                selected: 0,
                pending: None,
                ..*old(self)
            }),
    {
        self.pending = None;
        self.kind = Some(kind);
        self.selected = 0;
        self.visible = true;
    }

    /// Rows shown for the current state, each with its hotkey.
    pub fn display_rows(&self) -> (r: Vec<(String, char)>)
        ensures
            r@.map_values(|x: (String, char)| (x.0@, x.1)) == display_rows_spec(*self),
    {
        let mut r: Vec<(String, char)> = Vec::new();
        match &self.pending {
            Some(Pending::DeleteConfirm { .. }) => {
                let mut a = String::new();
                push_all(&mut a, "Yes — delete");
                let mut b = String::new();
                push_all(&mut b, "No");
                r.push((a, 'y'));
                r.push((b, 'n'));
            },
            Some(Pending::EnhancePolicy { .. }) => {
                let mut a = String::new();
                push_all(&mut a, "Always — automatic");
                let mut b = String::new();
                push_all(&mut b, "Per-file — manual");
                r.push((a, 'y'));
                r.push((b, 'n'));
            },
            Some(Pending::LensPicker { names, .. }) => {
                let mut a = String::new();
                push_all(&mut a, "＋ New lens…");
                r.push((a, 'n'));
                let mut i: usize = 0;
                while i < names.len()
                    invariant
                        i <= names@.len(),
                        r@.len() == i + 1,
                        r@[0].0@ == "＋ New lens…"@,
                        r@[0].1 == 'n',
                        forall|k: int|
                            0 <= k < i ==> (#[trigger] r@[k + 1]).0@ == names@[k]@ && r@[k + 1].1
                                == picker_key_spec(k),
                    decreases names@.len() - i,
                {
                    let key = if i < 9 {
                        crate::text::digit((i + 1) as u64)
                    } else {
                        ' '
                    };
                    r.push((names[i].clone(), key));
                    i += 1;
                }
            },
            Some(_) => {},
            None => {
                match &self.kind {
                    Some(k) => {
                        let rows = menu_rows(k);
                        let ghost rv = rows@.map_values(|x: MenuRow| row_view(x));
                        let mut i: usize = 0;
                        while i < rows.len()
                            invariant
                                i <= rows@.len(),
                                rv == rows@.map_values(|x: MenuRow| row_view(x)),
                                r@.len() == i,
                                forall|k: int|
                                    0 <= k < i ==> (#[trigger] r@[k]).0@ == label_with_hotkey_spec(
                                        rv[k].0,
                                        rv[k].1,
                                    ) && r@[k].1 == rv[k].1,
                            decreases rows@.len() - i,
                        {
                            let row = rows[i];
                            r.push((label_with_hotkey(row.label, row.key), row.key));
                            i += 1;
                        }
                    },
                    None => {},
                }
            },
        }
        assert(r@.map_values(|x: (String, char)| (x.0@, x.1)) =~= display_rows_spec(*self));
        r
    }
}

} // verus!

verus! {

/// Some string in `v` has the text `x`.
pub open spec fn contains_text(v: Seq<String>, x: Seq<char>) -> bool {
    exists|k: int| 0 <= k < v.len() && (#[trigger] v[k])@ == x
}

/// `v` with `x` added unless a string with its text is already there.
pub open spec fn insert_unique(v: Seq<String>, x: String) -> Seq<String> {
    if contains_text(v, x@) {
        v
    } else {
        v.push(x)
    }
}

/// Basenames of `paths`, one per line.
pub open spec fn basename_lines_spec(paths: Seq<String>) -> Seq<char>
    decreases paths.len(),
{
    if paths.len() == 0 {
        Seq::empty()
    } else if paths.len() == 1 {
        basename_spec(paths[0]@)
    } else {
        basename_lines_spec(paths.drop_last()) + seq!['\n'] + basename_spec(paths.last()@)
    }
}

/// The lens name under the left cursor, or empty.
pub open spec fn left_lens_spec(s: SpaceMenu) -> Seq<char> {
    match s.left_label {
        Some(l) => l@,
        None => Seq::empty(),
    }
}

/// What a menu row does, as the state after it and the effects it asks for.
pub open spec fn apply_row_spec(
    s: SpaceMenu,
    t: SpaceMenu,
    row: (Seq<char>, char),
    root: Option<Seq<char>>,
    bulk: Seq<String>,
    eff: Seq<MenuEffect>,
) -> bool {
    match s.kind {
        None => t == s && eff.len() == 0,
        Some(kind) => match (kind, row.1) {
            (SpaceMenuKind::File { path, .. }, 'o') | (SpaceMenuKind::Duplicate { path, .. }, 'o') => {
                &&& t == closed_from(s)
                &&& eff.len() == 2
                &&& eff[0] == MenuEffect::OpenRawInTab { path }
                &&& is_flash(eff[1], crate::toast::ToastLevel::Info, "Opened in new tab"@)
            },
            (SpaceMenuKind::File { path, .. }, 'c') | (SpaceMenuKind::Duplicate { path, .. }, 'c') => {
                &&& t == closed_from(s)
                &&& eff.len() == 1
                &&& eff[0] matches MenuEffect::CopyText { text, ok } && text@ == absolute_path_spec(
                    root,
                    path@,
                ) && ok@ == "Copied path"@
            },
            (SpaceMenuKind::File { path, .. }, 'j') => {
                &&& t == closed_from(s)
                &&& eff == seq![MenuEffect::CopyZahirJson { path }]
            },
            (SpaceMenuKind::File { path, lenses: false, .. }, 'p') => {
                &&& t == SpaceMenu {
                    pending: Some(Pending::EnhancePolicy { path }),
                    selected: 0,
                    ..s
                }
                &&& eff.len() == 0
            },
            (SpaceMenuKind::File { path, .. }, 'z') => {
                &&& t == closed_from(s)
                &&& eff.len() == 1
                &&& is_api(eff[0], false, true)
                &&& api_call(eff[0]) matches ApiCall::Enhance { paths } && paths@ == seq![path]
            },
            (SpaceMenuKind::File { path, lenses: false, .. }, 'l') => {
                &&& t == s
                &&& eff.len() == 1
                &&& eff[0] matches MenuEffect::LoadLensPicker { paths, exclude } && paths@ == seq![path]
                    && exclude is None
            },
            (SpaceMenuKind::File { path, lenses: true, .. }, 'd') => {
                &&& t == closed_from(s)
                &&& eff.len() == 1
                &&& is_api(eff[0], false, true)
                &&& api_call(eff[0]) matches ApiCall::RemoveFromLens { lens, paths } && lens@
                    == left_lens_spec(s) && paths@ == seq![path]
            },
            (SpaceMenuKind::File { path, .. }, 'r') => {
                &&& eff.len() == 0
                &&& t == SpaceMenu { pending: t.pending, ..s }
                &&& t.pending matches Some(Pending::Rename { target, draft, lens }) && target == path
                    && draft@ == basename_spec(path@) && !lens
            },
            (SpaceMenuKind::File { path, lenses: false, .. }, 'd') | (
                SpaceMenuKind::Duplicate { path, .. },
                'd',
            ) => {
                &&& eff.len() == 0
                &&& t == SpaceMenu { pending: t.pending, selected: 0, ..s }
                &&& t.pending matches Some(Pending::DeleteConfirm { paths, lens_name }) && paths@ == seq![
                    path,
                ] && lens_name is None
            },
            (SpaceMenuKind::Duplicate { path, .. }, 'i') => {
                &&& t == SpaceMenu { ignored: t.ignored, ..closed_from(s) }
                &&& t.ignored@ == insert_unique(s.ignored@, path)
                &&& eff.len() == 1
                &&& is_flash(eff[0], crate::toast::ToastLevel::Info, "Ignored for this session"@)
            },
            (SpaceMenuKind::Lens { name }, 'r') => {
                &&& eff.len() == 0
                &&& t == SpaceMenu { pending: t.pending, ..s }
                &&& t.pending matches Some(Pending::Rename { target, draft, lens }) && target == name
                    && draft == name && lens
            },
            (SpaceMenuKind::Lens { name }, 'd') => {
                &&& eff.len() == 0
                &&& t == SpaceMenu { pending: t.pending, selected: 0, ..s }
                &&& t.pending matches Some(Pending::DeleteConfirm { paths, lens_name }) && paths@.len()
                    == 0 && lens_name == Some(name)
            },
            (SpaceMenuKind::Bulk { lenses }, 'a') => if bulk.len() == 0 {
                &&& t == s
                &&& eff.len() == 1
                &&& is_flash(eff[0], crate::toast::ToastLevel::Warn, "No rows selected"@)
            } else {
                &&& t == s
                &&& eff.len() == 1
                &&& eff[0] matches MenuEffect::LoadLensPicker { paths, exclude } && paths@ == bulk
                    && exclude == (if lenses { s.left_label } else { None })
            },
            (SpaceMenuKind::Bulk { .. }, 'r') => if bulk.len() == 0 {
                &&& t == s
                &&& eff.len() == 1
                &&& is_flash(eff[0], crate::toast::ToastLevel::Warn, "No rows selected"@)
            } else {
                &&& eff.len() == 0
                &&& t == SpaceMenu { pending: t.pending, ..s }
                &&& t.pending matches Some(Pending::BulkRename { paths, draft }) && paths@ == bulk
                    && draft@ == basename_lines_spec(bulk)
            },
            (SpaceMenuKind::Bulk { lenses }, 'd') => if bulk.len() == 0 {
                &&& t == s
                &&& eff.len() == 1
                &&& is_flash(eff[0], crate::toast::ToastLevel::Warn, "No rows selected"@)
            } else if lenses {
                &&& t == closed_from(s)
                &&& eff.len() == 1
                &&& is_api(eff[0], true, true)
                &&& api_call(eff[0]) matches ApiCall::RemoveFromLens { lens, paths } && lens@
                    == left_lens_spec(s) && paths@ == bulk
            } else {
                &&& eff.len() == 0
                &&& t == SpaceMenu { pending: t.pending, selected: 0, ..s }
                &&& t.pending matches Some(Pending::DeleteConfirm { paths, lens_name }) && paths@ == bulk
                    && lens_name is None
            },
            (SpaceMenuKind::Bulk { .. }, 'z') => {
                &&& t == closed_from(s)
                &&& eff.len() == 1
                &&& is_api(eff[0], true, true)
                &&& api_call(eff[0]) matches ApiCall::Enhance { paths } && paths@ == bulk
            },
            _ => {
                &&& t == closed_from(s)
                &&& eff.len() == 1
                &&& is_flash(eff[0], crate::toast::ToastLevel::Warn, row.0 + " — not wired"@)
            },
        },
    }
}

/// Basenames of `paths`, one per line.
fn basename_lines(paths: &Vec<String>) -> (r: String)
    ensures
        r@ == basename_lines_spec(paths@),
{
    let mut r = String::new();
    let mut i: usize = 0;
    while i < paths.len()
        invariant
            i <= paths@.len(),
            r@ == basename_lines_spec(paths@.take(i as int)),
        decreases paths@.len() - i,
    {
        let b = basename(paths[i].as_str());
        if i > 0 {
            string_push(&mut r, '\n');
        }
        push_all(&mut r, b.as_str());
        proof {
            let t = paths@.take(i + 1);
            assert(t.drop_last() =~= paths@.take(i as int));
            if i == 0 {
                assert(t.len() == 1);
                assert(r@ =~= basename_spec(t[0]@));
            } else {
                assert(r@ =~= basename_lines_spec(t.drop_last()) + seq!['\n'] + basename_spec(t.last()@));
            }
        }
        i += 1;
    }
    assert(paths@.take(paths@.len() as int) =~= paths@);
    r
}

impl SpaceMenu {
    /// Runs a menu row against the open menu kind; `root` is the catalog root
    /// for Copy Path and `bulk` the sorted multi-selection.
    pub fn apply_row(&mut self, row: MenuRow, root: Option<&str>, bulk: &Vec<String>) -> (eff: Vec<MenuEffect>)
        ensures
            apply_row_spec(
                *old(self),
                *final(self),
                row_view(row),
                match root {
                    Some(r) => Some(r@),
                    None => None,
                },
                bulk@,
                eff@,
            ),
    {
        let mut eff: Vec<MenuEffect> = Vec::new();
        let mut taken: Option<SpaceMenuKind> = None;
        std::mem::swap(&mut taken, &mut self.kind);
        let kind = match taken {
            Some(k) => k,
            None => {
                return eff;
            },
        };
        let mut keep = false;
        match (&kind, row.key) {
            (SpaceMenuKind::File { path, .. }, 'o') | (SpaceMenuKind::Duplicate { path, .. }, 'o') => {
                self.close();
                eff.push(MenuEffect::OpenRawInTab { path: path.clone() });
                eff.push(flash(crate::toast::ToastLevel::Info, "Opened in new tab"));
            },
            (SpaceMenuKind::File { path, .. }, 'c') | (SpaceMenuKind::Duplicate { path, .. }, 'c') => {
                self.close();
                let text = absolute_path(root, path.as_str());
                let mut ok = String::new();
                push_all(&mut ok, "Copied path");
                eff.push(MenuEffect::CopyText { text, ok });
            },
            (SpaceMenuKind::File { path, .. }, 'j') => {
                self.close();
                eff.push(MenuEffect::CopyZahirJson { path: path.clone() });
            },
            (SpaceMenuKind::File { path, lenses: false, .. }, 'p') => {
                self.pending = Some(Pending::EnhancePolicy { path: path.clone() });
                self.selected = 0;
                keep = true;
            },
            (SpaceMenuKind::File { path, .. }, 'z') => {
                self.close();
                let mut paths: Vec<String> = Vec::new();
                paths.push(path.clone());
                eff.push(MenuEffect::Api { call: ApiCall::Enhance { paths }, clear_selection: false, refresh: true });
            },
            (SpaceMenuKind::File { path, lenses: false, .. }, 'l') => {
                let mut paths: Vec<String> = Vec::new();
                paths.push(path.clone());
                eff.push(MenuEffect::LoadLensPicker { paths, exclude: None });
                keep = true;
            },
            (SpaceMenuKind::File { path, lenses: true, .. }, 'd') => {
                self.close();
                let mut lens = String::new();
                match &self.left_label {
                    Some(l) => push_all(&mut lens, l.as_str()),
                    None => {},
                }
                let mut paths: Vec<String> = Vec::new();
                paths.push(path.clone());
                eff.push(
                    MenuEffect::Api {
                        call: ApiCall::RemoveFromLens { lens, paths },
                        clear_selection: false,
                        refresh: true,
                    },
                );
            },
            (SpaceMenuKind::File { path, .. }, 'r') => {
                let draft = basename(path.as_str());
                self.pending = Some(Pending::Rename { target: path.clone(), draft, lens: false });
                keep = true;
            },
            (SpaceMenuKind::File { path, lenses: false, .. }, 'd') | (SpaceMenuKind::Duplicate { path, .. }, 'd') => {
                let mut paths: Vec<String> = Vec::new();
                paths.push(path.clone());
                self.pending = Some(Pending::DeleteConfirm { paths, lens_name: None });
                self.selected = 0;
                keep = true;
            },
            (SpaceMenuKind::Duplicate { path, .. }, 'i') => {
                self.close();
                let mut found = false;
                let mut i: usize = 0;
                while i < self.ignored.len()
                    invariant
                        i <= self.ignored@.len(),
                        found <==> exists|k: int| 0 <= k < i && (#[trigger] self.ignored@[k])@ == path@,
                    decreases self.ignored@.len() - i,
                {
                    if self.ignored[i] == *path {
                        found = true;
                    }
                    i += 1;
                }
                if !found {
                    self.ignored.push(path.clone());
                }
                eff.push(flash(crate::toast::ToastLevel::Info, "Ignored for this session"));
            },
            (SpaceMenuKind::Lens { name }, 'r') => {
                self.pending = Some(Pending::Rename { target: name.clone(), draft: name.clone(), lens: true });
                keep = true;
            },
            (SpaceMenuKind::Lens { name }, 'd') => {
                self.pending = Some(Pending::DeleteConfirm { paths: Vec::new(), lens_name: Some(name.clone()) });
                self.selected = 0;
                keep = true;
            },
            (SpaceMenuKind::Bulk { lenses }, 'a') => {
                if bulk.len() == 0 {
                    eff.push(flash(crate::toast::ToastLevel::Warn, "No rows selected"));
                } else {
                    let paths = clone_strings(bulk);
                    let exclude = if *lenses { self.left_label.clone() } else { None };
                    eff.push(MenuEffect::LoadLensPicker { paths, exclude });
                }
                keep = true;
            },
            (SpaceMenuKind::Bulk { .. }, 'r') => {
                if bulk.len() == 0 {
                    eff.push(flash(crate::toast::ToastLevel::Warn, "No rows selected"));
                } else {
                    let paths = clone_strings(bulk);
                    let draft = basename_lines(bulk);
                    self.pending = Some(Pending::BulkRename { paths, draft });
                }
                keep = true;
            },
            (SpaceMenuKind::Bulk { lenses }, 'd') => {
                if bulk.len() == 0 {
                    eff.push(flash(crate::toast::ToastLevel::Warn, "No rows selected"));
                    keep = true;
                } else if *lenses {
                    self.close();
                    let mut lens = String::new();
                    match &self.left_label {
                        Some(l) => push_all(&mut lens, l.as_str()),
                        None => {},
                    }
                    let paths = clone_strings(bulk);
                    eff.push(
                        MenuEffect::Api {
                            call: ApiCall::RemoveFromLens { lens, paths },
                            clear_selection: true,
                            refresh: true,
                        },
                    );
                } else {
                    let paths = clone_strings(bulk);
                    self.pending = Some(Pending::DeleteConfirm { paths, lens_name: None });
                    self.selected = 0;
                    keep = true;
                }
            },
            (SpaceMenuKind::Bulk { .. }, 'z') => {
                self.close();
                let paths = clone_strings(bulk);
                eff.push(MenuEffect::Api { call: ApiCall::Enhance { paths }, clear_selection: true, refresh: true });
            },
            _ => {
                self.close();
                let mut m = String::new();
                push_all(&mut m, row.label);
                push_all(&mut m, " — not wired");
                eff.push(MenuEffect::Flash { level: crate::toast::ToastLevel::Warn, msg: m });
            },
        }
        if keep {
            self.kind = Some(kind);
        }
        eff
    }
}

} // verus!

verus! {

/// What confirming the pending sub-flow does at the selected row.
pub open spec fn submit_pending_spec(s: SpaceMenu, t: SpaceMenu, eff: Seq<MenuEffect>) -> bool {
    let idx = s.selected;
    match s.pending {
        Some(Pending::DeleteConfirm { paths, lens_name }) => if idx != 0 {
            t == (SpaceMenu { pending: None, selected: 0, ..s }) && eff.len() == 0
        } else {
            &&& t == closed_from(s)
            &&& eff.len() == 1
            &&& match lens_name {
                Some(name) => is_api(eff[0], false, true) && api_call(eff[0]) == (ApiCall::DeleteLens {
                    name,
                }),
                None => is_api(eff[0], true, true) && api_call(eff[0]) == (ApiCall::Delete { paths }),
            }
        },
        Some(Pending::EnhancePolicy { path }) => {
            &&& t == closed_from(s)
            &&& eff.len() == 1
            &&& is_api(eff[0], false, false)
            &&& api_call(eff[0]) matches ApiCall::EnhancePolicy { path: p, policy } && p == path
                && policy@ == (if idx == 0 { "auto"@ } else { "manual"@ })
        },
        Some(Pending::LensPicker { paths, names, .. }) => if idx == 0 {
            &&& eff.len() == 0
            &&& t == SpaceMenu { pending: t.pending, ..s }
            &&& t.pending matches Some(Pending::NewLens { paths: p, draft }) && p == paths
                && draft@.len() == 0
        } else if idx - 1 < names@.len() {
            &&& t == closed_from(s)
            &&& eff.len() == 1
            &&& is_api(eff[0], true, true)
            &&& api_call(eff[0]) == (ApiCall::AddToLens { lens: names@[idx - 1], paths })
        } else {
            t == s && eff.len() == 0
        },
        _ => t == s && eff.len() == 0,
    }
}

/// The menu's rows, or none without a kind.
pub open spec fn rows_of(s: SpaceMenu) -> Seq<(Seq<char>, char)> {
    match s.kind {
        Some(k) => menu_rows_spec(k),
        None => Seq::empty(),
    }
}

/// Nothing changes and nothing happens.
pub open spec fn unhandled(s: SpaceMenu, t: SpaceMenu, handled: bool, eff: Seq<MenuEffect>) -> bool {
    !handled && t == s && eff.len() == 0
}

/// What a letter does while the menu is open: `y`/`n` in confirmations, `n`
/// and digits in the lens picker, a row's hotkey otherwise (ASCII case ignored).
pub open spec fn submit_hotkey_spec(
    s: SpaceMenu,
    key: char,
    root: Option<Seq<char>>,
    bulk: Seq<String>,
    t: SpaceMenu,
    handled: bool,
    eff: Seq<MenuEffect>,
) -> bool {
    let c = lower_char(key);
    match s.pending {
        Some(Pending::DeleteConfirm { .. }) | Some(Pending::EnhancePolicy { .. }) => if c == 'y' {
            handled && submit_pending_spec(SpaceMenu { selected: 0, ..s }, t, eff)
        } else if c == 'n' {
            handled && submit_pending_spec(SpaceMenu { selected: 1, ..s }, t, eff)
        } else {
            unhandled(s, t, handled, eff)
        },
        Some(Pending::LensPicker { names, .. }) => if c == 'n' {
            handled && submit_pending_spec(SpaceMenu { selected: 0, ..s }, t, eff)
        } else if is_ascii_digit(c) && c != '0' && (c as int) - 48 <= names@.len() && (c as int)
            - 48 <= 9 {
            handled && submit_pending_spec(
                SpaceMenu { selected: ((c as int) - 48) as usize, ..s },
                t,
                eff,
            )
        } else {
            unhandled(s, t, handled, eff)
        },
        Some(_) => unhandled(s, t, handled, eff),
        None => match crate::nav::position_spec(rows_of(s).map_values(|r: (Seq<char>, char)| r.1), c) {
            None => unhandled(s, t, handled, eff),
            Some(i) => handled && apply_row_spec(
                SpaceMenu { selected: i as usize, ..s },
                t,
                rows_of(s)[i],
                root,
                bulk,
                eff,
            ),
        },
    }
}

/// What activating row `idx` does: the sub-flow's choice, or the menu row.
pub open spec fn submit_row_spec(
    s: SpaceMenu,
    idx: usize,
    root: Option<Seq<char>>,
    bulk: Seq<String>,
    t: SpaceMenu,
    eff: Seq<MenuEffect>,
) -> bool {
    let s1 = SpaceMenu { selected: idx, ..s };
    if s.pending is Some {
        submit_pending_spec(s1, t, eff)
    } else if idx < rows_of(s).len() {
        apply_row_spec(s1, t, rows_of(s)[idx as int], root, bulk, eff)
    } else {
        t == s1 && eff.len() == 0
    }
}

/// The root given by the caller, else the stored catalog root.
pub open spec fn effective_root(s: SpaceMenu, root: Option<&str>) -> Option<Seq<char>> {
    match root {
        Some(r) => Some(r@),
        None => match s.catalog_root {
            Some(c) => Some(c@),
            None => None,
        },
    }
}

impl SpaceMenu {
    /// Confirms the pending sub-flow at the selected row.
    fn submit_pending(&mut self) -> (eff: Vec<MenuEffect>)
        ensures
            submit_pending_spec(*old(self), *final(self), eff@),
    {
        let mut eff: Vec<MenuEffect> = Vec::new();
        let idx = self.selected;
        let mut taken: Option<Pending> = None;
        std::mem::swap(&mut taken, &mut self.pending);
        let p = match taken {
            Some(p) => p,
            None => {
                return eff;
            },
        };
        match p {
            Pending::DeleteConfirm { paths, lens_name } => {
                if idx != 0 {
                    self.selected = 0;
                    return eff;
                }
                self.close();
                match lens_name {
                    Some(name) => eff.push(
                        MenuEffect::Api {
                            call: ApiCall::DeleteLens { name },
                            clear_selection: false,
                            refresh: true,
                        },
                    ),
                    None => eff.push(
                        MenuEffect::Api { call: ApiCall::Delete { paths }, clear_selection: true, refresh: true },
                    ),
                }
            },
            Pending::EnhancePolicy { path } => {
                let policy = if idx == 0 { "auto" } else { "manual" };
                self.close();
                eff.push(
                    MenuEffect::Api {
                        call: ApiCall::EnhancePolicy { path, policy },
                        clear_selection: false,
                        refresh: false,
                    },
                );
            },
            Pending::LensPicker { paths, names, exclude } => {
                if idx == 0 {
                    self.pending = Some(Pending::NewLens { paths, draft: String::new() });
                } else if idx - 1 < names.len() {
                    let lens = names[idx - 1].clone();
                    self.close();
                    eff.push(
                        MenuEffect::Api {
                            call: ApiCall::AddToLens { lens, paths },
                            clear_selection: true,
                            refresh: true,
                        },
                    );
                } else {
                    self.pending = Some(Pending::LensPicker { paths, names, exclude });
                }
            },
            other => {
                self.pending = Some(other);
            },
        }
        eff
    }

    /// Activates row `idx` (mouse click, or Enter on the highlighted row).
    pub fn submit_row_at(&mut self, idx: usize, root: Option<&str>, bulk: &Vec<String>) -> (eff: Vec<MenuEffect>)
        ensures
            submit_row_spec(
                *old(self),
                idx,
                match root {
                    Some(r) => Some(r@),
                    None => None,
                },
                bulk@,
                *final(self),
                eff@,
            ),
    {
        self.selected = idx;
        if self.pending.is_some() {
            return self.submit_pending();
        }
        let rows = menu_rows_for_kind(self.kind.as_ref());
        if idx < rows.len() {
            let row = rows[idx];
            proof {
                assert(rows@.map_values(|x: MenuRow| row_view(x))[idx as int] == row_view(row));
            }
            self.apply_row(row, root, bulk)
        } else {
            Vec::new()
        }
    }

    /// Enter: activates the highlighted row, with `root` or the stored catalog root.
    pub fn submit_selected(&mut self, root: Option<&str>, bulk: &Vec<String>) -> (eff: Vec<MenuEffect>)
        ensures
            submit_row_spec(*old(self), old(self).selected, effective_root(*old(self), root), bulk@, *final(self), eff@),
    {
        let root_owned: Option<String> = match root {
            Some(r) => {
                let mut o = String::new();
                push_all(&mut o, r);
                Some(o)
            },
            None => self.catalog_root.clone(),
        };
        let idx = self.selected;
        match &root_owned {
            Some(r) => self.submit_row_at(idx, Some(r.as_str()), bulk),
            None => self.submit_row_at(idx, None, bulk),
        }
    }

    /// A letter while the menu is open; returns whether it was handled.
    pub fn submit_hotkey(&mut self, key: char, root: Option<&str>, bulk: &Vec<String>) -> (r: (bool, Vec<MenuEffect>))
        ensures
            submit_hotkey_spec(*old(self), key, effective_root(*old(self), root), bulk@, *final(self), r.0, r.1@),
    {
        let root_owned: Option<String> = match root {
            Some(r) => {
                let mut o = String::new();
                push_all(&mut o, r);
                Some(o)
            },
            None => self.catalog_root.clone(),
        };
        let root_ref: Option<&str> = match &root_owned {
            Some(r) => Some(r.as_str()),
            None => None,
        };
        let c = to_lower(key);
        let mut kind_tag: u8 = 0;
        let mut n_names: usize = 0;
        match &self.pending {
            Some(Pending::DeleteConfirm { .. }) | Some(Pending::EnhancePolicy { .. }) => {
                kind_tag = 1;
            },
            Some(Pending::LensPicker { names, .. }) => {
                kind_tag = 2;
                n_names = names.len();
            },
            Some(_) => {
                kind_tag = 3;
            },
            None => {},
        }
        if kind_tag == 1 {
            if c == 'y' {
                self.selected = 0;
                return (true, self.submit_pending());
            }
            if c == 'n' {
                self.selected = 1;
                return (true, self.submit_pending());
            }
            return (false, Vec::new());
        }
        if kind_tag == 2 {
            if c == 'n' {
                self.selected = 0;
                return (true, self.submit_pending());
            }
            if is_digit(c) && c != '0' {
                let n: usize = if c == '1' { 1 } else if c == '2' { 2 } else if c == '3' { 3 } else if c == '4' { 4 } else if c == '5' { 5 } else if c == '6' { 6 } else if c == '7' { 7 } else if c == '8' { 8 } else { 9 };
                let cap: usize = if n_names < 9 { n_names } else { 9 };
                if n >= 1 && n <= cap {
                    self.selected = n;
                    return (true, self.submit_pending());
                }
            }
            return (false, Vec::new());
        }
        if kind_tag == 3 {
            return (false, Vec::new());
        }
        let rows = menu_rows_for_kind(self.kind.as_ref());
        let ghost rv = rows@.map_values(|x: MenuRow| row_view(x));
        let ghost keys = rv.map_values(|r: (Seq<char>, char)| r.1);
        assert(rv == rows_of(*self));
        let mut j: usize = 0;
        while j < rows.len() && rows[j].key != c
            invariant
                j <= rows@.len(),
                rv == rows@.map_values(|x: MenuRow| row_view(x)),
                keys == rv.map_values(|r: (Seq<char>, char)| r.1),
                forall|k: int| 0 <= k < j ==> keys[k] != c,
            decreases rows@.len() - j,
        {
            j += 1;
        }
        if j == rows.len() {
            proof {
                crate::nav::lemma_position_absent(keys, c);
            }
            return (false, Vec::new());
        }
        proof {
            crate::nav::lemma_position_found(keys, c, j as int);
        }
        self.selected = j;
        let row = rows[j];
        let eff = self.apply_row(row, root_ref, bulk);
        (true, eff)
    }
}

} // verus!

verus! {

/// `lo <= x <= hi` clamp.
pub open spec fn clamp_int(x: int, lo: int, hi: int) -> int {
    if x < lo {
        lo
    } else if x > hi {
        hi
    } else {
        x
    }
}

/// The lines of a draft (`str::lines`, then trimmed): split at `\n`, without
/// the empty piece after a final newline.
pub open spec fn draft_lines_spec(draft: Seq<char>) -> Seq<Seq<char>> {
    let parts = split_spec(draft, '\n');
    let kept = if parts.last().len() == 0 {
        parts.drop_last()
    } else {
        parts
    };
    kept.map_values(|l: Seq<char>| trim_spec(l))
}

/// The warning when the bulk-rename draft does not match the selection.
pub open spec fn bulk_rename_warning_spec(n_paths: nat, n_lines: nat) -> Seq<char> {
    "need "@ + crate::text::decimal_spec(n_paths) + " non-empty basename lines (got "@
        + crate::text::decimal_spec(n_lines) + ")"@
}

/// Whether Space opens a menu: not in multi-select, none open yet, in
/// Snapshot, Lenses or Duplicates, on a contents row or (Lenses) a lens name.
pub open spec fn qa_opens(
    old: SpaceMenu,
    mode: crate::nav::MainMode,
    pane: crate::layout::PaneFocus,
    multiselect_active: bool,
) -> bool {
    !multiselect_active && !old.visible && (mode == crate::nav::MainMode::Snapshot || mode
        == crate::nav::MainMode::Lenses || mode == crate::nav::MainMode::Duplicates) && ((pane
        == crate::layout::PaneFocus::Middle && old.middle_path is Some) || (mode == crate::nav::MainMode::Lenses
        && pane == crate::layout::PaneFocus::Left && old.left_label is Some))
}

/// Space on a row (see [`SpaceMenu::try_open_qa`]): opens the menu of the
/// focused row (a file, a duplicate or a lens) in Snapshot, Lenses and
/// Duplicates, unless multi-select is on or a menu is already open.
pub open spec fn open_qa_post(
    old: SpaceMenu,
    mode: crate::nav::MainMode,
    pane: crate::layout::PaneFocus,
    multiselect_active: bool,
    open_in_tab: bool,
    new: SpaceMenu,
    r: bool,
) -> bool {
    &&& !r ==> new == old
    &&& r == qa_opens(old, mode, pane, multiselect_active)
    &&& r ==> new.visible && new.selected == 0 && new.pending is None
    &&& r ==> new == (SpaceMenu { kind: new.kind, ..old }).visible_open()
    &&& r && pane == crate::layout::PaneFocus::Middle ==> new.kind == Some(
        match mode {
            crate::nav::MainMode::Duplicates => SpaceMenuKind::Duplicate { path: old.middle_path->0, open_in_tab },
            crate::nav::MainMode::Lenses => SpaceMenuKind::File { path: old.middle_path->0, lenses: true, open_in_tab },
            _ => SpaceMenuKind::File { path: old.middle_path->0, lenses: false, open_in_tab },
        },
    )
    &&& r && pane == crate::layout::PaneFocus::Left ==> new.kind == Some(
        SpaceMenuKind::Lens { name: old.left_label->0 },
    )
}

/// Whether `a` opens the bulk menu: multi-select on, no menu open, in Lenses or Snapshot.
pub open spec fn bulk_opens(old: SpaceMenu, mode: crate::nav::MainMode, multiselect_active: bool) -> bool {
    multiselect_active && !old.visible && (mode == crate::nav::MainMode::Lenses || mode
        == crate::nav::MainMode::Snapshot)
}

/// `a` with multi-select on (see [`SpaceMenu::try_open_bulk`]): opens the bulk
/// menu in Snapshot and Lenses unless a menu is already open.
pub open spec fn open_bulk_post(old: SpaceMenu, mode: crate::nav::MainMode, multiselect_active: bool, new: SpaceMenu, r: bool) -> bool {
    &&& r == bulk_opens(old, mode, multiselect_active)
    &&& !r ==> new == old
    &&& r ==> new == (SpaceMenu {
        kind: Some(SpaceMenuKind::Bulk { lenses: mode == crate::nav::MainMode::Lenses }),
        ..old
    }).visible_open()
}

/// Up / Down in the menu: the highlight moves by `delta`, kept on the shown
/// rows; nothing moves while a text sub-flow is open or no row is shown.
pub open spec fn move_sel_post(old: SpaceMenu, delta: i32, new: SpaceMenu) -> bool {
    &&& !allows_navigation_spec(old.pending) || display_rows_spec(old).len() == 0 ==> new == old
    &&& allows_navigation_spec(old.pending) && display_rows_spec(old).len() > 0 ==> new == (SpaceMenu {
        selected: clamp_int(old.selected + delta, 0, display_rows_spec(old).len() - 1) as usize,
        ..old
    })
}

/// What [`SpaceMenu::commit_rename_draft`] does to the menu `s`, giving `t` and `eff`.
pub open spec fn commit_rename_post(s: SpaceMenu, t: SpaceMenu, eff: Seq<MenuEffect>) -> bool {
    match s.pending {
        Some(Pending::Rename { target, draft, lens }) => if trim_spec(draft@).len() == 0 {
            t == s && eff.len() == 1 && is_flash(
                eff[0],
                crate::toast::ToastLevel::Warn,
                "name is empty"@,
            )
        } else {
            &&& t == closed_from(s)
            &&& eff.len() == 1
            &&& is_api(eff[0], false, true)
            &&& if lens {
                api_call(eff[0]) matches ApiCall::RenameLens { name, new_name } && name == target
                    && new_name@ == trim_spec(draft@)
            } else {
                api_call(eff[0]) matches ApiCall::Rename { path, new_name } && path == target
                    && new_name@ == trim_spec(draft@)
            }
        },
        _ => t == s && eff.len() == 0,
    }
}

/// What [`SpaceMenu::commit_new_lens`] does to the menu `s`, giving `t` and `eff`.
pub open spec fn commit_new_lens_post(s: SpaceMenu, t: SpaceMenu, eff: Seq<MenuEffect>) -> bool {
    match s.pending {
        Some(Pending::NewLens { paths, draft }) => if trim_spec(draft@).len() == 0 {
            t == s && eff.len() == 1 && is_flash(
                eff[0],
                crate::toast::ToastLevel::Warn,
                "lens name is empty"@,
            )
        } else {
            &&& t == closed_from(s)
            &&& eff.len() == 1
            &&& is_api(eff[0], true, true)
            &&& api_call(eff[0]) matches ApiCall::CreateLens { name, paths: p } && p@ == paths@
                && name@ == trim_spec(draft@)
        },
        _ => t == s && eff.len() == 0,
    }
}

/// What [`SpaceMenu::commit_bulk_rename`] does to the menu `s`, giving `t` and `eff`.
pub open spec fn commit_bulk_rename_post(s: SpaceMenu, t: SpaceMenu, eff: Seq<MenuEffect>) -> bool {
    match s.pending {
        Some(Pending::BulkRename { paths, draft }) => {
            let lines = draft_lines_spec(draft@);
            if lines.len() != paths@.len() || exists|i: int|
                0 <= i < lines.len() && (#[trigger] lines[i]).len() == 0 {
                t == s && eff.len() == 1 && is_flash(
                    eff[0],
                    crate::toast::ToastLevel::Warn,
                    bulk_rename_warning_spec(paths@.len(), lines.len()),
                )
            } else {
                &&& t == closed_from(s)
                &&& eff.len() == 1
                &&& is_api(eff[0], true, true)
                &&& api_call(eff[0]) matches ApiCall::BulkRename { renames } && renames@.len()
                    == paths@.len() && forall|i: int|
                    0 <= i < renames@.len() ==> (#[trigger] renames@[i]).0 == paths@[i]
                        && renames@[i].1@ == lines[i]
            }
        },
        _ => t == s && eff.len() == 0,
    }
}

impl SpaceMenu {
    /// Space: opens the menu for the focused row (contents pane: a file or
    /// duplicate; Lenses left pane: the lens). `open_in_tab` offers **Open in
    /// new tab** (images). Returns whether a menu opened.
    pub fn try_open_qa(
        &mut self,
        mode: crate::nav::MainMode,
        pane: crate::layout::PaneFocus,
        multiselect_active: bool,
        open_in_tab: bool,
    ) -> (r: bool)
        ensures
            open_qa_post(*old(self), mode, pane, multiselect_active, open_in_tab, *final(self), r),
    {
        if multiselect_active || self.visible {
            return false;
        }
        match mode {
            crate::nav::MainMode::Delta | crate::nav::MainMode::Settings => {
                return false;
            },
            _ => {},
        }
        if pane == crate::layout::PaneFocus::Middle {
            let path = match &self.middle_path {
                Some(p) => p.clone(),
                None => {
                    return false;
                },
            };
            let kind = match mode {
                crate::nav::MainMode::Duplicates => SpaceMenuKind::Duplicate { path, open_in_tab },
                crate::nav::MainMode::Lenses => SpaceMenuKind::File { path, lenses: true, open_in_tab },
                _ => SpaceMenuKind::File { path, lenses: false, open_in_tab },
            };
            self.open(kind);
            return true;
        }
        if mode == crate::nav::MainMode::Lenses && pane == crate::layout::PaneFocus::Left {
            match &self.left_label {
                Some(name) => {
                    let name = name.clone();
                    self.open(SpaceMenuKind::Lens { name });
                    return true;
                },
                None => {},
            }
        }
        false
    }

    /// The state shown open at its first row with nothing pending.
    pub open spec fn visible_open(self) -> SpaceMenu {
        SpaceMenu { visible: true, selected: 0, pending: None, ..self }
    }

    /// Opens the bulk menu over the multi-selection (Snapshot / Lenses).
    pub fn try_open_bulk(&mut self, mode: crate::nav::MainMode, multiselect_active: bool) -> (r: bool)
        ensures
            open_bulk_post(*old(self), mode, multiselect_active, *final(self), r),
    {
        if !multiselect_active || self.visible {
            return false;
        }
        let lenses = match mode {
            crate::nav::MainMode::Lenses => true,
            crate::nav::MainMode::Snapshot => false,
            _ => {
                return false;
            },
        };
        self.open(SpaceMenuKind::Bulk { lenses });
        true
    }

    /// Arrow keys: moves the highlight by `delta`, clamped to the shown rows
    /// (not while a draft is being typed).
    pub fn move_sel(&mut self, delta: i32)
        ensures
            move_sel_post(*old(self), delta, *final(self)),
    {
        if !pending_allows_navigation(self.pending.as_ref()) {
            return;
        }
        let rows = self.display_rows();
        proof {
            assert(rows@.len() == rows@.map_values(|x: (String, char)| (x.0@, x.1)).len());
        }
        let n = rows.len();
        if n == 0 {
            return;
        }
        let cur: i128 = self.selected as i128;
        let want: i128 = cur + delta as i128;
        let hi: i128 = (n - 1) as i128;
        let next: i128 = if want < 0 {
            0
        } else if want > hi {
            hi
        } else {
            want
        };
        self.selected = next as usize;
    }

    /// Enter in the rename input: renames the path or lens to the trimmed draft.
    pub fn commit_rename_draft(&mut self) -> (eff: Vec<MenuEffect>)
        ensures
            commit_rename_post(*old(self), *final(self), eff@),
    {
        let mut eff: Vec<MenuEffect> = Vec::new();
        let (target, name, lens) = match &self.pending {
            Some(Pending::Rename { target, draft, lens }) => (target.clone(), crate::text::trim_str(draft.as_str()), *lens),
            _ => {
                return eff;
            },
        };
        if name.as_str().is_empty() {
            eff.push(flash(crate::toast::ToastLevel::Warn, "name is empty"));
            return eff;
        }
        self.close();
        let call = if lens {
            ApiCall::RenameLens { name: target, new_name: name }
        } else {
            ApiCall::Rename { path: target, new_name: name }
        };
        eff.push(MenuEffect::Api { call, clear_selection: false, refresh: true });
        eff
    }

    /// Enter in the new-lens input: creates the lens with the pending paths.
    pub fn commit_new_lens(&mut self) -> (eff: Vec<MenuEffect>)
        ensures
            commit_new_lens_post(*old(self), *final(self), eff@),
    {
        let mut eff: Vec<MenuEffect> = Vec::new();
        let (paths, name) = match &self.pending {
            Some(Pending::NewLens { paths, draft }) => (clone_strings(paths), crate::text::trim_str(draft.as_str())),
            _ => {
                return eff;
            },
        };
        if name.as_str().is_empty() {
            eff.push(flash(crate::toast::ToastLevel::Warn, "lens name is empty"));
            return eff;
        }
        self.close();
        eff.push(MenuEffect::Api { call: ApiCall::CreateLens { name, paths }, clear_selection: true, refresh: true });
        eff
    }
}

/// The draft's lines, trimmed.
fn draft_lines(draft: &str) -> (r: Vec<String>)
    ensures
        r@.len() == draft_lines_spec(draft@).len(),
        forall|i: int| 0 <= i < r@.len() ==> (#[trigger] r@[i])@ == draft_lines_spec(draft@)[i],
{
    let v = chars_of(draft);
    let parts = split_chars(&v, '\n');
    proof {
        crate::text::lemma_split_nonempty(draft@, '\n');
    }
    let ghost ps = split_spec(draft@, '\n');
    let n = parts.len();
    let keep = if parts[n - 1].len() == 0 { n - 1 } else { n };
    let ghost kept = if ps.last().len() == 0 { ps.drop_last() } else { ps };
    assert(kept.len() == keep);
    let mut r: Vec<String> = Vec::new();
    let mut i: usize = 0;
    while i < keep
        invariant
            i <= keep,
            keep <= parts@.len(),
            kept.len() == keep,
            parts@.len() == ps.len(),
            forall|k: int| 0 <= k < parts@.len() ==> #[trigger] parts@[k]@ == ps[k],
            forall|k: int| 0 <= k < kept.len() ==> #[trigger] kept[k] == ps[k],
            r@.len() == i,
            forall|k: int| 0 <= k < i ==> (#[trigger] r@[k])@ == trim_spec(kept[k]),
        decreases keep - i,
    {
        let t = trim_chars(&parts[i]);
        r.push(string_of(&t));
        i += 1;
    }
    r
}

impl SpaceMenu {
    /// Enter in the bulk-rename box: one non-empty basename per selected path.
    pub fn commit_bulk_rename(&mut self) -> (eff: Vec<MenuEffect>)
        ensures
            commit_bulk_rename_post(*old(self), *final(self), eff@),
    {
        let mut eff: Vec<MenuEffect> = Vec::new();
        let ghost mut sl: Seq<Seq<char>> = Seq::empty();
        let (paths, lines) = match &self.pending {
            Some(Pending::BulkRename { paths, draft }) => {
                proof {
                    sl = draft_lines_spec(draft@);
                }
                (clone_strings(paths), draft_lines(draft.as_str()))
            },
            _ => {
                return eff;
            },
        };
        let mut any_empty = false;
        let mut i: usize = 0;
        while i < lines.len()
            invariant
                i <= lines@.len(),
                lines@.len() == sl.len(),
                forall|k: int| 0 <= k < lines@.len() ==> (#[trigger] lines@[k])@ == sl[k],
                any_empty <==> exists|k: int| 0 <= k < i && (#[trigger] sl[k]).len() == 0,
            decreases lines@.len() - i,
        {
            if lines[i].as_str().is_empty() {
                any_empty = true;
            }
            i += 1;
        }
        if lines.len() != paths.len() || any_empty {
            let mut m = String::new();
            push_all(&mut m, "need ");
            let a = crate::text::decimal_string(paths.len() as u64);
            push_all(&mut m, a.as_str());
            push_all(&mut m, " non-empty basename lines (got ");
            let b = crate::text::decimal_string(lines.len() as u64);
            push_all(&mut m, b.as_str());
            push_all(&mut m, ")");
            eff.push(MenuEffect::Flash { level: crate::toast::ToastLevel::Warn, msg: m });
            return eff;
        }
        let mut renames: Vec<(String, String)> = Vec::new();
        let mut j: usize = 0;
        while j < paths.len()
            invariant
                j <= paths@.len(),
                paths@.len() == lines@.len(),
                renames@.len() == j,
                forall|k: int| 0 <= k < j ==> (#[trigger] renames@[k]).0 == paths@[k] && renames@[k].1 == lines@[k],
            decreases paths@.len() - j,
        {
            renames.push((paths[j].clone(), lines[j].clone()));
            j += 1;
        }
        self.close();
        eff.push(MenuEffect::Api { call: ApiCall::BulkRename { renames }, clear_selection: true, refresh: true });
        eff
    }

    /// Typing in the rename input.
    pub fn set_rename_draft(&mut self, v: String)
        ensures
            match old(self).pending {
                Some(Pending::Rename { target, lens, .. }) => *final(self) == (SpaceMenu {
                    pending: Some(Pending::Rename { target, draft: v, lens }),
                    ..*old(self)
                }),
                _ => *final(self) == *old(self),
            },
    {
        let mut taken: Option<Pending> = None;
        std::mem::swap(&mut taken, &mut self.pending);
        self.pending = match taken {
            Some(Pending::Rename { target, lens, .. }) => Some(Pending::Rename { target, draft: v, lens }),
            other => other,
        };
    }

    /// Typing in the new-lens input.
    pub fn set_new_lens_draft(&mut self, v: String)
        ensures
            match old(self).pending {
                Some(Pending::NewLens { paths, .. }) => *final(self) == (SpaceMenu {
                    pending: Some(Pending::NewLens { paths, draft: v }),
                    ..*old(self)
                }),
                _ => *final(self) == *old(self),
            },
    {
        let mut taken: Option<Pending> = None;
        std::mem::swap(&mut taken, &mut self.pending);
        self.pending = match taken {
            Some(Pending::NewLens { paths, .. }) => Some(Pending::NewLens { paths, draft: v }),
            other => other,
        };
    }

    /// Typing in the bulk-rename box.
    pub fn set_bulk_rename_draft(&mut self, v: String)
        ensures
            match old(self).pending {
                Some(Pending::BulkRename { paths, .. }) => *final(self) == (SpaceMenu {
                    pending: Some(Pending::BulkRename { paths, draft: v }),
                    ..*old(self)
                }),
                _ => *final(self) == *old(self),
            },
    {
        let mut taken: Option<Pending> = None;
        std::mem::swap(&mut taken, &mut self.pending);
        self.pending = match taken {
            Some(Pending::BulkRename { paths, .. }) => Some(Pending::BulkRename { paths, draft: v }),
            other => other,
        };
    }

    /// The lens names arrived: shows the lens picker for `paths`, without the
    /// excluded (current) lens.
    pub fn lens_picker_loaded(&mut self, paths: Vec<String>, names: Vec<String>, exclude: Option<String>)
        ensures
            final(self).visible,
            final(self).selected == 0,
            final(self).kind == old(self).kind,
            final(self).middle_path == old(self).middle_path,
            final(self).left_label == old(self).left_label,
            final(self).ignored == old(self).ignored,
            final(self).catalog_root == old(self).catalog_root,
            final(self).pending matches Some(Pending::LensPicker { paths: p, names: n, exclude: e })
                && p == paths && e == exclude && n@ == match exclude {
                Some(ex) => names@.filter(|x: String| x@ != ex@),
                None => names@,
            },
    {
        let kept = match &exclude {
            Some(ex) => {
                let mut k: Vec<String> = Vec::new();
                let mut i: usize = 0;
                while i < names.len()
                    invariant
                        i <= names@.len(),
                        k@ == names@.take(i as int).filter(|x: String| x@ != ex@),
                    decreases names@.len() - i,
                {
                    proof {
                        reveal_with_fuel(Seq::<_>::filter, 1);
                        assert(names@.take(i + 1).drop_last() =~= names@.take(i as int));
                    }
                    if names[i] != *ex {
                        k.push(names[i].clone());
                    }
                    i += 1;
                }
                assert(names@.take(names@.len() as int) =~= names@);
                k
            },
            None => names,
        };
        self.pending = Some(Pending::LensPicker { paths, names: kept, exclude });
        self.selected = 0;
        self.visible = true;
    }
}

} // verus!

verus! {

impl SpaceMenu {
    /// Mouse activation of row `idx`, with the stored catalog root.
    pub fn activate_index(&mut self, idx: usize, bulk: &Vec<String>) -> (eff: Vec<MenuEffect>)
        ensures
            submit_row_spec(*old(self), idx, effective_root(*old(self), None), bulk@, *final(self), eff@),
    {
        let root_owned = self.catalog_root.clone();
        match &root_owned {
            Some(r) => self.submit_row_at(idx, Some(r.as_str()), bulk),
            None => self.submit_row_at(idx, None, bulk),
        }
    }
}

// ---------------------------------------------------------------------------
// Keys on the open menu
// ---------------------------------------------------------------------------

/// What a key pressed on the open menu panel asks for.
#[derive(Clone, Copy, Debug, PartialEq, Eq, Structural)]
pub enum MenuKey {
    /// Left to the page (modifiers held, a text field focused, another key).
    Ignore,
    /// Escape.
    Close,
    /// Enter or Space.
    Submit,
    /// Up / Down.
    Move(i32),
    /// A letter or digit, lowercased.
    Letter(char),
}

/// The panel's key map: text fields keep their keys, Ctrl / Meta / Shift
/// leave the key alone, then Escape, Enter or Space, the arrows, and single
/// ASCII letters and digits.
pub open spec fn menu_key_spec(key: Seq<char>, ctrl: bool, shift: bool, in_text_field: bool) -> MenuKey {
    if in_text_field || ctrl || shift {
        MenuKey::Ignore
    } else if key == "Escape"@ {
        MenuKey::Close
    } else if key == "Enter"@ || key == " "@ {
        MenuKey::Submit
    } else if key == "ArrowUp"@ {
        MenuKey::Move(-1i32)
    } else if key == "ArrowDown"@ {
        MenuKey::Move(1)
    } else if key.len() == 1 && (is_ascii_alpha(lower_char(key[0])) || is_ascii_digit(lower_char(key[0]))) {
        MenuKey::Letter(lower_char(key[0]))
    } else {
        MenuKey::Ignore
    }
}

/// Reads a key on the menu panel; `ctrl` is Ctrl or Meta.
pub fn menu_key(key: &str, ctrl: bool, shift: bool, in_text_field: bool) -> (r: MenuKey)
    ensures
        r == menu_key_spec(key@, ctrl, shift, in_text_field),
{
    proof {
        reveal_strlit("Escape");
        reveal_strlit("Enter");
        reveal_strlit(" ");
        reveal_strlit("ArrowUp");
        reveal_strlit("ArrowDown");
    }
    if in_text_field || ctrl || shift {
        return MenuKey::Ignore;
    }
    let v = chars_of(key);
    if str_eq(key, "Escape") {
        MenuKey::Close
    } else if str_eq(key, "Enter") || str_eq(key, " ") {
        MenuKey::Submit
    } else if str_eq(key, "ArrowUp") {
        MenuKey::Move(-1)
    } else if str_eq(key, "ArrowDown") {
        MenuKey::Move(1)
    } else if v.len() == 1 {
        let c = to_lower(v[0]);
        if is_alpha(c) || is_digit(c) {
            MenuKey::Letter(c)
        } else {
            MenuKey::Ignore
        }
    } else {
        MenuKey::Ignore
    }
}

/// Whether a letter is taken by the menu (see [`submit_hotkey_spec`]).
pub open spec fn hotkey_hit(s: SpaceMenu, key: char) -> bool {
    let c = lower_char(key);
    match s.pending {
        Some(Pending::DeleteConfirm { .. }) | Some(Pending::EnhancePolicy { .. }) => c == 'y' || c == 'n',
        Some(Pending::LensPicker { names, .. }) => c == 'n' || (is_ascii_digit(c) && c != '0' && (c as int)
            - 48 <= names@.len() && (c as int) - 48 <= 9),
        Some(_) => false,
        None => crate::nav::position_spec(rows_of(s).map_values(|r: (Seq<char>, char)| r.1), c) is Some,
    }
}

/// A letter is handled exactly when [`hotkey_hit`] says so.
pub proof fn lemma_hotkey_handled(
    s: SpaceMenu,
    key: char,
    root: Option<Seq<char>>,
    bulk: Seq<String>,
    t: SpaceMenu,
    handled: bool,
    eff: Seq<MenuEffect>,
)
    requires
        submit_hotkey_spec(s, key, root, bulk, t, handled, eff),
    ensures
        handled == hotkey_hit(s, key),
        !handled ==> t == s && eff.len() == 0,
{
}

/// What a panel key does to the menu, with `handled` when the page's own
/// handling of the key is to be stopped.
pub open spec fn menu_key_post(
    s: SpaceMenu,
    k: MenuKey,
    bulk: Seq<String>,
    t: SpaceMenu,
    handled: bool,
    eff: Seq<MenuEffect>,
) -> bool {
    match k {
        MenuKey::Ignore => !handled && t == s && eff.len() == 0,
        MenuKey::Close => handled && t == closed_from(s) && eff.len() == 0,
        MenuKey::Submit => handled && submit_row_spec(s, s.selected, effective_root(s, None), bulk, t, eff),
        MenuKey::Move(d) => handled && move_sel_post(s, d, t) && eff.len() == 0,
        MenuKey::Letter(c) => handled && if hotkey_hit(s, c) {
            submit_hotkey_spec(s, c, effective_root(s, None), bulk, t, true, eff)
        } else if c == 'k' {
            move_sel_post(s, -1i32, t) && eff.len() == 0
        } else if c == 'j' {
            move_sel_post(s, 1, t) && eff.len() == 0
        } else {
            t == s && eff.len() == 0
        },
    }
}

/// What a key in a draft field asks for.
#[derive(Clone, Copy, Debug, PartialEq, Eq, Structural)]
pub enum DraftKey {
    Ignore,
    Commit,
    Close,
}

/// Draft fields: Enter commits a one-line name (Ctrl / Meta + Enter for the
/// bulk rename lines), Escape closes the menu.
pub open spec fn draft_key_spec(multi_line: bool, key: Seq<char>, ctrl: bool) -> DraftKey {
    if key == "Enter"@ && (!multi_line || ctrl) {
        DraftKey::Commit
    } else if key == "Escape"@ {
        DraftKey::Close
    } else {
        DraftKey::Ignore
    }
}

/// Reads a key in a draft field; `ctrl` is Ctrl or Meta.
pub fn draft_key(multi_line: bool, key: &str, ctrl: bool) -> (r: DraftKey)
    ensures
        r == draft_key_spec(multi_line, key@, ctrl),
{
    proof {
        reveal_strlit("Enter");
        reveal_strlit("Escape");
    }
    if str_eq(key, "Enter") && (!multi_line || ctrl) {
        DraftKey::Commit
    } else if str_eq(key, "Escape") {
        DraftKey::Close
    } else {
        DraftKey::Ignore
    }
}

impl SpaceMenu {
    /// A key on the open menu panel (see [`menu_key`]); returns whether the
    /// key was handled, and the work for the shell.
    pub fn handle_key(&mut self, k: MenuKey, bulk: &Vec<String>) -> (r: (bool, Vec<MenuEffect>))
        ensures
            menu_key_post(*old(self), k, bulk@, *final(self), r.0, r.1@),
    {
        match k {
            MenuKey::Ignore => (false, Vec::new()),
            MenuKey::Close => {
                self.close();
                (true, Vec::new())
            },
            MenuKey::Submit => (true, self.submit_selected(None, bulk)),
            MenuKey::Move(d) => {
                self.move_sel(d);
                (true, Vec::new())
            },
            MenuKey::Letter(c) => {
                let ghost s0 = *self;
                let (hit, eff) = self.submit_hotkey(c, None, bulk);
                proof {
                    lemma_hotkey_handled(s0, c, effective_root(s0, None), bulk@, *self, hit, eff@);
                }
                if !hit {
                    if c == 'k' {
                        self.move_sel(-1);
                    } else if c == 'j' {
                        self.move_sel(1);
                    }
                }
                (true, eff)
            },
        }
    }

    /// A key in the draft field of the open sub-flow: Commit confirms the
    /// rename, new lens or bulk rename; Close closes the menu.
    pub fn handle_draft_key(&mut self, k: DraftKey) -> (eff: Vec<MenuEffect>)
        ensures
            k == DraftKey::Ignore ==> *final(self) == *old(self) && eff@.len() == 0,
            k == DraftKey::Close ==> *final(self) == closed_from(*old(self)) && eff@.len() == 0,
            k == DraftKey::Commit ==> match old(self).pending {
                Some(Pending::Rename { .. }) => commit_rename_post(*old(self), *final(self), eff@),
                Some(Pending::NewLens { .. }) => commit_new_lens_post(*old(self), *final(self), eff@),
                Some(Pending::BulkRename { .. }) => commit_bulk_rename_post(*old(self), *final(self), eff@),
                _ => *final(self) == *old(self) && eff@.len() == 0,
            },
    {
        match k {
            DraftKey::Ignore => Vec::new(),
            DraftKey::Close => {
                self.close();
                Vec::new()
            },
            DraftKey::Commit => {
                let tag: u8 = match &self.pending {
                    Some(Pending::Rename { .. }) => 1,
                    Some(Pending::NewLens { .. }) => 2,
                    Some(Pending::BulkRename { .. }) => 3,
                    _ => 0,
                };
                if tag == 1 {
                    self.commit_rename_draft()
                } else if tag == 2 {
                    self.commit_new_lens()
                } else if tag == 3 {
                    self.commit_bulk_rename()
                } else {
                    Vec::new()
                }
            },
        }
    }
}

// ---------------------------------------------------------------------------
// Laws
// ---------------------------------------------------------------------------

/// A hidden menu holds no kind and no sub-flow, and highlights row 0.
pub open spec fn hidden_menu_is_empty(s: SpaceMenu) -> bool {
    !s.visible ==> s.kind is None && s.pending is None && s.selected == 0
}

/// Every menu's hotkeys are pairwise distinct, so a letter picks at most one row.
pub proof fn law_menu_hotkeys_distinct(kind: SpaceMenuKind)
    ensures
        forall|i: int, j: int|
            0 <= i < j < menu_rows_spec(kind).len() ==> (#[trigger] menu_rows_spec(kind)[i]).1
                != (#[trigger] menu_rows_spec(kind)[j]).1,
{
    let r = menu_rows_spec(kind);
    match kind {
        SpaceMenuKind::File { lenses, open_in_tab, .. } => {
            assert forall|i: int, j: int| 0 <= i < j < r.len() implies (#[trigger] r[i]).1 != (#[trigger] r[j]).1 by {
                if open_in_tab && lenses {
                    assert(r =~= seq![("Open in new tab"@, 'o'), ("Enhance with ZahirScan"@, 'z'), ("Delete from current Lens"@, 'd'), ("Copy Path"@, 'c'), ("Copy Zahir JSON"@, 'j'), ("Rename"@, 'r')]);
                } else if open_in_tab {
                    assert(r =~= seq![("Open in new tab"@, 'o'), ("Enhance policy"@, 'p'), ("Enhance with ZahirScan"@, 'z'), ("Add to Lens"@, 'l'), ("Copy Path"@, 'c'), ("Copy Zahir JSON"@, 'j'), ("Rename"@, 'r'), ("Delete"@, 'd')]);
                } else if lenses {
                    assert(r =~= seq![("Enhance with ZahirScan"@, 'z'), ("Delete from current Lens"@, 'd'), ("Copy Path"@, 'c'), ("Copy Zahir JSON"@, 'j'), ("Rename"@, 'r')]);
                } else {
                    assert(r =~= seq![("Enhance policy"@, 'p'), ("Enhance with ZahirScan"@, 'z'), ("Add to Lens"@, 'l'), ("Copy Path"@, 'c'), ("Copy Zahir JSON"@, 'j'), ("Rename"@, 'r'), ("Delete"@, 'd')]);
                }
            }
        },
        SpaceMenuKind::Duplicate { open_in_tab, .. } => {
            assert forall|i: int, j: int| 0 <= i < j < r.len() implies (#[trigger] r[i]).1 != (#[trigger] r[j]).1 by {
                if open_in_tab {
                    assert(r =~= seq![("Delete"@, 'd'), ("Ignore"@, 'i'), ("Open in new tab"@, 'o'), ("Copy Path"@, 'c')]);
                } else {
                    assert(r =~= seq![("Delete"@, 'd'), ("Ignore"@, 'i'), ("Copy Path"@, 'c')]);
                }
            }
        },
        _ => {},
    }
}

/// **Open in new tab** is offered exactly for files and duplicates marked openable (images).
pub proof fn law_open_in_tab_row(kind: SpaceMenuKind)
    ensures
        (exists|i: int| 0 <= i < menu_rows_spec(kind).len() && (#[trigger] menu_rows_spec(kind)[i]).1 == 'o')
            <==> match kind {
            SpaceMenuKind::File { open_in_tab, .. } => open_in_tab,
            SpaceMenuKind::Duplicate { open_in_tab, .. } => open_in_tab,
            _ => false,
        },
{
    let r = menu_rows_spec(kind);
    match kind {
        SpaceMenuKind::File { lenses, open_in_tab, .. } => {
            if open_in_tab {
                assert(r[0].1 == 'o');
            } else {
                if lenses {
                    assert(r =~= seq![("Enhance with ZahirScan"@, 'z'), ("Delete from current Lens"@, 'd'), ("Copy Path"@, 'c'), ("Copy Zahir JSON"@, 'j'), ("Rename"@, 'r')]);
                } else {
                    assert(r =~= seq![("Enhance policy"@, 'p'), ("Enhance with ZahirScan"@, 'z'), ("Add to Lens"@, 'l'), ("Copy Path"@, 'c'), ("Copy Zahir JSON"@, 'j'), ("Rename"@, 'r'), ("Delete"@, 'd')]);
                }
            }
        },
        SpaceMenuKind::Duplicate { open_in_tab, .. } => {
            if open_in_tab {
                assert(r[2].1 == 'o');
            } else {
                assert(r =~= seq![("Delete"@, 'd'), ("Ignore"@, 'i'), ("Copy Path"@, 'c')]);
            }
        },
        SpaceMenuKind::Lens { .. } => {
            assert(r =~= seq![("Rename"@, 'r'), ("Delete"@, 'd')]);
        },
        SpaceMenuKind::Bulk { lenses } => {},
    }
}

/// Running a row keeps a hidden menu empty.
pub proof fn law_apply_row_keeps_hidden_empty(
    s: SpaceMenu,
    t: SpaceMenu,
    row: (Seq<char>, char),
    root: Option<Seq<char>>,
    bulk: Seq<String>,
    eff: Seq<MenuEffect>,
)
    requires
        hidden_menu_is_empty(s),
        apply_row_spec(s, t, row, root, bulk, eff),
    ensures
        hidden_menu_is_empty(t),
{
}

/// Confirming a sub-flow keeps a hidden menu empty.
pub proof fn law_submit_pending_keeps_hidden_empty(s: SpaceMenu, t: SpaceMenu, eff: Seq<MenuEffect>)
    requires
        hidden_menu_is_empty(s),
        submit_pending_spec(s, t, eff),
    ensures
        hidden_menu_is_empty(t),
{
}

/// A hotkey keeps a hidden menu empty.
pub proof fn law_submit_hotkey_keeps_hidden_empty(
    s: SpaceMenu,
    key: char,
    root: Option<Seq<char>>,
    bulk: Seq<String>,
    t: SpaceMenu,
    handled: bool,
    eff: Seq<MenuEffect>,
)
    requires
        hidden_menu_is_empty(s),
        submit_hotkey_spec(s, key, root, bulk, t, handled, eff),
    ensures
        hidden_menu_is_empty(t),
{
}

/// In the lens picker, digit `d` (1–9) picks the row that shows `d` as its key.
pub proof fn law_picker_digit_matches_row(s: SpaceMenu, d: int)
    requires
        s.pending matches Some(Pending::LensPicker { names, .. }) && 1 <= d <= 9 && d <= names@.len(),
    ensures
        display_rows_spec(s)[d].1 == digit_char(d as nat),
{
    let names = s.pending->0->LensPicker_names;
    let rest = Seq::new(names@.len(), |i: int| (names@[i]@, picker_key_spec(i)));
    assert((seq![("＋ New lens…"@, 'n')] + rest)[d] == rest[d - 1]);
}

} // verus!
