use ublx::nav::MainMode;
use ublx::state::{
    apply_pdf_page_action, context_blurb, current_hit_index, goto_pdf_page, id_list_step,
    list_first, list_last, sections_for, shown_section, string_list_step, text_window_offset,
    CatalogRefresh, CatalogScope, CatalogSearch, HelpOverlay, Multiselect, PdfPageNav, ViewerFind,
    DIGIT_ROW_DESC, DIGIT_ROW_KEY, FOOTNOTE,
};

fn s(x: &str) -> String {
    x.to_string()
}

#[test]
fn multiselect_toggles_rows() {
    let mut m = Multiselect::new();
    m.cursor = Some(s("b.txt"));
    assert!(!m.try_toggle_mode(MainMode::Delta, true));
    assert!(!m.try_toggle_mode(MainMode::Snapshot, false));
    assert!(m.try_toggle_mode(MainMode::Snapshot, true));
    assert!(m.active);
    assert!(m.is_checked(&s("b.txt")));
    assert_eq!(m.count(), 1);
    m.cursor = Some(s("a.txt"));
    m.toggle_row();
    assert_eq!(m.bulk_paths(), vec![s("a.txt"), s("b.txt")]);
    m.toggle_row();
    assert!(!m.is_checked(&s("a.txt")));
    m.toggle_row();
    m.toggle_row();
    assert_eq!(m.bulk_paths(), vec![s("b.txt")]);
    assert!(m.try_toggle_mode(MainMode::Lenses, true));
    assert!(!m.active);
    assert_eq!(m.count(), 0);
    assert!(!m.is_checked(&s("b.txt")));
    assert!(Multiselect::applies(MainMode::Lenses));
    assert!(!Multiselect::applies(MainMode::Duplicates));
    m.clear();
    assert!(m.selected.is_empty());
}

#[test]
fn catalog_scopes_and_refresh() {
    assert_eq!(CatalogScope::all(), CatalogScope::entries().union(CatalogScope::lenses()).union(CatalogScope::duplicates()).union(CatalogScope::delta()));
    assert!(CatalogScope::all().overlaps(CatalogScope::delta()));
    assert!(!CatalogScope::none().overlaps(CatalogScope::all()));
    let mut r = CatalogRefresh::new();
    r.bump(CatalogScope::lenses());
    assert_eq!((r.entries, r.lenses, r.duplicates, r.delta), (0, 1, 0, 0));
    r.bump(CatalogScope::all());
    assert_eq!((r.entries, r.lenses, r.duplicates, r.delta), (1, 2, 1, 1));
    assert_eq!(r.tick(CatalogScope::lenses()), 2);
    assert_eq!(r.tick(CatalogScope::all()), 5);
    assert_eq!(r.tick(CatalogScope::none()), 0);
    r.entries = u32::MAX;
    r.bump(CatalogScope::entries());
    assert_eq!(r.entries, 0);
    r.lenses = u32::MAX;
    assert_eq!(r.tick(CatalogScope::entries().union(CatalogScope::lenses())), u32::MAX);
}

#[test]
fn help_sections_and_cycling() {
    assert_eq!(DIGIT_ROW_KEY, "1 2 7 8 9");
    assert!(DIGIT_ROW_DESC.starts_with("Jump to Main Tab"));
    assert!(FOOTNOTE.starts_with("Only bindings"));
    let snap = sections_for(MainMode::Snapshot);
    assert_eq!(snap.len(), 2);
    assert_eq!(snap[0].title, "General");
    assert!(snap[0].include_digit_row);
    assert_eq!(snap[1].title, "Right Pane");
    assert_eq!(sections_for(MainMode::Settings).len(), 1);
    assert_eq!(context_blurb(MainMode::Settings), "Current Mode: edit Global or Local settings.");
    let mut h = HelpOverlay::new();
    h.toggle();
    assert!(h.visible && h.section == 0);
    h.cycle_section(MainMode::Snapshot, 1);
    assert_eq!(h.section, 1);
    h.cycle_section(MainMode::Snapshot, 1);
    assert_eq!(h.section, 0);
    h.cycle_section(MainMode::Snapshot, -1);
    assert_eq!(h.section, 1);
    assert_eq!(shown_section(1, MainMode::Delta), 0);
    assert_eq!(shown_section(1, MainMode::Lenses), 1);
    h.cycle_section(MainMode::Delta, 1);
    assert_eq!(h.section, 0);
    h.toggle();
    assert!(!h.visible);
    h.open();
    h.close();
    assert!(!h.visible);
}

#[test]
fn search_and_find_strips() {
    let mut c = CatalogSearch::new();
    assert!(!c.strip_visible());
    c.start();
    assert!(c.strip_visible());
    c.query = s("  foo ");
    c.submit();
    assert!(c.strip_visible());
    assert_eq!(c.trimmed(), "foo");
    c.clear();
    assert!(!c.strip_visible() && c.query.is_empty());

    let mut f = ViewerFind::new();
    f.start();
    assert!(f.strip_visible() && !f.affects_view());
    f.query = s("needle");
    assert!(f.affects_view());
    f.submit();
    f.total = 3;
    f.next();
    f.next();
    f.next();
    assert_eq!(f.current, 0);
    f.prev();
    assert_eq!(f.current, 2);
    f.bump_content();
    assert_eq!(f.content_tick, 1);
    f.clear();
    assert!(!f.strip_visible());
    assert_eq!((f.current, f.total), (0, 0));
    assert_eq!(current_hit_index(5, 3), 2);
    assert_eq!(current_hit_index(1, 3), 1);
    assert_eq!(current_hit_index(4, 0), 0);
}

#[test]
fn find_input_typing_and_blur() {
    let mut f = ViewerFind::new();
    f.start();
    f.total = 4;
    f.current = 2;
    f.set_query(s("  needle "));
    assert_eq!(f.current, 0);
    assert_eq!(f.query, "  needle ");
    f.blur();
    assert!(!f.active && f.committed);
    // Blurring again changes nothing.
    f.blur();
    assert!(!f.active && f.committed);

    let mut g = ViewerFind::new();
    g.start();
    g.set_query(s("   "));
    g.blur();
    assert!(!g.active && !g.committed);
}

#[test]
fn list_steps_stay_in_range() {
    let keys = vec![s("a"), s("b"), s("c")];
    assert_eq!(string_list_step(&keys, None, 1), Some(s("a")));
    assert_eq!(string_list_step(&keys, None, -1), Some(s("c")));
    assert_eq!(string_list_step(&keys, Some(&s("b")), 10), Some(s("c")));
    assert_eq!(string_list_step(&keys, Some(&s("b")), -10), Some(s("a")));
    assert_eq!(string_list_step(&keys, Some(&s("zz")), 1), Some(s("a")));
    assert_eq!(string_list_step(&vec![], None, 1), None);
    assert_eq!(id_list_step(&vec![4, 7, 9], Some(7), 1), Some(9));
    assert_eq!(id_list_step(&vec![4, 7, 9], None, -5), Some(9));
    assert_eq!(list_first(&keys), Some(s("a")));
    assert_eq!(list_last(&keys), Some(s("c")));
    assert_eq!(list_last(&vec![]), None);
}

#[test]
fn pdf_and_text_window_paging() {
    assert_eq!(apply_pdf_page_action(PdfPageNav::Next, 3, Some(3)), 3);
    assert_eq!(apply_pdf_page_action(PdfPageNav::Next, 2, Some(3)), 3);
    assert_eq!(apply_pdf_page_action(PdfPageNav::Next, 0, None), 2);
    assert_eq!(apply_pdf_page_action(PdfPageNav::Prev, 1, Some(3)), 1);
    assert_eq!(apply_pdf_page_action(PdfPageNav::Top, 9, Some(12)), 1);
    assert_eq!(apply_pdf_page_action(PdfPageNav::Bottom, 2, Some(12)), 12);
    assert_eq!(apply_pdf_page_action(PdfPageNav::Bottom, 2, None), 2);
    assert_eq!(apply_pdf_page_action(PdfPageNav::Next, u32::MAX, None), u32::MAX);
    assert_eq!(goto_pdf_page(0, Some(5)), 1);
    assert_eq!(goto_pdf_page(9, Some(5)), 5);
    assert_eq!(goto_pdf_page(9, None), 9);
    assert_eq!(text_window_offset(PdfPageNav::Next, 0, 100, 1000, 100), 100);
    assert_eq!(text_window_offset(PdfPageNav::Next, 900, 100, 1000, 100), 900);
    assert_eq!(text_window_offset(PdfPageNav::Prev, 50, 100, 1000, 100), 0);
    assert_eq!(text_window_offset(PdfPageNav::Prev, 500, 100, 1000, 100), 400);
    assert_eq!(text_window_offset(PdfPageNav::Top, 500, 100, 1000, 100), 0);
    assert_eq!(text_window_offset(PdfPageNav::Bottom, 0, 100, 1000, 100), 900);
    assert_eq!(text_window_offset(PdfPageNav::Bottom, 0, 100, 50, 100), 0);
}
