use ublx::viewer::{
    chars_contains, css_px, csv_column_widths, CSV_WIDTH_SAMPLE_ROWS, display_paths_timed, examples_text, filter_templates, html_escape_text,
    is_cover_category, is_csv_category, is_directory_category, is_image_category,
    is_markdown_category, is_pdf_category, is_syntect_category, is_text_category,
    is_video_category, literal_match_ranges, literal_match_ranges_ascii_insensitive,
    page_input_size, parse_page_draft, path_looks_delimited, path_looks_epub, path_looks_svg,
    pattern_parts, template_count_label, text_window_label, uses_html_viewer, viewer_body,
    viewer_html_class, wants_byte_window, TemplateView, TimedRow, ViewerBody,
    CONTENT_WINDOW_BYTES, CONTENT_WINDOW_MIN_FILE_BYTES,
};

fn s(x: &str) -> String {
    x.to_string()
}

fn reference_parts(pattern: &str) -> Vec<(String, bool)> {
    let bytes = pattern.as_bytes();
    let mut out = Vec::new();
    let mut i = 0;
    let mut plain_start = 0;
    while i < bytes.len() {
        if bytes[i] == b'[' {
            if let Some(rel) = pattern[i..].find(']') {
                let end = i + rel + 1;
                if plain_start < i {
                    out.push((pattern[plain_start..i].to_string(), false));
                }
                out.push((pattern[i..end].to_string(), true));
                i = end;
                plain_start = end;
                continue;
            }
        }
        i += 1;
    }
    if plain_start < pattern.len() {
        out.push((pattern[plain_start..].to_string(), false));
    }
    if out.is_empty() {
        out.push((pattern.to_string(), false));
    }
    out
}

fn reference_ci(haystack: &str, needle: &str) -> Vec<(usize, usize)> {
    let hb = haystack.as_bytes();
    let nb = needle.as_bytes();
    if nb.is_empty() || hb.len() < nb.len() {
        return Vec::new();
    }
    let mut out = Vec::new();
    let mut i = 0usize;
    while i + nb.len() <= hb.len() {
        if hb[i..i + nb.len()].eq_ignore_ascii_case(nb) {
            out.push((i, i + nb.len()));
            i += nb.len();
        } else {
            i += 1;
        }
    }
    out
}

#[test]
fn category_predicates() {
    assert!(is_markdown_category("Markdown") && !is_markdown_category("markdown"));
    assert!(is_syntect_category("YAML") && is_syntect_category("Code") && !is_syntect_category("yaml"));
    assert!(is_csv_category("CSV") && is_text_category("Text") && is_image_category("Image"));
    assert!(is_pdf_category("PDF") && is_video_category("Video"));
    assert!(is_cover_category("audio") && is_cover_category("EPUB") && !is_cover_category("Video"));
    assert!(is_directory_category("Directory") && is_directory_category("zarr") && !is_directory_category("directory"));
    assert!(path_looks_epub("books/x.EPUB") && !path_looks_epub("epub"));
    assert!(path_looks_svg("a/b.svg") && !path_looks_svg("a.svgz"));
    assert!(path_looks_delimited("data.tsv") && path_looks_delimited("data.CSV") && !path_looks_delimited("data.txt"));
}

#[test]
fn viewer_choice() {
    assert!(uses_html_viewer("Markdown", "a.md"));
    assert!(uses_html_viewer("Unknown", "a.tsv"));
    assert!(!uses_html_viewer("Binary", "a.bin"));
    assert_eq!(viewer_html_class("Markdown", "a.md"), "md-viewer");
    assert_eq!(viewer_html_class("Text", "a.csv"), "csv-viewer");
    assert_eq!(viewer_html_class("Text", "a.txt"), "text-viewer");
    assert_eq!(viewer_html_class("Other", "a.svg"), "img-viewer-host");
    assert_eq!(viewer_html_class("Code", "a.rs"), "code-viewer");
    assert_eq!(CONTENT_WINDOW_MIN_FILE_BYTES, 512 * 1024);
    assert_eq!(CONTENT_WINDOW_BYTES, 256 * 1024);
    assert!(wants_byte_window("Text", 524288));
    assert!(!wants_byte_window("Text", 524287));
    assert!(!wants_byte_window("Markdown", 10_000_000));
    assert_eq!(viewer_body("PDF", "a.pdf", 1), ViewerBody::Pdf);
    assert_eq!(viewer_body("Audio", "a.mp3", 1), ViewerBody::Cover);
    assert_eq!(viewer_body("Directory", "d", 1), ViewerBody::DirectoryTree);
    assert_eq!(viewer_body("Code", "a.rs", 600_000), ViewerBody::WindowedText);
    assert_eq!(viewer_body("Code", "a.rs", 6), ViewerBody::HostHtml);
    assert_eq!(viewer_body("Binary", "a.bin", 6), ViewerBody::HostText);
}

#[test]
fn escape_and_ranges() {
    assert_eq!(html_escape_text("<a href=\"x\">&</a>"), "&lt;a href=&quot;x&quot;&gt;&amp;&lt;/a&gt;");
    assert_eq!(html_escape_text("plain 'q'"), "plain 'q'");
    let cases = [("abcabc", "bc"), ("aaaa", "aa"), ("héllo wörld", "ö"), ("abc", ""), ("", ""), ("x", "xyz")];
    for (h, n) in cases {
        let want: Vec<(usize, usize)> = h.match_indices(n).map(|(i, m)| (i, i + m.len())).collect();
        assert_eq!(literal_match_ranges(h, n), want, "{h:?} / {n:?}");
        assert_eq!(literal_match_ranges_ascii_insensitive(h, n), reference_ci(h, n), "{h:?} / {n:?}");
    }
    assert_eq!(literal_match_ranges_ascii_insensitive("FooBARfoo", "foo"), vec![(0, 3), (6, 9)]);
    assert_eq!(literal_match_ranges_ascii_insensitive("aAaA", "aa"), vec![(0, 2), (2, 4)]);
}

#[test]
fn template_patterns_and_filter() {
    for p in ["Hello [name], you owe [amount]", "no placeholders", "[x]", "a[b", "[a]]b[", "", "é[ü]ß"] {
        assert_eq!(pattern_parts(p), reference_parts(p), "{p:?}");
    }
    assert!(chars_contains(&"hello".chars().collect(), &"ell".chars().collect()));
    assert!(!chars_contains(&"he".chars().collect(), &"hello".chars().collect()));
    let views = vec![
        TemplateView { pattern: s("Invoice [ID]"), count: 3, examples: vec![(s("[ID]"), vec![s("A-17"), s("B-2")])] },
        TemplateView { pattern: s("Meeting notes"), count: 1, examples: vec![] },
        TemplateView { pattern: s("Ünïcode [Wört]"), count: 2, examples: vec![] },
    ];
    assert_eq!(filter_templates(&views, ""), vec![0, 1, 2]);
    assert_eq!(filter_templates(&views, "  INVOICE "), vec![0]);
    assert_eq!(filter_templates(&views, "b-2"), vec![0]);
    assert_eq!(filter_templates(&views, "ÜNÏ"), vec![2]);
    assert_eq!(filter_templates(&views, "zzz"), Vec::<usize>::new());
    assert!(views[1].matches_filter("notes"));
    assert!(views[0].matches_filter("id"));
    assert_eq!(template_count_label(12), "×12");
    assert_eq!(examples_text(&vec![s("a"), s("b")]), "a, b");
}

#[test]
fn delta_rows_get_headers() {
    let rows = vec![(5i64, s("a")), (5, s("b")), (-3, s("c")), (5, s("d"))];
    let out = display_paths_timed(&rows);
    let shape: Vec<String> = out
        .iter()
        .map(|r| match r {
            TimedRow::Header { created_ns } => format!("H{created_ns}"),
            TimedRow::Path { label, key } => format!("{label}|{}", key.replace('\0', "#")),
        })
        .collect();
    assert_eq!(shape, vec!["H5", "  a|5#a", "  b|5#b", "H-3", "  c|-3#c", "H5", "  d|5#d"]);
    assert!(display_paths_timed(&vec![]).is_empty());
}

#[test]
fn page_box_and_window_label() {
    assert_eq!(parse_page_draft(" 12 "), Some(12));
    assert_eq!(parse_page_draft("+7"), Some(7));
    assert_eq!(parse_page_draft(""), None);
    assert_eq!(parse_page_draft("  "), None);
    assert_eq!(parse_page_draft("-1"), None);
    assert_eq!(parse_page_draft("1x"), None);
    assert_eq!(parse_page_draft("+"), None);
    assert_eq!(parse_page_draft("4294967295"), Some(u32::MAX));
    assert_eq!(parse_page_draft("4294967296"), None);
    assert_eq!(parse_page_draft("007"), Some(7));
    for d in ["12", "+7", "-1", "1x", "+", "4294967296", "007", "٣"] {
        assert_eq!(parse_page_draft(d), d.trim().parse::<u32>().ok(), "{d:?}");
    }
    assert_eq!(page_input_size(Some(5), 1), 2);
    assert_eq!(page_input_size(Some(12345), 1), 5);
    assert_eq!(page_input_size(None, 1_000_000_000), 6);
    assert_eq!(text_window_label(0, 1024, 2048), "0 B–1023 B / 2.00 KB");
    assert_eq!(text_window_label(5, 0, 10), "5 B–5 B / 10 B");
}

#[test]
fn csv_widths_take_the_widest_sampled_cell() {
    let head = vec![Some(30), None, Some(5)];
    let body = vec![
        vec![Some(10), Some(50), Some(7)],
        vec![Some(40)],
        vec![None, Some(20), Some(-3), Some(999)],
    ];
    assert_eq!(csv_column_widths(&head, &body), vec![40, 50, 7]);
    assert_eq!(csv_column_widths(&vec![], &body), Vec::<i32>::new());
    assert_eq!(csv_column_widths(&vec![Some(-4)], &vec![]), vec![0]);
    // Only the first rows are sampled.
    let mut many: Vec<Vec<Option<i32>>> = (0..CSV_WIDTH_SAMPLE_ROWS).map(|_| vec![Some(1)]).collect();
    many.push(vec![Some(500)]);
    assert_eq!(csv_column_widths(&vec![None], &many), vec![1]);
    assert_eq!(css_px(40), "40px");
    assert_eq!(css_px(0), "1px");
    assert_eq!(css_px(-7), "1px");
}

#[test]
fn split_patterns_read_back_and_alternate() {
    for p in ["a [b] c", "[x][y]", "no brackets", "[", "a]b[c", "[a]]", "", "ü[ß]"] {
        let parts = pattern_parts(p);
        let joined: String = parts.iter().map(|(t, _)| t.as_str()).collect();
        assert_eq!(joined, p, "{p:?}");
        for (k, (t, ph)) in parts.iter().enumerate() {
            if *ph {
                assert!(t.starts_with('[') && t.ends_with(']'));
                assert!(!t[..t.len() - 1].contains(']'));
            } else {
                assert!(!t.is_empty() || p.is_empty());
                if k + 1 < parts.len() {
                    assert!(parts[k + 1].1);
                }
            }
        }
    }
}
