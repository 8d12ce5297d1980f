use ublx::format::{counter_node_text, format_selection_counter, format_bytes, selection_counter_text, usize_digit_width};

fn reference_bytes(n: u64) -> String {
    let kib = 1024.0_f64;
    let mib = 1024.0_f64 * 1024.0;
    let gib = 1024.0_f64 * 1024.0 * 1024.0;
    if n < 1024 {
        format!("{n} B")
    } else if (n as f64) < mib {
        format!("{:.2} KB", n as f64 / kib)
    } else if (n as f64) < gib {
        format!("{:.2} MB", n as f64 / mib)
    } else {
        format!("{:.2} GB", n as f64 / gib)
    }
}

#[test]
fn format_bytes_exact_values() {
    assert_eq!(format_bytes(0), "0 B");
    assert_eq!(format_bytes(1023), "1023 B");
    assert_eq!(format_bytes(1024), "1.00 KB");
    assert_eq!(format_bytes(1536), "1.50 KB");
    assert_eq!(format_bytes(1048576), "1.00 MB");
    assert_eq!(format_bytes(1073741824), "1.00 GB");
    assert_eq!(format_bytes(5 * 1073741824), "5.00 GB");
}

#[test]
fn format_bytes_agrees_with_float_formatting() {
    let mut n: u64 = 0;
    while n < 3_000_000 {
        assert_eq!(format_bytes(n), reference_bytes(n), "n = {n}");
        n += 7;
    }
    // Ties at two decimals: 25 * m / 256 with fractional part one half.
    for m in [1024u64, 1029, 1039, 1049, 2058, 1048571, 1048575] {
        assert_eq!(format_bytes(m), reference_bytes(m), "n = {m}");
    }
    let big = [
        1073741823u64,
        1073741825,
        123_456_789_012,
        (1u64 << 53) + 1,
        (1u64 << 60) + 12345,
        u64::MAX,
        u64::MAX - 1024,
    ];
    for b in big {
        assert_eq!(format_bytes(b), reference_bytes(b), "n = {b}");
    }
    let mut x: u64 = 1;
    while x < u64::MAX / 3 {
        assert_eq!(format_bytes(x), reference_bytes(x), "n = {x}");
        assert_eq!(format_bytes(x - 1), reference_bytes(x - 1), "n = {}", x - 1);
        x = x * 3 + 1;
    }
}

#[test]
fn selection_counter_pads_to_widest() {
    assert_eq!(format_selection_counter(0, 0), "0/0");
    assert_eq!(format_selection_counter(0, 12), "\u{2014}/12".replace('\u{2014}', " \u{2014}"));
    assert_eq!(format_selection_counter(3, 12), " 3/12");
    assert_eq!(format_selection_counter(12, 3), "12/ 3");
    assert_eq!(format_selection_counter(5, 5), "5/5");
    assert_eq!(format_selection_counter(0, 5), "\u{2014}/5");
}

#[test]
fn digit_width_counts_decimal_digits() {
    assert_eq!(usize_digit_width(0), 1);
    assert_eq!(usize_digit_width(9), 1);
    assert_eq!(usize_digit_width(10), 2);
    assert_eq!(usize_digit_width(999), 3);
    assert_eq!(usize_digit_width(1000), 4);
}

#[test]
fn pane_counter_counts_selectable_keys() {
    let rows = vec![
        ("2024-01-01".to_string(), String::new()),
        ("a".to_string(), "a".to_string()),
        ("b".to_string(), "b".to_string()),
        ("2024-01-02".to_string(), String::new()),
        ("c".to_string(), "c".to_string()),
    ];
    assert_eq!(selection_counter_text(&rows, Some("c")), "3/3");
    assert_eq!(selection_counter_text(&rows, Some("a")), "1/3");
    assert_eq!(selection_counter_text(&rows, None), "—/3");
    assert_eq!(selection_counter_text(&rows, Some("zz")), "—/3");
    assert_eq!(selection_counter_text(&vec![], None), "0/0");
    let many: Vec<(String, String)> = (0..12).map(|i| (i.to_string(), format!("k{i}"))).collect();
    assert_eq!(selection_counter_text(&many, Some("k2")), " 3/12");
    assert_eq!(selection_counter_text(&many, Some("k2")), format_selection_counter(3, 12));
    assert_eq!(counter_node_text(&rows, Some("b"), 2), "2/3 · 2 sel");
    assert_eq!(counter_node_text(&rows, Some("b"), 0), "2/3");
}
