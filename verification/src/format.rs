//! Display helpers: byte sizes, selection counters, HTML escaping.

use vstd::prelude::*;

use crate::text::{
    append_chars, decimal_chars, decimal_spec, digit, digit_char, lemma_decimal_len, string_of,
};

verus! {

// ---------------------------------------------------------------------------
// Byte sizes
// ---------------------------------------------------------------------------

/// `2^e`.
pub open spec fn pow2s(e: nat) -> nat
    decreases e,
{
    if e == 0 {
        1
    } else {
        2 * pow2s((e - 1) as nat)
    }
}

/// `a / b` rounded to the nearest integer, ties to even.
pub open spec fn round_half_even(a: nat, b: nat) -> nat
    recommends
        b > 0,
{
    let q = a / b;
    let r = a % b;
    if 2 * r > b || (2 * r == b && q % 2 == 1) {
        q + 1
    } else {
        q
    }
}

/// Number of low bits dropped when `n` is rounded to a 53-bit significand.
pub open spec fn f64_shift(n: nat) -> nat
    decreases n,
{
    if n < 9007199254740992 {
        0
    } else {
        1 + f64_shift(n / 2)
    }
}

/// The value of `n as f64`: `n` rounded to 53 significant bits, ties to even.
pub open spec fn f64_of(n: nat) -> nat {
    let p = pow2s(f64_shift(n));
    round_half_even(n, p) * p
}

/// `h / 100` with exactly two decimals (`{:.2}` of a value already scaled by 100).
pub open spec fn two_decimals(h: nat) -> Seq<char> {
    decimal_spec(h / 100) + seq!['.', digit_char((h % 100) / 10), digit_char(h % 10)]
}

/// The text of `format_bytes(n)`: `"{n} B"` below 1 KiB, else the 1024-based
/// KB / MB / GB value of `n as f64` with two decimals.
pub open spec fn format_bytes_spec(n: nat) -> Seq<char> {
    let x = f64_of(n);
    if n < 1024 {
        decimal_spec(n) + " B"@
    } else if x < pow2s(20) {
        two_decimals(round_half_even(100 * x, pow2s(10))) + " KB"@
    } else if x < pow2s(30) {
        two_decimals(round_half_even(100 * x, pow2s(20))) + " MB"@
    } else {
        two_decimals(round_half_even(100 * x, pow2s(30))) + " GB"@
    }
}

proof fn lemma_pow2s_values()
    ensures
        pow2s(10) == 1024,
        pow2s(11) == 2048,
        pow2s(20) == 1048576,
        pow2s(30) == 1073741824,
{
    reveal_with_fuel(pow2s, 31);
}

proof fn lemma_pow2s_pos(e: nat)
    ensures
        pow2s(e) >= 1,
    decreases e,
{
    if e > 0 {
        lemma_pow2s_pos((e - 1) as nat);
    }
}

proof fn lemma_shift_bound(n: nat, k: nat)
    requires
        n < 9007199254740992 * pow2s(k),
    ensures
        f64_shift(n) <= k,
    decreases k,
{
    if n >= 9007199254740992 {
        if k == 0 {
            assert(false);
        } else {
            let p = pow2s((k - 1) as nat);
            assert(n < 9007199254740992 * (2 * p));
            assert(n / 2 < 9007199254740992 * p) by (nonlinear_arith)
                requires
                    n < 9007199254740992 * (2 * p),
            ;
            lemma_shift_bound(n / 2, (k - 1) as nat);
        }
    }
}

fn f64_shift_exec(n: u64) -> (e: u64)
    ensures
        e == f64_shift(n as nat),
        e <= 11,
    decreases n,
{
    proof {
        lemma_pow2s_values();
        lemma_shift_bound(n as nat, 11);
    }
    if n < 9007199254740992 {
        0
    } else {
        1 + f64_shift_exec(n / 2)
    }
}

fn pow2_exec(e: u64) -> (p: u64)
    requires
        e <= 11,
    ensures
        p == pow2s(e as nat),
        1 <= p <= 2048,
{
    let mut p: u64 = 1;
    let mut i: u64 = 0;
    while i < e
        invariant
            i <= e <= 11,
            p == pow2s(i as nat),
            1 <= p <= pow2s(i as nat),
            pow2s(i as nat) <= 2048,
        decreases e - i,
    {
        proof {
            lemma_pow2s_values();
            lemma_pow2s_mono((i + 1) as nat, 11);
        }
        p = p * 2;
        i += 1;
    }
    p
}

proof fn lemma_pow2s_mono(a: nat, b: nat)
    requires
        a <= b,
    ensures
        pow2s(a) <= pow2s(b),
    decreases b,
{
    if a < b {
        lemma_pow2s_mono(a, (b - 1) as nat);
    }
}

fn round_half_even_exec(a: u128, b: u128) -> (r: u128)
    requires
        b > 0,
        a <= 0xffff_ffff_ffff_ffff_ffff_ffff_ffff,
        b <= 0xffff_ffff_ffff_ffff_ffff,
    ensures
        r == round_half_even(a as nat, b as nat),
{
    let q = a / b;
    let r = a % b;
    if 2 * r > b || (2 * r == b && q % 2 == 1) {
        q + 1
    } else {
        q
    }
}

/// The exact value of `n as f64`.
pub fn f64_value(n: u64) -> (x: u128)
    ensures
        x == f64_of(n as nat),
        x <= 0x1_0000_0000_0000_0000,
{
    let e = f64_shift_exec(n);
    let p = pow2_exec(e);
    let q = round_half_even_exec(n as u128, p as u128);
    proof {
        lemma_round_bound(n as nat, p as nat);
        lemma_pow2s_values();
        lemma_f64_bound(n as nat, e as nat, p as nat, q as nat);
    }
    q * (p as u128)
}

proof fn lemma_round_bound(a: nat, b: nat)
    requires
        b > 0,
    ensures
        round_half_even(a, b) <= a / b + 1,
        round_half_even(a, b) * b <= a + b,
{
    let q = a / b;
    assert(q * b <= a) by (nonlinear_arith)
        requires
            q == a / b,
            b > 0,
    ;
    assert((q + 1) * b == q * b + b) by (nonlinear_arith);
}

proof fn lemma_f64_bound(n: nat, e: nat, p: nat, q: nat)
    requires
        n < 0x1_0000_0000_0000_0000,
        e == f64_shift(n),
        e <= 11,
        p == pow2s(e),
        1 <= p <= 2048,
        q == round_half_even(n, p),
        q * p <= n + p,
    ensures
        q * p <= 0x1_0000_0000_0000_0000,
{
    // n / p < 2^53 because f64_shift stops once the quotient fits.
    lemma_shift_quotient(n);
    let m = n / p;
    assert(m < 9007199254740992);
    assert(q <= m + 1) by {
        lemma_round_bound(n, p);
    }
    if q * p > 0x1_0000_0000_0000_0000 {
        assert(m * p <= n) by (nonlinear_arith)
            requires
                m == n / p,
                p >= 1,
        ;
        assert(q * p <= (m + 1) * p) by (nonlinear_arith)
            requires
                q <= m + 1,
        ;
        // (m + 1) * p <= 2^53 * p, and p divides 2^64 for e <= 11; the rounded value
        // is a multiple of p that is at most n + p, where n < 2^64 and 2^64 is a multiple of p.
        lemma_pow2s_divides_64(e);
        let k: nat = 0x1_0000_0000_0000_0000nat / p;
        assert(k * p == 0x1_0000_0000_0000_0000nat);
        assert(n < k * p);
        assert(m < k) by (nonlinear_arith)
            requires
                m == n / p,
                n < k * p,
                p >= 1,
        ;
        assert(q <= k);
        assert(q * p <= k * p) by (nonlinear_arith)
            requires
                q <= k,
        ;
    }
}

proof fn lemma_pow2s_add(a: nat, b: nat)
    ensures
        pow2s(a + b) == pow2s(a) * pow2s(b),
    decreases a,
{
    if a > 0 {
        let a1 = (a - 1) as nat;
        lemma_pow2s_add(a1, b);
        assert(a + b == (a1 + b) + 1);
        assert(pow2s(a + b) == 2 * pow2s(a1 + b));
        assert(pow2s(a) == 2 * pow2s(a1));
        let x = pow2s(a1);
        let y = pow2s(b);
        assert(2 * (x * y) == (2 * x) * y) by (nonlinear_arith);
    } else {
        assert(pow2s(0) == 1);
        assert(a + b == b);
    }
}

proof fn lemma_pow2s_divides_64(e: nat)
    requires
        e <= 64,
    ensures
        (0x1_0000_0000_0000_0000nat / pow2s(e)) * pow2s(e) == 0x1_0000_0000_0000_0000nat,
{
    reveal_with_fuel(pow2s, 17);
    let h = pow2s(16);
    assert(h == 0x1_0000);
    lemma_pow2s_add(16, 16);
    assert(h * h == 0x1_0000_0000) by (nonlinear_arith)
        requires
            h == 0x1_0000,
    ;
    let w = pow2s(32);
    lemma_pow2s_add(32, 32);
    assert(w * w == 0x1_0000_0000_0000_0000nat) by (nonlinear_arith)
        requires
            w == 0x1_0000_0000,
    ;
    assert(pow2s(64) == 0x1_0000_0000_0000_0000nat);
    let p = pow2s(e);
    let q = pow2s((64 - e) as nat);
    lemma_pow2s_add(e, (64 - e) as nat);
    lemma_pow2s_pos(e);
    lemma_pow2s_pos((64 - e) as nat);
    assert(q * p == p * q) by (nonlinear_arith);
    vstd::arithmetic::div_mod::lemma_div_by_multiple(q as int, p as int);
}

proof fn lemma_shift_quotient(n: nat)
    ensures
        n / pow2s(f64_shift(n)) < 9007199254740992,
    decreases n,
{
    if n >= 9007199254740992 {
        lemma_shift_quotient(n / 2);
        let e = f64_shift(n / 2);
        lemma_pow2s_pos(e);
        let p = pow2s(e);
        assert(pow2s(f64_shift(n)) == 2 * p);
        assert(n / (2 * p) == (n / 2) / p) by {
            vstd::arithmetic::div_mod::lemma_div_denominator(n as int, 2, p as int);
        }
    }
}

/// `{:.2}` text of `h / 100`.
fn two_decimals_exec(h: u128) -> (r: Vec<char>)
    requires
        h / 100 <= 0xffff_ffff_ffff_ffff,
    ensures
        r@ == two_decimals(h as nat),
{
    let whole = (h / 100) as u64;
    let frac = (h % 100) as u64;
    let mut v = decimal_chars(whole);
    v.push('.');
    v.push(digit(frac / 10));
    v.push(digit(frac % 10));
    assert(v@ =~= two_decimals(h as nat));
    v
}

/// Human-readable size, 1024-based (`"512 B"`, `"1.50 KB"`, `"2.00 MB"`, `"3.25 GB"`).
pub fn format_bytes(n: u64) -> (s: String)
    ensures
        s@ == format_bytes_spec(n as nat),
{
    proof {
        lemma_pow2s_values();
        reveal_strlit(" B");
        reveal_strlit(" KB");
        reveal_strlit(" MB");
        reveal_strlit(" GB");
    }
    let mut v: Vec<char>;
    if n < 1024 {
        v = decimal_chars(n);
        v.push(' ');
        v.push('B');
        assert(v@ =~= format_bytes_spec(n as nat));
        return string_of(&v);
    }
    let x = f64_value(n);
    if x < 1048576 {
        v = two_decimals_exec(round_half_even_exec(100 * x, 1024));
        v.push(' ');
        v.push('K');
        v.push('B');
    } else if x < 1073741824 {
        v = two_decimals_exec(round_half_even_exec(100 * x, 1048576));
        v.push(' ');
        v.push('M');
        v.push('B');
    } else {
        proof {
            lemma_round_bound((100 * x) as nat, 1073741824);
        }
        v = two_decimals_exec(round_half_even_exec(100 * x, 1073741824));
        v.push(' ');
        v.push('G');
        v.push('B');
    }
    assert(v@ =~= format_bytes_spec(n as nat));
    string_of(&v)
}

// ---------------------------------------------------------------------------
// Selection counter
// ---------------------------------------------------------------------------

/// `s` right-aligned in a field of `w` characters (`{:>w$}`).
pub open spec fn pad_left(s: Seq<char>, w: nat) -> Seq<char> {
    if s.len() >= w {
        s
    } else {
        Seq::new((w - s.len()) as nat, |i: int| ' ') + s
    }
}

/// Number of decimal digits of `n` (1 for 0).
pub open spec fn digit_width(n: nat) -> nat {
    decimal_spec(n).len()
}

/// The `current/total` counter text: both fields share the wider digit width;
/// before any selection (`current == 0` with rows present) the current field is `—`.
pub open spec fn selection_counter_spec(current: nat, total: nat) -> Seq<char> {
    let w = if digit_width(current) >= digit_width(total) {
        digit_width(current)
    } else {
        digit_width(total)
    };
    let left = if current == 0 && total > 0 {
        pad_left(seq!['\u{2014}'], w)
    } else {
        pad_left(decimal_spec(current), w)
    };
    left + seq!['/'] + pad_left(decimal_spec(total), w)
}

/// Number of decimal digits of `n` (`ilog10 + 1`, and 1 for 0).
pub fn usize_digit_width(n: usize) -> (w: usize)
    ensures
        w == digit_width(n as nat),
        1 <= w <= 20,
{
    let d = decimal_chars(n as u64);
    proof {
        lemma_decimal_len(n as nat);
        lemma_decimal_len_bound(n as nat);
    }
    d.len()
}

proof fn lemma_decimal_len_bound(n: nat)
    requires
        n < 0x1_0000_0000_0000_0000,
    ensures
        decimal_spec(n).len() <= 20,
{
    assert(pow10(20) == 100000000000000000000nat) by {
        reveal_with_fuel(pow10, 21);
    }
    lemma_decimal_len_lt(n, 20);
}

proof fn lemma_decimal_len_lt(n: nat, k: nat)
    requires
        k >= 1,
        n < pow10(k),
    ensures
        decimal_spec(n).len() <= k,
    decreases k,
{
    if n >= 10 {
        assert(k >= 2) by {
            if k == 1 {
                assert(pow10(1) == 10) by {
                    reveal_with_fuel(pow10, 2);
                }
            }
        }
        assert(n / 10 < pow10((k - 1) as nat)) by {
            assert(pow10(k) == 10 * pow10((k - 1) as nat));
        }
        lemma_decimal_len_lt(n / 10, (k - 1) as nat);
    }
}

pub open spec fn pow10(k: nat) -> nat
    decreases k,
{
    if k == 0 {
        1
    } else {
        10 * pow10((k - 1) as nat)
    }
}

fn pad_left_exec(s: &Vec<char>, w: usize) -> (r: Vec<char>)
    ensures
        r@ == pad_left(s@, w as nat),
{
    let mut r: Vec<char> = Vec::new();
    if s.len() < w {
        let mut i: usize = 0;
        while i < w - s.len()
            invariant
                s@.len() < w,
                i <= w - s@.len(),
                r@ == Seq::new(i as nat, |j: int| ' '),
            decreases w - s@.len() - i,
        {
            r.push(' ');
            i += 1;
            assert(r@ =~= Seq::new(i as nat, |j: int| ' '));
        }
    }
    append_chars(&mut r, s);
    assert(s@.len() >= w ==> r@ =~= s@);
    r
}

/// `current/total` for the middle-pane footer; both fields share a width so the
/// node does not jump when crossing 9→10 or 99→100.
pub fn format_selection_counter(current: usize, total: usize) -> (s: String)
    ensures
        s@ == selection_counter_spec(current as nat, total as nat),
{
    let wc = usize_digit_width(current);
    let wt = usize_digit_width(total);
    let w = if wc >= wt {
        wc
    } else {
        wt
    };
    let mut left: Vec<char>;
    if current == 0 && total > 0 {
        let mut dash: Vec<char> = Vec::new();
        dash.push('\u{2014}');
        assert(dash@ =~= seq!['\u{2014}']);
        left = pad_left_exec(&dash, w);
    } else {
        let d = decimal_chars(current as u64);
        left = pad_left_exec(&d, w);
    }
    left.push('/');
    let t = decimal_chars(total as u64);
    let right = pad_left_exec(&t, w);
    append_chars(&mut left, &right);
    assert(left@ =~= selection_counter_spec(current as nat, total as nat));
    string_of(&left)
}

} // verus!

verus! {

/// The selectable keys of a contents pane, in order: rows with an empty key
/// are timestamp headers and are skipped.
pub open spec fn selectable_keys(rows: Seq<(String, String)>) -> Seq<Seq<char>> {
    rows.map_values(|r: (String, String)| r.1@).filter(|k: Seq<char>| k.len() > 0)
}

/// The 1-based position of the selected key among the selectable keys, or 0
/// when nothing is selected or the selection is not listed.
pub open spec fn counter_position(rows: Seq<(String, String)>, selected: Option<Seq<char>>) -> nat {
    match selected {
        Some(s) => match crate::nav::position_spec(selectable_keys(rows), s) {
            Some(i) => (i + 1) as nat,
            None => 0,
        },
        None => 0,
    }
}

proof fn lemma_selectable_step(rows: Seq<(String, String)>, i: int)
    requires
        0 <= i < rows.len(),
    ensures
        selectable_keys(rows.take(i + 1)) == (if rows[i].1@.len() > 0 {
            selectable_keys(rows.take(i)).push(rows[i].1@)
        } else {
            selectable_keys(rows.take(i))
        }),
{
    let f = |r: (String, String)| r.1@;
    assert(rows.take(i + 1).map_values(f).drop_last() =~= rows.take(i).map_values(f));
    assert(rows.take(i + 1).map_values(f).last() == rows[i].1@);
    reveal_with_fuel(Seq::<_>::filter, 1);
}

/// The contents pane's position counter: the selected key's place among the
/// selectable keys over their count (see [`format_selection_counter`]).
pub fn selection_counter_text(rows: &Vec<(String, String)>, selected: Option<&str>) -> (s: String)
    ensures
        s@ == selection_counter_spec(
            counter_position(
                rows@,
                match selected {
                    Some(x) => Some(x@),
                    None => None,
                },
            ),
            selectable_keys(rows@).len(),
        ),
{
    let ghost sel: Option<Seq<char>> = match selected {
        Some(x) => Some(x@),
        None => None,
    };
    let mut total: usize = 0;
    let mut pos: Option<usize> = None;
    let mut i: usize = 0;
    while i < rows.len()
        invariant
            i <= rows@.len(),
            sel == (match selected {
                Some(x) => Some(x@),
                None => None::<Seq<char>>,
            }),
            total == selectable_keys(rows@.take(i as int)).len(),
            total <= i,
            match pos {
                Some(j) => sel is Some && j < total && selectable_keys(rows@.take(i as int))[j as int] == sel->0
                    && forall|k: int| 0 <= k < j ==> selectable_keys(rows@.take(i as int))[k] != sel->0,
                None => sel is Some ==> forall|k: int|
                    0 <= k < total ==> selectable_keys(rows@.take(i as int))[k] != sel->0,
            },
        decreases rows@.len() - i,
    {
        proof {
            lemma_selectable_step(rows@, i as int);
        }
        let key = &rows[i].1;
        if !key.as_str().is_empty() {
            if pos.is_none() {
                match selected {
                    Some(x) => {
                        if crate::text::str_eq(key.as_str(), x) {
                            pos = Some(total);
                        }
                    },
                    None => {},
                }
            }
            total = total + 1;
        }
        i += 1;
    }
    proof {
        assert(rows@.take(rows@.len() as int) =~= rows@);
        if let Some(x) = sel {
            match pos {
                Some(j) => crate::nav::lemma_position_found(selectable_keys(rows@), x, j as int),
                None => crate::nav::lemma_position_absent(selectable_keys(rows@), x),
            }
        }
    }
    let current: usize = match pos {
        Some(j) => j + 1,
        None => 0,
    };
    format_selection_counter(current, total)
}

/// The counter node's text: the position counter, then ` · N sel` while `N`
/// rows are checked.
pub fn counter_node_text(rows: &Vec<(String, String)>, selected: Option<&str>, checked: usize) -> (s: String)
    ensures
        s@ == selection_counter_spec(
            counter_position(
                rows@,
                match selected {
                    Some(x) => Some(x@),
                    None => None,
                },
            ),
            selectable_keys(rows@).len(),
        ) + (if checked > 0 { " · "@ + decimal_spec(checked as nat) + " sel"@ } else { Seq::empty() }),
{
    let mut s = selection_counter_text(rows, selected);
    if checked > 0 {
        crate::text::push_all(&mut s, " · ");
        let n = crate::text::decimal_string(checked as u64);
        crate::text::push_all(&mut s, n.as_str());
        crate::text::push_all(&mut s, " sel");
    }
    s
}

} // verus!
