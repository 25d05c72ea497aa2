//! Character-level helpers: decimal parsing, ASCII case folding and string
//! building.

use vstd::prelude::*;
use vstd::string::*;

verus! {

pub open spec fn is_digit(c: char) -> bool {
    '0' <= c && c <= '9'
}

pub open spec fn digit_value(c: char) -> nat {
    (c as u32 - '0' as u32) as nat
}

pub open spec fn all_digits(s: Seq<char>) -> bool {
    forall|i: int| 0 <= i < s.len() ==> is_digit(#[trigger] s[i])
}

/// The number that a run of decimal digits denotes, most significant first.
pub open spec fn decimal_value(s: Seq<char>) -> nat
    decreases s.len(),
{
    if s.len() == 0 {
        0
    } else {
        decimal_value(s.drop_last()) * 10 + digit_value(s.last())
    }
}

/// What follows an optional leading `+`.
pub open spec fn unsigned_digits(s: Seq<char>) -> Seq<char> {
    if s.len() > 0 && s[0] == '+' {
        s.drop_first()
    } else {
        s
    }
}

/// The unsigned 64-bit number that a string spells in decimal: an optional
/// `+`, then one or more digits, with a value that fits.
pub open spec fn parse_u64_spec(s: Seq<char>) -> Option<u64> {
    let d = unsigned_digits(s);
    if d.len() > 0 && all_digits(d) && decimal_value(d) <= u64::MAX {
        Some(decimal_value(d) as u64)
    } else {
        None
    }
}

/// A number parsed from text, or zero where the text is no such number.
pub open spec fn count_or_zero(s: Seq<char>) -> u64 {
    match parse_u64_spec(s) {
        Some(v) => v,
        None => 0,
    }
}

proof fn lemma_prefix_value_le(d: Seq<char>, j: int)
    requires
        0 <= j <= d.len(),
        all_digits(d),
    ensures
        decimal_value(d.subrange(0, j)) <= decimal_value(d),
    decreases d.len() - j,
{
    if j < d.len() {
        lemma_prefix_value_le(d, j + 1);
        let p = d.subrange(0, j + 1);
        assert(p.drop_last() =~= d.subrange(0, j));
    } else {
        assert(d.subrange(0, j) =~= d);
    }
}

/// Reads an unsigned decimal number, as `u64::from_str` does.
pub fn parse_u64(s: &str) -> (r: Option<u64>)
    ensures
        r == parse_u64_spec(s@),
{
    let n = s.unicode_len();
    let mut start: usize = 0;
    if n > 0 && s.get_char(0) == '+' {
        start = 1;
    }
    let ghost d = unsigned_digits(s@);
    assert(d =~= s@.subrange(start as int, n as int));
    if start == n {
        return None;
    }
    let mut i: usize = start;
    let mut acc: u64 = 0;
    while i < n
        invariant
            start <= i <= n,
            n == s@.len(),
            start < n,
            d == unsigned_digits(s@),
            d == s@.subrange(start as int, n as int),
            all_digits(d.subrange(0, i - start)),
            acc == decimal_value(d.subrange(0, i - start)),
        decreases n - i,
    {
        let c = s.get_char(i);
        assert(c == d[i - start]);
        if !('0' <= c && c <= '9') {
            assert(!all_digits(d));
            return None;
        }
        let dv = (c as u32 - '0' as u32) as u64;
        let ghost next = d.subrange(0, i - start + 1);
        assert(next.drop_last() =~= d.subrange(0, i - start));
        assert(decimal_value(next) == acc * 10 + dv);
        if acc > (u64::MAX - dv) / 10 {
            assert(acc * 10 + dv > u64::MAX) by (nonlinear_arith)
                requires
                    acc > (u64::MAX - dv) / 10,
                    dv <= 9,
            ;
            proof {
                if all_digits(d) {
                    lemma_prefix_value_le(d, i - start + 1);
                }
            }
            return None;
        }
        acc = acc * 10 + dv;
        i = i + 1;
        assert(all_digits(next));
    }
    assert(d.subrange(0, n - start) =~= d);
    Some(acc)
}

/// A count read from text; text that is no number counts as zero.
pub fn parse_count(s: &str) -> (r: u64)
    ensures
        r == count_or_zero(s@),
{
    match parse_u64(s) {
        Some(v) => v,
        None => 0,
    }
}

/// The code of a character after ASCII lower-casing.
pub open spec fn folded(c: char) -> u32 {
    if 'A' <= c && c <= 'Z' {
        (c as u32 + 32) as u32
    } else {
        c as u32
    }
}

/// Equality of two strings up to the case of ASCII letters.
pub open spec fn same_ignoring_ascii_case(a: Seq<char>, b: Seq<char>) -> bool {
    a.len() == b.len() && forall|i: int| 0 <= i < a.len() ==> folded(#[trigger] a[i]) == folded(b[i])
}

/// Compares two strings up to the case of ASCII letters, as
/// `str::eq_ignore_ascii_case` does.
pub fn eq_ignore_ascii_case(a: &str, b: &str) -> (r: bool)
    ensures
        r == same_ignoring_ascii_case(a@, b@),
{
    let n = a.unicode_len();
    if n != b.unicode_len() {
        return false;
    }
    let mut i: usize = 0;
    while i < n
        invariant
            i <= n,
            n == a@.len(),
            n == b@.len(),
            forall|k: int| 0 <= k < i ==> folded(#[trigger] a@[k]) == folded(b@[k]),
        decreases n - i,
    {
        let x = a.get_char(i);
        let y = b.get_char(i);
        let fx: u32 = if 'A' <= x && x <= 'Z' { x as u32 + 32 } else { x as u32 };
        let fy: u32 = if 'A' <= y && y <= 'Z' { y as u32 + 32 } else { y as u32 };
        if fx != fy {
            return false;
        }
        i = i + 1;
    }
    true
}

/// The decimal digit character for a value below ten.
pub open spec fn digit_char(d: nat) -> char {
    if d == 0 {
        '0'
    } else if d == 1 {
        '1'
    } else if d == 2 {
        '2'
    } else if d == 3 {
        '3'
    } else if d == 4 {
        '4'
    } else if d == 5 {
        '5'
    } else if d == 6 {
        '6'
    } else if d == 7 {
        '7'
    } else if d == 8 {
        '8'
    } else {
        '9'
    }
}

/// The decimal spelling of a number, without leading zeros.
pub open spec fn decimal_text(n: nat) -> Seq<char>
    decreases n,
{
    if n < 10 {
        seq![digit_char(n)]
    } else {
        decimal_text(n / 10) + seq![digit_char(n % 10)]
    }
}

fn digit_text(d: u64) -> (r: &'static str)
    requires
        d < 10,
    ensures
        r@ == seq![digit_char(d as nat)],
{
    proof {
        reveal_strlit("0");
        reveal_strlit("1");
        reveal_strlit("2");
        reveal_strlit("3");
        reveal_strlit("4");
        reveal_strlit("5");
        reveal_strlit("6");
        reveal_strlit("7");
        reveal_strlit("8");
        reveal_strlit("9");
    }
    let r = if d == 0 {
        "0"
    } else if d == 1 {
        "1"
    } else if d == 2 {
        "2"
    } else if d == 3 {
        "3"
    } else if d == 4 {
        "4"
    } else if d == 5 {
        "5"
    } else if d == 6 {
        "6"
    } else if d == 7 {
        "7"
    } else if d == 8 {
        "8"
    } else {
        "9"
    };
    assert(r@ =~= seq![digit_char(d as nat)]);
    r
}

/// Spells a number in decimal.
pub fn decimal_string(n: u64) -> (r: String)
    ensures
        r@ == decimal_text(n as nat),
    decreases n,
{
    if n < 10 {
        String::from_str(digit_text(n))
    } else {
        let mut r = decimal_string(n / 10);
        r.append(digit_text(n % 10));
        r
    }
}

/// `k` is the position of the first `.`, or the length where there is none.
pub open spec fn dot_at(s: Seq<char>, k: int) -> bool {
    &&& 0 <= k <= s.len()
    &&& k < s.len() ==> s[k] == '.'
    &&& forall|j: int| 0 <= j < k ==> s[j] != '.'
}

/// Hundredths that the first two digits after the point stand for.
pub open spec fn hundredths(f: Seq<char>) -> nat {
    (if f.len() > 0 {
        digit_value(f[0]) * 10
    } else {
        0
    }) + (if f.len() > 1 {
        digit_value(f[1])
    } else {
        0
    })
}

/// The whole percentage, rounded down, that a decimal fraction such as
/// `0.5` or `1.234` stands for: a whole part as `parse_u64_spec` reads it,
/// then optionally a point and digits.
pub open spec fn percent_of(s: Seq<char>) -> Option<u64> {
    let k = choose|k: int| dot_at(s, k);
    let frac = if k < s.len() {
        s.subrange(k + 1, s.len() as int)
    } else {
        Seq::empty()
    };
    match parse_u64_spec(s.subrange(0, k)) {
        Some(w) => if all_digits(frac) && w * 100 + hundredths(frac) <= u64::MAX {
            Some((w * 100 + hundredths(frac)) as u64)
        } else {
            None
        },
        None => None,
    }
}

/// A fraction as a percentage text such as `50 %`; `0 %` where the text is
/// no decimal fraction.
pub open spec fn percent_text(s: Seq<char>) -> Seq<char> {
    match percent_of(s) {
        Some(p) => decimal_text(p as nat) + " %"@,
        None => "0 %"@,
    }
}

/// Reads a decimal fraction as a whole percentage, rounded down.
pub fn fraction_percent(s: &str) -> (r: Option<u64>)
    ensures
        r == percent_of(s@),
{
    let n = s.unicode_len();
    let mut k: usize = 0;
    while k < n
        invariant
            k <= n,
            n == s@.len(),
            forall|j: int| 0 <= j < k ==> s@[j] != '.',
        ensures
            k <= n,
            forall|j: int| 0 <= j < k ==> s@[j] != '.',
            k < n ==> s@[k as int] == '.',
        decreases n - k,
    {
        if s.get_char(k) == '.' {
            break;
        }
        k = k + 1;
    }
    proof {
        assert(dot_at(s@, k as int));
        let c = choose|c: int| dot_at(s@, c);
        if c < k {
            assert(s@[c] != '.');
        } else if k < c {
            assert(s@[k as int] != '.');
        }
    }
    let ghost frac = if k < n {
        s@.subrange(k + 1, n as int)
    } else {
        Seq::<char>::empty()
    };
    let whole = match parse_u64(s.substring_char(0, k)) {
        Some(w) => w,
        None => return None,
    };
    let mut hund: u64 = 0;
    if k < n {
        let mut i: usize = k + 1;
        while i < n
            invariant
                k < n,
                k + 1 <= i <= n,
                n == s@.len(),
                frac == s@.subrange(k + 1, n as int),
                (choose|c: int| dot_at(s@, c)) == k,
                parse_u64_spec(s@.subrange(0, k as int)) == Some(whole),
                forall|j: int| k + 1 <= j < i ==> is_digit(#[trigger] s@[j]),
                hund == hundredths(s@.subrange(k + 1, i as int)),
            decreases n - i,
        {
            let c = s.get_char(i);
            if !('0' <= c && c <= '9') {
                assert(frac[i - k - 1] == c);
                return None;
            }
            let dv = (c as u32 - '0' as u32) as u64;
            if i == k + 1 {
                hund = dv * 10;
            } else if i == k + 2 {
                hund = hund + dv;
            }
            let ghost p = s@.subrange(k + 1, i + 1);
            assert(p[i - k - 1] == c);
            assert(i > k + 1 ==> p[0] == s@.subrange(k + 1, i as int)[0]);
            assert(i > k + 2 ==> p[1] == s@.subrange(k + 1, i as int)[1]);
            i = i + 1;
        }
        assert(forall|j: int| 0 <= j < frac.len() ==> frac[j] == s@[k + 1 + j]);
    }
    if whole > (u64::MAX - hund) / 100 {
        assert(whole * 100 + hund > u64::MAX) by (nonlinear_arith)
            requires
                whole > (u64::MAX - hund) / 100,
                hund <= 99,
        ;
        return None;
    }
    assert(whole * 100 + hund <= u64::MAX) by (nonlinear_arith)
        requires
            whole <= (u64::MAX - hund) / 100,
            hund <= 99,
    ;
    Some(whole * 100 + hund)
}

/// Spells a decimal fraction as a percentage, such as `50 %` for `0.5`;
/// `0 %` where the text is no decimal fraction.
pub fn percent_string(s: &str) -> (r: String)
    ensures
        r@ == percent_text(s@),
{
    match fraction_percent(s) {
        Some(p) => {
            let digits = decimal_string(p);
            join(digits.as_str(), " %")
        },
        None => String::from_str("0 %"),
    }
}

/// Joins two strings.
pub fn join(a: &str, b: &str) -> (r: String)
    ensures
        r@ == a@ + b@,
{
    let mut r = String::from_str(a);
    r.append(b);
    r
}

/// Joins three strings.
pub fn join3(a: &str, b: &str, c: &str) -> (r: String)
    ensures
        r@ == a@ + b@ + c@,
{
    let mut r = String::from_str(a);
    r.append(b);
    r.append(c);
    r
}

} // verus!
