//! Small string routines with exact contracts: equality, infix search,
//! repeated prefix removal and unsigned decimal parsing.
use vstd::prelude::*;
use vstd::string::{StrSliceExecFns, StringExecFns};

verus! {

/// `p` occurs somewhere in `s`.
pub open spec fn has_infix(s: Seq<char>, p: Seq<char>) -> bool {
    exists|i: int| 0 <= i && i + p.len() <= s.len() && #[trigger] s.subrange(i, i + p.len()) == p
}

/// `s` with every leading copy of a non-empty `p` removed.
pub open spec fn trim_prefixes(s: Seq<char>, p: Seq<char>) -> Seq<char>
    decreases s.len(),
{
    if 0 < p.len() <= s.len() && s.take(p.len() as int) == p {
        trim_prefixes(s.skip(p.len() as int), p)
    } else {
        s
    }
}

pub open spec fn is_digit(c: char) -> bool {
    '0' <= c && c <= '9'
}

pub open spec fn digit_value(c: char) -> nat {
    ((c as u32) - 48) as nat
}

/// Value of a sequence of decimal digits.
pub open spec fn digits_value(d: Seq<char>) -> nat
    decreases d.len(),
{
    if d.len() == 0 {
        0
    } else {
        digits_value(d.drop_last()) * 10 + digit_value(d.last())
    }
}

/// What parsing `s` as a `u16` gives: an optional `+`, then one or more
/// decimal digits whose value fits.
pub open spec fn parse_u16(s: Seq<char>) -> Option<u16> {
    let d = unsigned_digits(s);
    if d.len() > 0 && all_digits(d) && digits_value(d) <= u16::MAX {
        Some(digits_value(d) as u16)
    } else {
        None
    }
}

/// `s` without one leading `+`.
pub open spec fn unsigned_digits(s: Seq<char>) -> Seq<char> {
    if s.len() > 0 && s[0] == '+' {
        s.skip(1)
    } else {
        s
    }
}

pub open spec fn all_digits(d: Seq<char>) -> bool {
    forall|i: int| 0 <= i < d.len() ==> is_digit(#[trigger] d[i])
}

/// Whether the two strings hold the same characters.
pub fn str_eq(a: &str, b: &str) -> (r: bool)
    ensures
        r == (a@ == b@),
{
    let n = a.unicode_len();
    if n != b.unicode_len() {
        return false;
    }
    let mut i: usize = 0;
    while i < n
        invariant
            n == a@.len(),
            n == b@.len(),
            i <= n,
            forall|j: int| 0 <= j < i ==> a@[j] == b@[j],
        decreases n - i,
    {
        if a.get_char(i) != b.get_char(i) {
            return false;
        }
        i = i + 1;
    }
    assert(a@ =~= b@);
    true
}

/// Whether `p` occurs in `s`.
pub fn contains(s: &str, p: &str) -> (r: bool)
    ensures
        r == has_infix(s@, p@),
{
    let n = s.unicode_len();
    let m = p.unicode_len();
    if m > n {
        return false;
    }
    let mut i: usize = 0;
    loop
        invariant
            n == s@.len(),
            m == p@.len(),
            m <= n,
            i <= n - m,
            forall|k: int| 0 <= k < i ==> #[trigger] s@.subrange(k, k + m) != p@,
        decreases n - m - i,
    {
        if str_eq(s.substring_char(i, i + m), p) {
            return true;
        }
        if i == n - m {
            return false;
        }
        i = i + 1;
    }
}

/// `s` with every leading copy of `p` removed.
pub fn trim_start_matches<'a>(s: &'a str, p: &str) -> (r: &'a str)
    requires
        p@.len() > 0,
    ensures
        r@ == trim_prefixes(s@, p@),
{
    let m = p.unicode_len();
    let mut t: &'a str = s;
    loop
        invariant
            m == p@.len(),
            m > 0,
            trim_prefixes(t@, p@) == trim_prefixes(s@, p@),
        decreases t@.len(),
    {
        let n = t.unicode_len();
        if m > n {
            return t;
        }
        if !str_eq(t.substring_char(0, m), p) {
            assert(t@.subrange(0, m as int) == t@.take(m as int));
            return t;
        }
        assert(t@.subrange(0, m as int) == t@.take(m as int));
        let rest = t.substring_char(m, n);
        assert(rest@ == t@.skip(m as int));
        t = rest;
    }
}

/// `s` read as a `u16`: an optional `+`, then decimal digits whose value fits.
pub fn parse_u16_str(s: &str) -> (r: Option<u16>)
    ensures
        r == parse_u16(s@),
{
    let n = s.unicode_len();
    let mut start: usize = 0;
    if n > 0 && s.get_char(0) == '+' {
        start = 1;
    }
    let ghost d = unsigned_digits(s@);
    assert(d == s@.subrange(start as int, n as int));
    if start == n {
        assert(d.len() == 0);
        return None;
    }
    let mut v: u32 = 0;
    let mut i: usize = start;
    while i < n
        invariant
            n == s@.len(),
            start <= i <= n,
            d == s@.subrange(start as int, n as int),
            d == unsigned_digits(s@),
            forall|j: int| start <= j < i ==> is_digit(#[trigger] s@[j]),
            v as nat == if digits_value(s@.subrange(start as int, i as int)) > 65536 {
                65536
            } else {
                digits_value(s@.subrange(start as int, i as int))
            },
        decreases n - i,
    {
        let c = s.get_char(i);
        if !('0' <= c && c <= '9') {
            assert(d[i - start] == c);
            assert(!is_digit(d[i - start]));
            return None;
        }
        let dv: u32 = (c as u32) - 48;
        let nv: u32 = v * 10 + dv;
        v = if nv > 65536 {
            65536
        } else {
            nv
        };
        proof {
            let pre = s@.subrange(start as int, i as int);
            let ext = s@.subrange(start as int, i + 1);
            assert(ext.drop_last() =~= pre);
            assert(ext.last() == c);
        }
        i = i + 1;
    }
    assert(s@.subrange(start as int, n as int) =~= d);
    if v > 65535 {
        None
    } else {
        Some(v as u16)
    }
}

/// Appends the digit `d` to `s`.
pub fn push_digit(s: &mut String, d: u8)
    requires
        d < 10,
    ensures
        final(s)@ == old(s)@.push(seq!['0', '1', '2', '3', '4', '5', '6', '7', '8', '9'][d as int]),
{
    let t: &str = match d {
        0 => "0",
        1 => "1",
        2 => "2",
        3 => "3",
        4 => "4",
        5 => "5",
        6 => "6",
        7 => "7",
        8 => "8",
        _ => "9",
    };
    proof {
        reveal_strlit("0");
        reveal_strlit("1");
        reveal_strlit("2");
        reveal_strlit("3");
        reveal_strlit("4");
        reveal_strlit("5");
        reveal_strlit("6");
        reveal_strlit("7");
        reveal_strlit("8");
        reveal_strlit("9");
    }
    s.append(t);
    assert(s@ =~= old(s)@.push(seq!['0', '1', '2', '3', '4', '5', '6', '7', '8', '9'][d as int]));
}

/// Decimal digits of `n`, most significant first.
pub open spec fn decimal_text(n: nat) -> Seq<char>
    decreases n,
{
    let d = seq!['0', '1', '2', '3', '4', '5', '6', '7', '8', '9'][(n % 10) as int];
    if n < 10 {
        seq![d]
    } else {
        decimal_text(n / 10).push(d)
    }
}

/// The characters of decimal digit values.
pub open spec fn digit_chars(ds: Seq<u8>) -> Seq<char> {
    Seq::new(ds.len(), |i: int| seq!['0', '1', '2', '3', '4', '5', '6', '7', '8', '9'][ds[i] as int])
}

/// `s` left-padded with `'0'` to at least `w` characters.
pub open spec fn zero_pad(s: Seq<char>, w: nat) -> Seq<char> {
    if s.len() < w {
        Seq::new((w - s.len()) as nat, |_i: int| '0') + s
    } else {
        s
    }
}

/// `v` in decimal, left-padded with zeros to `width` characters.
pub fn decimal_string(v: u32, width: usize) -> (r: String)
    ensures
        r@ == zero_pad(decimal_text(v as nat), width as nat),
{
    let mut out: Vec<u8> = Vec::new();
    let mut m: u32 = v;
    assert(decimal_text(v as nat) =~= decimal_text(m as nat) + digit_chars(out@));
    while m >= 10
        invariant
            decimal_text(v as nat) == decimal_text(m as nat) + digit_chars(out@),
            forall|i: int| 0 <= i < out@.len() ==> out@[i] < 10,
        decreases m,
    {
        let d: u8 = (m % 10) as u8;
        let ghost before = out@;
        out.insert(0, d);
        proof {
            let a = decimal_text((m / 10) as nat);
            let c = seq!['0', '1', '2', '3', '4', '5', '6', '7', '8', '9'][d as int];
            assert(decimal_text(m as nat) == a.push(c));
            assert(digit_chars(out@) =~= seq![c] + digit_chars(before));
            assert(a.push(c) + digit_chars(before) =~= a + digit_chars(out@));
        }
        m = m / 10;
    }
    let ghost before = out@;
    out.insert(0, m as u8);
    proof {
        let c = seq!['0', '1', '2', '3', '4', '5', '6', '7', '8', '9'][m as int];
        assert(decimal_text(m as nat) =~= seq![c]);
        assert(digit_chars(out@) =~= seq![c] + digit_chars(before));
    }
    assert(decimal_text(v as nat) =~= digit_chars(out@));
    let mut s = String::new();
    let n = out.len();
    let mut k: usize = n;
    while k < width
        invariant
            n == out@.len(),
            n <= k,
            k <= width || k == n,
            s@ == Seq::new((k - n) as nat, |_i: int| '0'),
        decreases width - k,
    {
        push_digit(&mut s, 0);
        k = k + 1;
        assert(s@ =~= Seq::new((k - n) as nat, |_i: int| '0'));
    }
    let ghost pad = s@;
    assert(pad + digit_chars(out@) == zero_pad(decimal_text(v as nat), width as nat));
    let mut i: usize = 0;
    while i < n
        invariant
            n == out@.len(),
            i <= n,
            forall|j: int| 0 <= j < out@.len() ==> out@[j] < 10,
            s@ == pad + digit_chars(out@.take(i as int)),
        decreases n - i,
    {
        push_digit(&mut s, out[i]);
        i = i + 1;
        assert(s@ =~= pad + digit_chars(out@.take(i as int)));
    }
    assert(out@.take(n as int) =~= out@);
    s
}

} // verus!
