//! Reading and writing the small text formats of the library: decimal numbers
//! with zero padding, the integer and floating-point literals that Rust's
//! `str::parse` accepts, splitting on a separator and trimming whitespace.
use vstd::prelude::*;

use crate::ascii::{
    ascii_is_digit, ascii_lower, digit_char, digit_of, digit_to_char, digit_value, is_digit, is_white,
    is_whitespace, to_lower,
};

verus! {

// ---------------------------------------------------------------------------
// Strings as character vectors
// ---------------------------------------------------------------------------

/// Appends one character by calling std's `String::push`; the contract
/// claims what its documentation says: the character is added at the end and
/// the rest of the text is unchanged.
#[verifier::external_body]
pub(crate) fn push_char(s: &mut String, c: char)
    ensures
        final(s)@ == old(s)@.push(c),
{
    s.push(c);
}

/// The characters of `s`, in order.
pub fn chars_of(s: &str) -> (r: Vec<char>)
    ensures
        r@ == s@,
{
    let mut out: Vec<char> = Vec::new();
    let n = s.unicode_len();
    let mut i: usize = 0;
    while i < n
        invariant
            n == s@.len(),
            i <= n,
            out@ == s@.take(i as int),
        decreases n - i,
    {
        let c = s.get_char(i);
        out.push(c);
        i += 1;
        assert(out@ =~= s@.take(i as int));
    }
    assert(s@.take(n as int) =~= s@);
    out
}

/// A string holding `cs[lo..hi]`.
pub fn string_of(cs: &Vec<char>, lo: usize, hi: usize) -> (r: String)
    requires
        lo <= hi <= cs@.len(),
    ensures
        r@ == cs@.subrange(lo as int, hi as int),
{
    let mut out = String::new();
    let mut i = lo;
    while i < hi
        invariant
            lo <= i <= hi <= cs@.len(),
            out@ == cs@.subrange(lo as int, i as int),
        decreases hi - i,
    {
        push_char(&mut out, cs[i]);
        i += 1;
        assert(out@ =~= cs@.subrange(lo as int, i as int));
    }
    out
}

/// Appends the characters of `t`.
pub fn push_str(s: &mut String, t: &str)
    ensures
        final(s)@ == old(s)@ + t@,
{
    let cs = chars_of(t);
    let mut i: usize = 0;
    while i < cs.len()
        invariant
            cs@ == t@,
            i <= cs@.len(),
            s@ == old(s)@ + t@.take(i as int),
        decreases cs@.len() - i,
    {
        push_char(s, cs[i]);
        i += 1;
        assert(s@ =~= old(s)@ + t@.take(i as int));
    }
    assert(t@.take(cs@.len() as int) =~= t@);
}

/// Whether two strings hold the same characters.
pub fn same_text(a: &str, b: &str) -> (r: bool)
    ensures
        r == (a@ == b@),
{
    let x = chars_of(a);
    let y = chars_of(b);
    if x.len() != y.len() {
        return false;
    }
    let mut i: usize = 0;
    while i < x.len()
        invariant
            x@ == a@,
            y@ == b@,
            x@.len() == y@.len(),
            i <= x@.len(),
            forall|j: int| 0 <= j < i ==> x@[j] == y@[j],
        decreases x@.len() - i,
    {
        if x[i] != y[i] {
            return false;
        }
        i += 1;
    }
    assert(x@ =~= y@);
    true
}

// ---------------------------------------------------------------------------
// Decimal digits
// ---------------------------------------------------------------------------

pub open spec fn all_digits(s: Seq<char>) -> bool {
    forall|i: int| 0 <= i < s.len() ==> is_digit(#[trigger] s[i])
}

/// The value of a sequence of decimal digits (0 for the empty sequence).
pub open spec fn dec_value(s: Seq<char>) -> nat
    decreases s.len(),
{
    if s.len() == 0 {
        0
    } else {
        dec_value(s.drop_last()) * 10 + digit_value(s.last())
    }
}

/// The decimal digits of `n`, without leading zeros (`0` is written `"0"`).
pub open spec fn digits_of(n: nat) -> Seq<char>
    decreases n,
{
    if n < 10 {
        seq![digit_char(n)]
    } else {
        digits_of(n / 10).push(digit_char(n % 10))
    }
}

pub open spec fn zeros(k: nat) -> Seq<char> {
    Seq::new(k, |i: int| '0')
}

/// `n` written with at least `width` digits, padded with leading zeros
/// (what `format!("{:0width$}", n)` writes for a non-negative `n`).
pub open spec fn padded(n: nat, width: nat) -> Seq<char> {
    let d = digits_of(n);
    if d.len() >= width {
        d
    } else {
        zeros((width - d.len()) as nat) + d
    }
}

pub proof fn lemma_digits_of(n: nat)
    ensures
        all_digits(digits_of(n)),
        dec_value(digits_of(n)) == n,
        digits_of(n).len() >= 1,
        n < 10 ==> digits_of(n).len() == 1,
        10 <= n < 100 ==> digits_of(n).len() == 2,
        100 <= n < 1000 ==> digits_of(n).len() == 3,
        1000 <= n < 10000 ==> digits_of(n).len() == 4,
    decreases n,
{
    lemma_digit_char(n % 10);
    if n >= 10 {
        lemma_digits_of(n / 10);
        let d = digits_of(n);
        assert(d.drop_last() =~= digits_of(n / 10));
        assert(d.last() == digit_char(n % 10));
        assert(dec_value(d) == dec_value(d.drop_last()) * 10 + digit_value(d.last()));
        assert(dec_value(d) == (n / 10) * 10 + n % 10);
    } else {
        lemma_digit_char(n);
        let d = digits_of(n);
        assert(d == seq![digit_char(n)]);
        assert(d.drop_last() =~= Seq::<char>::empty());
        assert(dec_value(d.drop_last()) == 0);
        assert(dec_value(d) == dec_value(d.drop_last()) * 10 + digit_value(d.last()));
    }
}

pub proof fn lemma_digit_char(d: nat)
    requires
        d < 10,
    ensures
        is_digit(digit_char(d)),
        digit_value(digit_char(d)) == d,
{
    assert(((d as u32) + ('0' as u32)) as char as u32 == (d as u32) + ('0' as u32));
}

pub proof fn lemma_zeros_prefix(k: nat, s: Seq<char>)
    ensures
        dec_value(zeros(k) + s) == dec_value(s),
        all_digits(s) ==> all_digits(zeros(k) + s),
    decreases s.len(),
{
    if s.len() == 0 {
        lemma_zeros_value(k);
        assert(zeros(k) + s =~= zeros(k));
    } else {
        lemma_zeros_prefix(k, s.drop_last());
        assert((zeros(k) + s).drop_last() =~= zeros(k) + s.drop_last());
    }
}

pub proof fn lemma_zeros_value(k: nat)
    ensures
        dec_value(zeros(k)) == 0,
        all_digits(zeros(k)),
    decreases k,
{
    if k > 0 {
        lemma_zeros_value((k - 1) as nat);
        assert(zeros(k).drop_last() =~= zeros((k - 1) as nat));
    }
}

pub proof fn lemma_padded(n: nat, width: nat)
    ensures
        all_digits(padded(n, width)),
        dec_value(padded(n, width)) == n,
        n < 10 && width == 2 ==> padded(n, width).len() == 2,
        10 <= n < 100 && width == 2 ==> padded(n, width).len() == 2,
        1 <= n < 10000 && width == 4 ==> padded(n, width).len() == 4,
        n < 256 && width == 2 ==> padded(n, width).len() <= 3,
{
    lemma_digits_of(n);
    let d = digits_of(n);
    if d.len() < width {
        lemma_zeros_prefix((width - d.len()) as nat, d);
    }
}

/// The value of `s` grows as digits are appended.
pub proof fn lemma_dec_value_prefix(s: Seq<char>, k: int)
    requires
        0 <= k <= s.len(),
    ensures
        dec_value(s.take(k)) <= dec_value(s),
    decreases s.len(),
{
    if k < s.len() {
        assert(s.drop_last().take(k) =~= s.take(k));
        lemma_dec_value_prefix(s.drop_last(), k);
    } else {
        assert(s.take(k) =~= s);
    }
}

pub open spec fn pow10(k: nat) -> nat
    decreases k,
{
    if k == 0 {
        1
    } else {
        10 * pow10((k - 1) as nat)
    }
}

pub proof fn lemma_digits_len_bound(n: nat, k: nat)
    requires
        k >= 1,
        n < pow10(k),
    ensures
        digits_of(n).len() <= k,
    decreases n,
{
    if n >= 10 {
        if k < 2 {
            assert(pow10(1) == 10 * pow10(0));
        } else {
            assert(pow10(k) == 10 * pow10((k - 1) as nat));
            lemma_digits_len_bound(n / 10, (k - 1) as nat);
        }
    }
}

/// The number of decimal digits of `n`.
pub fn digit_count(n: u32) -> (r: usize)
    ensures
        r == digits_of(n as nat).len(),
        1 <= r <= 10,
    decreases n,
{
    proof {
        reveal_with_fuel(pow10, 11);
        assert(pow10(10) == 10_000_000_000);
        lemma_digits_len_bound(n as nat, 10);
    }
    if n < 10 {
        1
    } else {
        let k = digit_count(n / 10);
        k + 1
    }
}

/// Appends the decimal digits of `n`.
pub fn push_digits(s: &mut String, n: u32)
    ensures
        final(s)@ == old(s)@ + digits_of(n as nat),
    decreases n,
{
    if n < 10 {
        let c = digit_to_char(n as u8);
        push_char(s, c);
        assert(final(s)@ =~= old(s)@ + digits_of(n as nat));
    } else {
        push_digits(s, n / 10);
        let c = digit_to_char((n % 10) as u8);
        push_char(s, c);
        assert(final(s)@ =~= old(s)@ + digits_of(n as nat));
    }
}

/// Appends `n` padded with zeros to `width` digits.
pub fn push_padded(s: &mut String, n: u32, width: usize)
    ensures
        final(s)@ == old(s)@ + padded(n as nat, width as nat),
{
    let k = digit_count(n);
    if k < width {
        let mut i: usize = 0;
        let missing = width - k;
        while i < missing
            invariant
                i <= missing,
                s@ == old(s)@ + zeros(i as nat),
            decreases missing - i,
        {
            push_char(s, '0');
            i += 1;
            assert(s@ =~= old(s)@ + zeros(i as nat));
        }
    }
    let ghost mid = s@;
    push_digits(s, n);
    assert(final(s)@ =~= old(s)@ + padded(n as nat, width as nat));
}

// ---------------------------------------------------------------------------
// Integer literals (`str::parse`)
// ---------------------------------------------------------------------------

/// The value that `str::parse` finds in an unsigned literal: an optional `+`
/// followed by at least one ASCII digit.
pub open spec fn unsigned_literal(s: Seq<char>) -> Option<nat> {
    let body = if s.len() > 0 && s[0] == '+' {
        s.drop_first()
    } else {
        s
    };
    if body.len() > 0 && all_digits(body) {
        Some(dec_value(body))
    } else {
        None
    }
}

/// `str::parse::<u8>`.
pub open spec fn parse_u8_spec(s: Seq<char>) -> Option<u8> {
    match unsigned_literal(s) {
        Some(v) => if v <= 255 {
            Some(v as u8)
        } else {
            None
        },
        None => None,
    }
}

/// `str::parse::<i32>`: an optional sign followed by at least one ASCII digit,
/// with the value inside the range of `i32`.
pub open spec fn parse_i32_spec(s: Seq<char>) -> Option<i32> {
    if s.len() > 0 && s[0] == '-' {
        let body = s.drop_first();
        if body.len() > 0 && all_digits(body) && dec_value(body) <= 2147483648 {
            Some((0 - dec_value(body)) as i32)
        } else {
            None
        }
    } else {
        match unsigned_literal(s) {
            Some(v) => if v <= 2147483647 {
                Some(v as i32)
            } else {
                None
            },
            None => None,
        }
    }
}

/// The value of the digits `cs[lo..hi]` if they are all digits, non-empty and
/// at most `limit`.
fn digits_value_at(cs: &Vec<char>, lo: usize, hi: usize, limit: u64) -> (r: Option<u64>)
    requires
        lo <= hi <= cs@.len(),
        limit <= 0x1_0000_0000,
    ensures
        ({
            let body = cs@.subrange(lo as int, hi as int);
            match r {
                Some(v) => body.len() > 0 && all_digits(body) && v == dec_value(body) && v <= limit,
                None => !(body.len() > 0 && all_digits(body) && dec_value(body) <= limit),
            }
        }),
{
    let ghost body = cs@.subrange(lo as int, hi as int);
    if lo == hi {
        return None;
    }
    let mut acc: u64 = 0;
    let mut i = lo;
    while i < hi
        invariant
            lo <= i <= hi <= cs@.len(),
            body == cs@.subrange(lo as int, hi as int),
            limit <= 0x1_0000_0000,
            all_digits(body.take(i - lo)),
            acc == dec_value(body.take(i - lo)),
            acc <= limit,
        decreases hi - i,
    {
        let c = cs[i];
        assert(body[i - lo] == c);
        if !ascii_is_digit(c) {
            return None;
        }
        let d = digit_of(c);
        assert(body.take(i + 1 - lo).drop_last() =~= body.take(i - lo));
        assert(body.take(i + 1 - lo).last() == c);
        acc = acc * 10 + d as u64;
        i += 1;
        if acc > limit {
            proof {
                if all_digits(body) {
                    lemma_dec_value_prefix(body, i - lo);
                }
            }
            return None;
        }
    }
    assert(body.take(hi - lo) =~= body);
    Some(acc)
}

/// `str::parse::<u8>` on `cs[lo..hi]`.
pub fn parse_u8_at(cs: &Vec<char>, lo: usize, hi: usize) -> (r: Option<u8>)
    requires
        lo <= hi <= cs@.len(),
    ensures
        r == parse_u8_spec(cs@.subrange(lo as int, hi as int)),
{
    let ghost s = cs@.subrange(lo as int, hi as int);
    let start = if lo < hi && cs[lo] == '+' {
        lo + 1
    } else {
        lo
    };
    assert(cs@.subrange(start as int, hi as int) =~= (if s.len() > 0 && s[0] == '+' {
        s.drop_first()
    } else {
        s
    }));
    match digits_value_at(cs, start, hi, 255) {
        Some(v) => Some(v as u8),
        None => None,
    }
}

/// `str::parse::<i32>` on `cs[lo..hi]`.
pub fn parse_i32_at(cs: &Vec<char>, lo: usize, hi: usize) -> (r: Option<i32>)
    requires
        lo <= hi <= cs@.len(),
    ensures
        r == parse_i32_spec(cs@.subrange(lo as int, hi as int)),
{
    let ghost s = cs@.subrange(lo as int, hi as int);
    if lo < hi && cs[lo] == '-' {
        assert(cs@.subrange(lo + 1, hi as int) =~= s.drop_first());
        match digits_value_at(cs, lo + 1, hi, 2147483648) {
            Some(v) => {
                let r: i64 = 0 - (v as i64);
                Some(r as i32)
            },
            None => None,
        }
    } else {
        let start = if lo < hi && cs[lo] == '+' {
            lo + 1
        } else {
            lo
        };
        assert(cs@.subrange(start as int, hi as int) =~= (if s.len() > 0 && s[0] == '+' {
            s.drop_first()
        } else {
            s
        }));
        match digits_value_at(cs, start, hi, 2147483647) {
            Some(v) => Some(v as i32),
            None => None,
        }
    }
}

// ---------------------------------------------------------------------------
// Floating-point literals (`str::parse::<f64>` succeeds)
// ---------------------------------------------------------------------------

/// The first position of `c` in `s`, or -1.
pub open spec fn first_index(s: Seq<char>, c: char) -> int
    decreases s.len(),
{
    if s.len() == 0 {
        -1
    } else {
        let f = first_index(s.drop_last(), c);
        if f >= 0 {
            f
        } else if s.last() == c {
            s.len() - 1
        } else {
            -1
        }
    }
}

pub proof fn lemma_first_index(s: Seq<char>, c: char)
    ensures
        -1 <= first_index(s, c) < s.len(),
        first_index(s, c) >= 0 ==> s[first_index(s, c)] == c,
        forall|j: int|
            0 <= j < s.len() && (first_index(s, c) < 0 || j < first_index(s, c)) ==> s[j] != c,
    decreases s.len(),
{
    if s.len() > 0 {
        let t = s.drop_last();
        lemma_first_index(t, c);
        assert forall|j: int|
            0 <= j < s.len() && (first_index(s, c) < 0 || j < first_index(s, c)) implies s[j]
            != c by {
            if j < s.len() - 1 {
                assert(s[j] == t[j]);
            }
        }
    }
}

/// `a + [c] + b` where `a` has no `c`: `c` is first found right after `a`.
pub proof fn lemma_first_index_at(a: Seq<char>, c: char, b: Seq<char>)
    requires
        !a.contains(c),
    ensures
        first_index(a + seq![c] + b, c) == a.len(),
    decreases b.len(),
{
    let s = a + seq![c] + b;
    if b.len() == 0 {
        lemma_first_index_absent(a, c);
        assert(s.drop_last() =~= a);
    } else {
        lemma_first_index_at(a, c, b.drop_last());
        assert(s.drop_last() =~= a + seq![c] + b.drop_last());
    }
}

pub proof fn lemma_first_index_absent(a: Seq<char>, c: char)
    requires
        !a.contains(c),
    ensures
        first_index(a, c) == -1,
    decreases a.len(),
{
    if a.len() > 0 {
        assert(!a.drop_last().contains(c)) by {
            if a.drop_last().contains(c) {
                let j = choose|j: int| 0 <= j < a.drop_last().len() && a.drop_last()[j] == c;
                assert(a[j] == c);
            }
        }
        lemma_first_index_absent(a.drop_last(), c);
        assert(a[a.len() - 1] != c);
    }
}

/// The first position of `c` in `cs[lo..hi]`, counted from `lo`.
pub fn find_char(cs: &Vec<char>, lo: usize, hi: usize, c: char) -> (r: Option<usize>)
    requires
        lo <= hi <= cs@.len(),
    ensures
        match r {
            Some(k) => k == first_index(cs@.subrange(lo as int, hi as int), c) && lo + k < hi,
            None => first_index(cs@.subrange(lo as int, hi as int), c) == -1,
        },
{
    let ghost s = cs@.subrange(lo as int, hi as int);
    let mut i = lo;
    while i < hi
        invariant
            lo <= i <= hi <= cs@.len(),
            s == cs@.subrange(lo as int, hi as int),
            first_index(s.take(i - lo), c) == -1,
        decreases hi - i,
    {
        assert(s.take(i + 1 - lo).drop_last() =~= s.take(i - lo));
        assert(s.take(i + 1 - lo).last() == cs@[i as int]);
        if cs[i] == c {
            proof {
                lemma_first_index_prefix(s, i + 1 - lo, c);
            }
            return Some(i - lo);
        }
        i += 1;
    }
    assert(s.take(hi - lo) =~= s);
    None
}

/// Extending a sequence keeps an occurrence already found.
pub proof fn lemma_first_index_prefix(s: Seq<char>, k: int, c: char)
    requires
        0 <= k <= s.len(),
        first_index(s.take(k), c) >= 0,
    ensures
        first_index(s, c) == first_index(s.take(k), c),
    decreases s.len(),
{
    if k < s.len() {
        assert(s.drop_last().take(k) =~= s.take(k));
        lemma_first_index_prefix(s.drop_last(), k, c);
    } else {
        assert(s.take(k) =~= s);
    }
}

pub open spec fn lower_seq(s: Seq<char>) -> Seq<char> {
    s.map_values(|c: char| to_lower(c))
}

/// A decimal mantissa: digits with at most one `.`, and at least one digit.
pub open spec fn is_mantissa(m: Seq<char>) -> bool {
    let p = first_index(m, '.');
    if p < 0 {
        m.len() > 0 && all_digits(m)
    } else {
        all_digits(m.take(p)) && all_digits(m.skip(p + 1)) && m.len() >= 2
    }
}

/// An exponent part without its `e`: an optional sign, then digits.
pub open spec fn is_exponent(x: Seq<char>) -> bool {
    let body = if x.len() > 0 && (x[0] == '+' || x[0] == '-') {
        x.drop_first()
    } else {
        x
    };
    body.len() > 0 && all_digits(body)
}

/// `Number ::= Mantissa ('e' Exponent)?`, on lower-cased text.
pub open spec fn is_number_text(t: Seq<char>) -> bool {
    let k = first_index(t, 'e');
    if k < 0 {
        is_mantissa(t)
    } else {
        is_mantissa(t.take(k)) && is_exponent(t.skip(k + 1))
    }
}

/// The strings for which `str::parse::<f64>` returns `Ok`, as documented:
/// `Sign? ( 'inf' | 'infinity' | 'nan' | Number )`, compared after ASCII
/// lower-casing.
pub open spec fn is_float_text(s: Seq<char>) -> bool {
    let l = lower_seq(s);
    let t = if l.len() > 0 && (l[0] == '+' || l[0] == '-') {
        l.drop_first()
    } else {
        l
    };
    t == seq!['i', 'n', 'f'] || t == seq!['i', 'n', 'f', 'i', 'n', 'i', 't', 'y'] || t == seq![
        'n',
        'a',
        'n',
    ] || is_number_text(t)
}

/// Whether `cs[lo..hi]` is all digits.
fn all_digits_at(cs: &Vec<char>, lo: usize, hi: usize) -> (r: bool)
    requires
        lo <= hi <= cs@.len(),
    ensures
        r == all_digits(cs@.subrange(lo as int, hi as int)),
{
    let ghost s = cs@.subrange(lo as int, hi as int);
    let mut i = lo;
    while i < hi
        invariant
            lo <= i <= hi <= cs@.len(),
            s == cs@.subrange(lo as int, hi as int),
            forall|j: int| 0 <= j < i - lo ==> is_digit(s[j]),
        decreases hi - i,
    {
        if !ascii_is_digit(cs[i]) {
            assert(!is_digit(s[i - lo]));
            return false;
        }
        i += 1;
    }
    true
}

fn mantissa_at(cs: &Vec<char>, lo: usize, hi: usize) -> (r: bool)
    requires
        lo <= hi <= cs@.len(),
    ensures
        r == is_mantissa(cs@.subrange(lo as int, hi as int)),
{
    let ghost m = cs@.subrange(lo as int, hi as int);
    match find_char(cs, lo, hi, '.') {
        None => lo < hi && all_digits_at(cs, lo, hi),
        Some(p) => {
            let q = lo + p;
            assert(m.take(p as int) =~= cs@.subrange(lo as int, q as int));
            assert(m.skip(p + 1) =~= cs@.subrange(q + 1, hi as int));
            all_digits_at(cs, lo, q) && all_digits_at(cs, q + 1, hi) && hi - lo >= 2
        },
    }
}

fn exponent_at(cs: &Vec<char>, lo: usize, hi: usize) -> (r: bool)
    requires
        lo <= hi <= cs@.len(),
    ensures
        r == is_exponent(cs@.subrange(lo as int, hi as int)),
{
    let ghost x = cs@.subrange(lo as int, hi as int);
    let start = if lo < hi && (cs[lo] == '+' || cs[lo] == '-') {
        lo + 1
    } else {
        lo
    };
    assert(cs@.subrange(start as int, hi as int) =~= (if x.len() > 0 && (x[0] == '+' || x[0]
        == '-') {
        x.drop_first()
    } else {
        x
    }));
    start < hi && all_digits_at(cs, start, hi)
}

/// Whether `str::parse::<f64>` accepts `cs[lo..hi]`.
pub fn is_float_at(cs: &Vec<char>, lo: usize, hi: usize) -> (r: bool)
    requires
        lo <= hi <= cs@.len(),
    ensures
        r == is_float_text(cs@.subrange(lo as int, hi as int)),
{
    let ghost s = cs@.subrange(lo as int, hi as int);
    let mut l: Vec<char> = Vec::new();
    let mut i = lo;
    while i < hi
        invariant
            lo <= i <= hi <= cs@.len(),
            s == cs@.subrange(lo as int, hi as int),
            l@ == lower_seq(s.take(i - lo)),
        decreases hi - i,
    {
        let c = ascii_lower(cs[i]);
        l.push(c);
        i += 1;
        assert(l@ =~= lower_seq(s.take(i - lo)));
    }
    assert(s.take(hi - lo) =~= s);
    let n = l.len();
    let start: usize = if n > 0 && (l[0] == '+' || l[0] == '-') {
        1
    } else {
        0
    };
    let ghost t = l@.subrange(start as int, n as int);
    assert(t =~= (if l@.len() > 0 && (l@[0] == '+' || l@[0] == '-') {
        l@.drop_first()
    } else {
        l@
    }));
    let len = n - start;
    if len == 3 && l[start] == 'i' && l[start + 1] == 'n' && l[start + 2] == 'f' {
        assert(t =~= seq!['i', 'n', 'f']);
        return true;
    }
    if len == 3 && l[start] == 'n' && l[start + 1] == 'a' && l[start + 2] == 'n' {
        assert(t =~= seq!['n', 'a', 'n']);
        return true;
    }
    if len == 8 && l[start] == 'i' && l[start + 1] == 'n' && l[start + 2] == 'f' && l[start + 3]
        == 'i' && l[start + 4] == 'n' && l[start + 5] == 'i' && l[start + 6] == 't' && l[start
        + 7] == 'y' {
        assert(t =~= seq!['i', 'n', 'f', 'i', 'n', 'i', 't', 'y']);
        return true;
    }
    assert(t != seq!['i', 'n', 'f'] && t != seq!['n', 'a', 'n'] && t != seq![
        'i',
        'n',
        'f',
        'i',
        'n',
        'i',
        't',
        'y',
    ]) by {
        if t == seq!['i', 'n', 'f'] {
            assert(t[0] == 'i' && t[1] == 'n' && t[2] == 'f');
        }
        if t == seq!['n', 'a', 'n'] {
            assert(t[0] == 'n' && t[1] == 'a' && t[2] == 'n');
        }
        if t == seq!['i', 'n', 'f', 'i', 'n', 'i', 't', 'y'] {
            assert(t[0] == 'i' && t[1] == 'n' && t[2] == 'f' && t[3] == 'i' && t[4] == 'n'
                && t[5] == 'i' && t[6] == 't' && t[7] == 'y');
        }
    }
    match find_char(&l, start, n, 'e') {
        None => mantissa_at(&l, start, n),
        Some(k) => {
            let q = start + k;
            assert(t.take(k as int) =~= l@.subrange(start as int, q as int));
            assert(t.skip(k + 1) =~= l@.subrange(q + 1, n as int));
            mantissa_at(&l, start, q) && exponent_at(&l, q + 1, n)
        },
    }
}

// ---------------------------------------------------------------------------
// Splitting
// ---------------------------------------------------------------------------

/// The pieces that `str::split(sep)` yields: the text between separators,
/// always at least one piece.
pub open spec fn split_on(s: Seq<char>, sep: char) -> Seq<Seq<char>>
    decreases s.len(),
{
    if s.len() == 0 {
        seq![Seq::empty()]
    } else {
        let init = split_on(s.drop_last(), sep);
        if s.last() == sep {
            init.push(Seq::empty())
        } else {
            init.update(init.len() - 1, init.last().push(s.last()))
        }
    }
}

pub proof fn lemma_split_len(s: Seq<char>, sep: char)
    ensures
        split_on(s, sep).len() >= 1,
    decreases s.len(),
{
    if s.len() > 0 {
        lemma_split_len(s.drop_last(), sep);
    }
}

/// Appending text without a separator extends the last piece.
pub proof fn lemma_split_append_plain(x: Seq<char>, y: Seq<char>, sep: char)
    requires
        !y.contains(sep),
    ensures
        split_on(x + y, sep) == split_on(x, sep).update(
            split_on(x, sep).len() - 1,
            split_on(x, sep).last() + y,
        ),
    decreases y.len(),
{
    lemma_split_len(x, sep);
    if y.len() == 0 {
        assert(x + y =~= x);
        assert(split_on(x, sep).last() + y =~= split_on(x, sep).last());
        assert(split_on(x, sep).update(split_on(x, sep).len() - 1, split_on(x, sep).last())
            =~= split_on(x, sep));
    } else {
        assert(!y.drop_last().contains(sep)) by {
            if y.drop_last().contains(sep) {
                let j = choose|j: int| 0 <= j < y.drop_last().len() && y.drop_last()[j] == sep;
                assert(y[j] == sep);
            }
        }
        assert(y[y.len() - 1] != sep);
        lemma_split_append_plain(x, y.drop_last(), sep);
        assert((x + y).drop_last() =~= x + y.drop_last());
        lemma_split_len(x + y.drop_last(), sep);
        let sx = split_on(x, sep);
        let init = split_on(x + y.drop_last(), sep);
        assert(init.len() == sx.len());
        assert(init.last() == sx.last() + y.drop_last());
        assert((x + y).last() == y.last());
        assert(init.last().push(y.last()) =~= sx.last() + y);
        assert(split_on(x + y, sep) =~= split_on(x, sep).update(
            split_on(x, sep).len() - 1,
            split_on(x, sep).last() + y,
        ));
    }
}

/// Appending a separator starts a new, empty piece.
pub proof fn lemma_split_append_sep(x: Seq<char>, sep: char)
    ensures
        split_on(x.push(sep), sep) == split_on(x, sep).push(Seq::empty()),
{
    assert(x.push(sep).drop_last() =~= x);
}

pub proof fn lemma_split_plain(a: Seq<char>, sep: char)
    requires
        !a.contains(sep),
    ensures
        split_on(a, sep) == seq![a],
{
    lemma_split_append_plain(Seq::empty(), a, sep);
    assert(Seq::<char>::empty() + a =~= a);
    assert(split_on(Seq::<char>::empty(), sep).last() + a =~= a);
    assert(seq![Seq::<char>::empty()].update(0, a) =~= seq![a]);
}

/// Joining sep-free pieces with `sep` and splitting again gives the pieces back
/// (three pieces).
pub proof fn lemma_split_three(a: Seq<char>, b: Seq<char>, c: Seq<char>, sep: char)
    requires
        !a.contains(sep),
        !b.contains(sep),
        !c.contains(sep),
    ensures
        split_on(a + seq![sep] + b + seq![sep] + c, sep) == seq![a, b, c],
{
    lemma_split_plain(a, sep);
    let x1 = a.push(sep);
    lemma_split_append_sep(a, sep);
    lemma_split_append_plain(x1, b, sep);
    assert(split_on(x1 + b, sep) =~= seq![a, b]) by {
        assert(seq![a].push(Seq::<char>::empty()) =~= seq![a, Seq::empty()]);
        assert(Seq::<char>::empty() + b =~= b);
    }
    let x2 = (x1 + b).push(sep);
    lemma_split_append_sep(x1 + b, sep);
    lemma_split_append_plain(x2, c, sep);
    assert(Seq::<char>::empty() + c =~= c);
    assert(seq![a, b].push(Seq::<char>::empty()).update(2, c) =~= seq![a, b, c]);
    assert(x2 + c =~= a + seq![sep] + b + seq![sep] + c);
}

/// Two pieces.
pub proof fn lemma_split_two(a: Seq<char>, b: Seq<char>, sep: char)
    requires
        !a.contains(sep),
        !b.contains(sep),
    ensures
        split_on(a + seq![sep] + b, sep) == seq![a, b],
{
    lemma_split_plain(a, sep);
    let x1 = a.push(sep);
    lemma_split_append_sep(a, sep);
    lemma_split_append_plain(x1, b, sep);
    assert(Seq::<char>::empty() + b =~= b);
    assert(seq![a].push(Seq::<char>::empty()).update(1, b) =~= seq![a, b]);
    assert(x1 + b =~= a + seq![sep] + b);
}

/// The character ranges of the pieces of `cs[lo..hi]` split on `sep`.
pub fn split_ranges(cs: &Vec<char>, lo: usize, hi: usize, sep: char) -> (r: Vec<(usize, usize)>)
    requires
        lo <= hi <= cs@.len(),
    ensures
        r@.len() == split_on(cs@.subrange(lo as int, hi as int), sep).len(),
        forall|k: int|
            0 <= k < r@.len() ==> {
                &&& lo <= (#[trigger] r@[k]).0 <= r@[k].1 <= hi
                &&& cs@.subrange(r@[k].0 as int, r@[k].1 as int) == split_on(
                    cs@.subrange(lo as int, hi as int),
                    sep,
                )[k]
            },
{
    let ghost s = cs@.subrange(lo as int, hi as int);
    let mut out: Vec<(usize, usize)> = Vec::new();
    let mut start = lo;
    let mut i = lo;
    assert(s.take(0) =~= Seq::<char>::empty());
    while i < hi
        invariant
            lo <= start <= i <= hi <= cs@.len(),
            s == cs@.subrange(lo as int, hi as int),
            out@.len() + 1 == split_on(s.take(i - lo), sep).len(),
            forall|k: int|
                0 <= k < out@.len() ==> {
                    &&& lo <= (#[trigger] out@[k]).0 <= out@[k].1 <= hi
                    &&& cs@.subrange(out@[k].0 as int, out@[k].1 as int) == split_on(
                        s.take(i - lo),
                        sep,
                    )[k]
                },
            cs@.subrange(start as int, i as int) == split_on(s.take(i - lo), sep).last(),
        decreases hi - i,
    {
        let ghost prev = split_on(s.take(i - lo), sep);
        assert(s.take(i + 1 - lo).drop_last() =~= s.take(i - lo));
        assert(s.take(i + 1 - lo).last() == cs@[i as int]);
        if cs[i] == sep {
            out.push((start, i));
            i += 1;
            start = i;
            assert(cs@.subrange(start as int, i as int) =~= Seq::<char>::empty());
        } else {
            i += 1;
            assert(cs@.subrange(start as int, i as int) =~= prev.last().push(cs@[i - 1]));
        }
    }
    assert(s.take(hi - lo) =~= s);
    out.push((start, hi));
    out
}

// ---------------------------------------------------------------------------
// Trimming
// ---------------------------------------------------------------------------

/// Leading whitespace removed.
pub open spec fn trim_start(s: Seq<char>) -> Seq<char>
    decreases s.len(),
{
    if s.len() > 0 && is_whitespace(s[0]) {
        trim_start(s.drop_first())
    } else {
        s
    }
}

/// Trailing whitespace removed.
pub open spec fn trim_end(s: Seq<char>) -> Seq<char>
    decreases s.len(),
{
    if s.len() > 0 && is_whitespace(s.last()) {
        trim_end(s.drop_last())
    } else {
        s
    }
}

/// `str::trim`: whitespace removed at both ends.
pub open spec fn trim(s: Seq<char>) -> Seq<char> {
    trim_end(trim_start(s))
}

/// The range of `cs` that `trim` keeps.
pub fn trim_range(cs: &Vec<char>) -> (r: (usize, usize))
    ensures
        r.0 <= r.1 <= cs@.len(),
        cs@.subrange(r.0 as int, r.1 as int) == trim(cs@),
{
    let n = cs.len();
    let mut a: usize = 0;
    assert(cs@.subrange(0, n as int) =~= cs@);
    while a < n && is_white(cs[a])
        invariant
            a <= n == cs@.len(),
            trim_start(cs@.subrange(a as int, n as int)) == trim_start(cs@),
        decreases n - a,
    {
        assert(cs@.subrange(a + 1, n as int) =~= cs@.subrange(a as int, n as int).drop_first());
        a += 1;
    }
    let mut b: usize = n;
    while b > a && is_white(cs[b - 1])
        invariant
            a <= b <= n == cs@.len(),
            trim_start(cs@) == cs@.subrange(a as int, n as int),
            trim_end(cs@.subrange(a as int, b as int)) == trim(cs@),
        decreases b - a,
    {
        assert(cs@.subrange(a as int, b - 1) =~= cs@.subrange(a as int, b as int).drop_last());
        b -= 1;
    }
    (a, b)
}

} // verus!
