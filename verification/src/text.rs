//! Text handling shared by the command logic: splitting on white space,
//! reading and writing decimal numbers.

use vstd::prelude::*;
use vstd::string::*;

verus! {

/// Whether `c` is white space: a character of Unicode's `White_Space`
/// class, which is what the standard library's `char::is_whitespace` tells.
pub open spec fn is_space(c: char) -> bool {
    let code = c as u32;
    ||| 0x0009 <= code <= 0x000D
    ||| code == 0x0020
    ||| code == 0x0085
    ||| code == 0x00A0
    ||| code == 0x1680
    ||| 0x2000 <= code <= 0x200A
    ||| code == 0x2028
    ||| code == 0x2029
    ||| code == 0x202F
    ||| code == 0x205F
    ||| code == 0x3000
}

/// The lower-case form of `s` as the standard library's `str::to_lowercase`
/// gives it.
pub uninterp spec fn lowercase(s: Seq<char>) -> Seq<char>;

/// Calls `char::is_whitespace`. Trusted: the answer is true exactly for the
/// characters of Unicode's `White_Space` class, which `is_space` lists.
#[verifier::external_body]
pub(crate) fn is_whitespace(c: char) -> (b: bool)
    ensures
        b == is_space(c),
{
    c.is_whitespace()
}

/// Calls `str::to_lowercase`. Trusted: the contract names the result
/// `lowercase(s@)` and claims nothing else about it.
#[verifier::external_body]
pub(crate) fn to_lowercase(s: &str) -> (r: String)
    ensures
        r@ == lowercase(s@),
{
    s.to_lowercase()
}

/// Index of the first character of `s` that is white space (`space` true) or
/// is not (`space` false); `s.len()` where there is none.
pub open spec fn scan(s: Seq<char>, space: bool) -> nat
    decreases s.len(),
{
    if s.len() == 0 || is_space(s[0]) == space {
        0
    } else {
        1 + scan(s.drop_first(), space)
    }
}

/// What follows the first white-space character of `s`, or `None` where `s`
/// holds no white space.
pub open spec fn after_first_space(s: Seq<char>) -> Option<Seq<char>> {
    if scan(s, true) < s.len() {
        Some(s.skip(scan(s, true) as int + 1))
    } else {
        None
    }
}

/// The first maximal run of characters of `s` that holds no white space;
/// empty where `s` is all white space.
pub open spec fn first_token(s: Seq<char>) -> Seq<char> {
    let rest = s.skip(scan(s, false) as int);
    rest.take(scan(rest, true) as int)
}

/// `scan` is the one index that has only characters of the other class before
/// it and a character of the wanted class, or the end, at it.
pub proof fn lemma_scan_unique(s: Seq<char>, space: bool, k: int)
    requires
        0 <= k <= s.len(),
        forall|j: int| 0 <= j < k ==> is_space(#[trigger] s[j]) != space,
        k < s.len() ==> is_space(s[k]) == space,
    ensures
        scan(s, space) == k,
    decreases s.len(),
{
    if k > 0 {
        let t = s.drop_first();
        assert forall|j: int| 0 <= j < k - 1 implies is_space(#[trigger] t[j]) != space by {
            assert(t[j] == s[j + 1]);
        }
        assert(is_space(s[0]) != space);
        lemma_scan_unique(t, space, k - 1);
    }
}

/// Finds the first character of `s` of the wanted class.
pub fn find(s: &str, space: bool) -> (k: usize)
    ensures
        k == scan(s@, space),
        k <= s@.len(),
{
    let n = s.unicode_len();
    let mut i: usize = 0;
    while i < n && is_whitespace(s.get_char(i)) != space
        invariant
            n == s@.len(),
            i <= n,
            forall|j: int| 0 <= j < i ==> is_space(#[trigger] s@[j]) != space,
        decreases n - i,
    {
        i = i + 1;
    }
    proof {
        lemma_scan_unique(s@, space, i as int);
    }
    i
}

/// The text behind the first white-space character of `s`, if `s` has one.
pub fn split_after_first_space<'a>(s: &'a str) -> (r: Option<&'a str>)
    ensures
        match r {
            Some(t) => after_first_space(s@) == Some(t@),
            None => after_first_space(s@) is None,
        },
{
    let n = s.unicode_len();
    let k = find(s, true);
    if k < n {
        let t = s.substring_char(k + 1, n);
        assert(t@ =~= s@.skip(k + 1));
        Some(t)
    } else {
        None
    }
}

/// The first white-space-delimited word of `s`; empty where there is none.
pub fn leading_token<'a>(s: &'a str) -> (t: &'a str)
    ensures
        t@ == first_token(s@),
{
    let n = s.unicode_len();
    let a = find(s, false);
    let rest = s.substring_char(a, n);
    assert(rest@ =~= s@.skip(a as int));
    let b = find(rest, true);
    let t = rest.substring_char(0, b);
    assert(t@ =~= rest@.take(b as int));
    t
}

/// Whether `c` is one of the ten ASCII digits.
pub open spec fn is_digit(c: char) -> bool {
    48 <= c as u32 <= 57
}

/// Whether `s` holds ASCII digits only.
pub open spec fn all_digits(s: Seq<char>) -> bool {
    forall|i: int| 0 <= i < s.len() ==> is_digit(#[trigger] s[i])
}

/// The number that the digits of `s` write in base ten.
pub open spec fn decimal_value(s: Seq<char>) -> nat
    decreases s.len(),
{
    if s.len() == 0 {
        0
    } else {
        decimal_value(s.drop_last()) * 10 + (s.last() as u32 - 48) as nat
    }
}

/// The number written by a non-empty run of digits that fits in 64 bits.
pub open spec fn digits_u64(s: Seq<char>) -> Option<u64> {
    if s.len() > 0 && all_digits(s) && decimal_value(s) <= u64::MAX {
        Some(decimal_value(s) as u64)
    } else {
        None
    }
}

/// An unsigned decimal number: an optional `+`, then one or more digits, the
/// value within `u64`.
pub open spec fn parse_u64(s: Seq<char>) -> Option<u64> {
    if s.len() > 0 && s[0] == '+' {
        digits_u64(s.skip(1))
    } else {
        digits_u64(s)
    }
}

/// A signed decimal number: an optional `+` or `-`, then one or more digits,
/// the value within `i64`.
pub open spec fn parse_i64(s: Seq<char>) -> Option<i64> {
    let signed = s.len() > 0 && (s[0] == '+' || s[0] == '-');
    let digits = if signed { s.skip(1) } else { s };
    let magnitude = decimal_value(digits) as int;
    let value = if s.len() > 0 && s[0] == '-' { -magnitude } else { magnitude };
    if digits.len() > 0 && all_digits(digits) && i64::MIN <= value <= i64::MAX {
        Some(value as i64)
    } else {
        None
    }
}

/// A prefix of a run of digits never writes a larger number than the run.
pub proof fn lemma_decimal_prefix(s: Seq<char>, k: int)
    requires
        0 <= k <= s.len(),
    ensures
        decimal_value(s.take(k)) <= decimal_value(s),
    decreases s.len(),
{
    if k == s.len() {
        assert(s.take(k) =~= s);
    } else {
        lemma_decimal_prefix(s.drop_last(), k);
        assert(s.drop_last().take(k) =~= s.take(k));
    }
}

/// Reads the digits of `s` from character `from` to the end.
fn read_digits(s: &str, from: usize) -> (r: Option<u64>)
    requires
        from <= s@.len(),
    ensures
        r == digits_u64(s@.skip(from as int)),
{
    let n = s.unicode_len();
    let ghost d = s@.skip(from as int);
    if from >= n {
        return None;
    }
    let mut acc: u64 = 0;
    let mut i: usize = from;
    proof {
        assert(d.take(0) =~= Seq::<char>::empty());
    }
    while i < n
        invariant
            n == s@.len(),
            from <= i <= n,
            d == s@.skip(from as int),
            d.len() == n - from,
            forall|j: int| 0 <= j < i - from ==> is_digit(#[trigger] d[j]),
            acc == decimal_value(d.take(i - from)),
        decreases n - i,
    {
        let c = s.get_char(i);
        let v: u32 = c as u32;
        assert(d[i - from] == c);
        if v < 48 || v > 57 {
            return None;
        }
        let digit: u64 = (v - 48) as u64;
        proof {
            let next = d.take(i - from + 1);
            assert(next.drop_last() =~= d.take(i - from));
            assert(next.last() == c);
            assert(decimal_value(next) == acc * 10 + digit);
            lemma_decimal_prefix(d, i - from + 1);
        }
        let scaled = match acc.checked_mul(10) {
            Some(m) => m,
            None => { return None; },
        };
        acc = match scaled.checked_add(digit) {
            Some(a) => a,
            None => { return None; },
        };
        i = i + 1;
    }
    proof {
        assert(d.take(n - from) =~= d);
    }
    Some(acc)
}

/// Reads an unsigned decimal number that fills the whole of `s`.
pub fn read_u64(s: &str) -> (r: Option<u64>)
    ensures
        r == parse_u64(s@),
{
    let n = s.unicode_len();
    if n > 0 && s.get_char(0) == '+' {
        read_digits(s, 1)
    } else {
        assert(s@.skip(0) =~= s@);
        read_digits(s, 0)
    }
}

/// Reads a signed decimal number that fills the whole of `s`.
pub fn read_i64(s: &str) -> (r: Option<i64>)
    ensures
        r == parse_i64(s@),
{
    let n = s.unicode_len();
    let negative = n > 0 && s.get_char(0) == '-';
    let signed = negative || (n > 0 && s.get_char(0) == '+');
    let from: usize = if signed { 1 } else { 0 };
    proof {
        assert(s@.skip(0) =~= s@);
    }
    match read_digits(s, from) {
        None => None,
        Some(m) => {
            if negative {
                if m <= 0x7fff_ffff_ffff_ffff {
                    Some(-(m as i64))
                } else if m == 0x8000_0000_0000_0000 {
                    Some(i64::MIN)
                } else {
                    None
                }
            } else if m <= 0x7fff_ffff_ffff_ffff {
                Some(m as i64)
            } else {
                None
            }
        },
    }
}

/// The character that writes the digit `d`.
pub open spec fn digit_char(d: nat) -> char {
    if d == 0 {
        '0'
    } else if d == 1 {
        '1'
    } else if d == 2 {
        '2'
    } else if d == 3 {
        '3'
    } else if d == 4 {
        '4'
    } else if d == 5 {
        '5'
    } else if d == 6 {
        '6'
    } else if d == 7 {
        '7'
    } else if d == 8 {
        '8'
    } else {
        '9'
    }
}

/// `n` written in base ten, without leading zeros.
pub open spec fn decimal(n: nat) -> Seq<char>
    decreases n,
{
    if n < 10 {
        seq![digit_char(n)]
    } else {
        decimal(n / 10).push(digit_char(n % 10))
    }
}

fn digit_str(d: u64) -> (r: &'static str)
    requires
        d < 10,
    ensures
        r@ == seq![digit_char(d as nat)],
{
    let r = if d == 0 {
        proof { reveal_strlit("0"); }
        "0"
    } else if d == 1 {
        proof { reveal_strlit("1"); }
        "1"
    } else if d == 2 {
        proof { reveal_strlit("2"); }
        "2"
    } else if d == 3 {
        proof { reveal_strlit("3"); }
        "3"
    } else if d == 4 {
        proof { reveal_strlit("4"); }
        "4"
    } else if d == 5 {
        proof { reveal_strlit("5"); }
        "5"
    } else if d == 6 {
        proof { reveal_strlit("6"); }
        "6"
    } else if d == 7 {
        proof { reveal_strlit("7"); }
        "7"
    } else if d == 8 {
        proof { reveal_strlit("8"); }
        "8"
    } else {
        proof { reveal_strlit("9"); }
        "9"
    };
    assert(r@ =~= seq![digit_char(d as nat)]);
    r
}

/// Writes `n` in base ten.
pub fn write_decimal(n: u64) -> (r: String)
    ensures
        r@ == decimal(n as nat),
    decreases n,
{
    if n < 10 {
        String::from_str(digit_str(n))
    } else {
        let mut r = write_decimal(n / 10);
        r.append(digit_str(n % 10));
        assert(r@ =~= decimal(n as nat));
        r
    }
}

} // verus!
