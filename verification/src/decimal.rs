//! Decimal text of integers, as Rust's `Display` writes it and as
//! `str::parse::<usize>` reads it.

use vstd::prelude::*;

verus! {

/// The character of a decimal digit `d` (`0 <= d < 10`).
pub open spec fn digit_char(d: nat) -> char {
    if d == 0 { '0' }
    else if d == 1 { '1' }
    else if d == 2 { '2' }
    else if d == 3 { '3' }
    else if d == 4 { '4' }
    else if d == 5 { '5' }
    else if d == 6 { '6' }
    else if d == 7 { '7' }
    else if d == 8 { '8' }
    else { '9' }
}

/// The digits of `n` in base ten, without leading zeros ("0" for zero).
pub open spec fn decimal_digits(n: nat) -> Seq<char>
    decreases n,
{
    if n < 10 {
        seq![digit_char(n)]
    } else {
        decimal_digits(n / 10).push(digit_char(n % 10))
    }
}

/// The text of an integer as `Display` writes it: a minus sign before the
/// digits of a negative number.
pub open spec fn int_text(n: int) -> Seq<char> {
    if n < 0 {
        seq!['-'] + decimal_digits((-n) as nat)
    } else {
        decimal_digits(n as nat)
    }
}

/// Calls `String::push`: the contract claims, as std documents, that the
/// text afterwards is the text before with `c` appended.
#[verifier::external_body]
fn string_push(s: &mut String, c: char)
    ensures
        final(s)@ == old(s)@.push(c),
{
    s.push(c);
}

fn digit_to_char(d: u64) -> (c: char)
    requires
        d < 10,
    ensures
        c == digit_char(d as nat),
{
    if d == 0 { '0' }
    else if d == 1 { '1' }
    else if d == 2 { '2' }
    else if d == 3 { '3' }
    else if d == 4 { '4' }
    else if d == 5 { '5' }
    else if d == 6 { '6' }
    else if d == 7 { '7' }
    else if d == 8 { '8' }
    else { '9' }
}

fn push_digits(s: &mut String, n: u64)
    ensures
        final(s)@ == old(s)@ + decimal_digits(n as nat),
    decreases n,
{
    if n >= 10 {
        push_digits(s, n / 10);
    }
    let c = digit_to_char(n % 10);
    string_push(s, c);
    proof {
        if n >= 10 {
            assert(decimal_digits(n as nat) == decimal_digits((n / 10) as nat).push(digit_char((n % 10) as nat)));
        } else {
            assert(n % 10 == n);
        }
    }
}

/// The decimal text of `n`, as `format!("{}", n)` writes it.
pub fn format_i32(n: i32) -> (text: String)
    ensures
        text@ == int_text(n as int),
{
    let mut text = String::new();
    if n < 0 {
        string_push(&mut text, '-');
        let magnitude: u64 = (0i64 - n as i64) as u64;
        push_digits(&mut text, magnitude);
    } else {
        push_digits(&mut text, n as u64);
    }
    text
}

/// Whether `c` is one of the ASCII digits `0` to `9`.
pub open spec fn is_digit(c: char) -> bool {
    '0' as int <= c as int <= '9' as int
}

/// The value of the digit character `c`.
pub open spec fn digit_value(c: char) -> nat {
    (c as int - '0' as int) as nat
}

/// The number that a sequence of digits denotes in base ten (leading zeros
/// allowed; zero for the empty sequence).
pub open spec fn digits_value(d: Seq<char>) -> nat
    decreases d.len(),
{
    if d.len() == 0 {
        0
    } else {
        digits_value(d.drop_last()) * 10 + digit_value(d.last())
    }
}

/// Whether every character of `d` is a digit.
pub open spec fn all_digits(d: Seq<char>) -> bool {
    forall|i: int| 0 <= i < d.len() ==> is_digit(#[trigger] d[i])
}

/// What follows the optional `+` sign that `str::parse` accepts for an
/// unsigned integer.
pub open spec fn unsigned_body(s: Seq<char>) -> Seq<char> {
    if s.len() > 0 && s[0] == '+' {
        s.drop_first()
    } else {
        s
    }
}

/// What `s.parse::<usize>()` gives: the value of a non-empty run of digits,
/// after an optional `+`, when that value fits in a `usize`; nothing
/// otherwise (empty text, a lone `+`, a `-`, any other character, overflow).
pub open spec fn parse_usize_spec(s: Seq<char>) -> Option<usize> {
    let d = unsigned_body(s);
    if d.len() > 0 && all_digits(d) && digits_value(d) <= usize::MAX {
        Some(digits_value(d) as usize)
    } else {
        None
    }
}

proof fn lemma_digits_value_monotone(d: Seq<char>, k: int)
    requires
        0 <= k <= d.len(),
    ensures
        digits_value(d.subrange(0, k)) <= digits_value(d),
    decreases d.len() - k,
{
    if k < d.len() {
        lemma_digits_value_monotone(d, k + 1);
        assert(d.subrange(0, k + 1).drop_last() =~= d.subrange(0, k));
    } else {
        assert(d.subrange(0, k) =~= d);
    }
}

/// Reads an unsigned decimal number as `str::parse::<usize>` does.
pub fn parse_usize(s: &str) -> (r: Option<usize>)
    ensures
        r == parse_usize_spec(s@),
{
    let len = s.unicode_len();
    let mut start: usize = 0;
    if len > 0 && s.get_char(0) == '+' {
        start = 1;
    }
    let ghost d = unsigned_body(s@);
    assert(d =~= s@.subrange(start as int, len as int));
    if start >= len {
        return None;
    }
    let mut value: usize = 0;
    let mut i: usize = start;
    while i < len
        invariant
            start <= i <= len,
            len == s@.len(),
            d =~= s@.subrange(start as int, len as int),
            d == unsigned_body(s@),
            all_digits(d.subrange(0, i - start)),
            value as nat == digits_value(d.subrange(0, i - start)),
        decreases len - i,
    {
        let c = s.get_char(i);
        let ghost k: int = i - start;
        assert(d[k] == c);
        if !('0' <= c && c <= '9') {
            assert(!all_digits(d));
            return None;
        }
        let digit: usize = (c as u32 - '0' as u32) as usize;
        assert(d.subrange(0, k + 1).drop_last() =~= d.subrange(0, k));
        assert(digits_value(d.subrange(0, k + 1)) == value * 10 + digit);
        if value > (usize::MAX - digit) / 10 {
            proof {
                assert(value * 10 + digit > usize::MAX) by (nonlinear_arith)
                    requires
                        value > (usize::MAX - digit) / 10,
                        digit < 10,
                ;
                lemma_digits_value_monotone(d, k + 1);
            }
            return None;
        }
        assert(value * 10 + digit <= usize::MAX) by (nonlinear_arith)
            requires
                value <= (usize::MAX - digit) / 10,
                digit < 10,
        ;
        value = value * 10 + digit;
        i = i + 1;
        assert(all_digits(d.subrange(0, i - start))) by {
            assert forall|j: int| 0 <= j < i - start implies is_digit(#[trigger] d.subrange(0, i - start)[j]) by {
                if j < k {
                    assert(d.subrange(0, i - start)[j] == d.subrange(0, k)[j]);
                }
            }
        }
    }
    assert(d.subrange(0, i - start) =~= d);
    Some(value)
}

proof fn lemma_digit_char_value(d: nat)
    requires
        d < 10,
    ensures
        is_digit(digit_char(d)),
        digit_value(digit_char(d)) == d,
{
}

proof fn lemma_decimal_digits_read_back(n: nat)
    ensures
        decimal_digits(n).len() > 0,
        all_digits(decimal_digits(n)),
        digits_value(decimal_digits(n)) == n,
    decreases n,
{
    let t = decimal_digits(n);
    lemma_digit_char_value(n % 10);
    if n < 10 {
        assert(t.drop_last() =~= Seq::<char>::empty());
        assert(digits_value(t.drop_last()) == 0);
        assert(n % 10 == n);
    } else {
        lemma_decimal_digits_read_back(n / 10);
        let p = decimal_digits(n / 10);
        assert(t.drop_last() =~= p);
        assert(t.last() == digit_char(n % 10));
        assert(digits_value(t) == digits_value(p) * 10 + digit_value(t.last()));
        assert forall|i: int| 0 <= i < t.len() implies is_digit(#[trigger] t[i]) by {
            if i < p.len() {
                assert(t[i] == p[i]);
            }
        }
    }
}

/// Reading back the text of a non-negative number gives the number itself:
/// `format!("{}", n).parse::<usize>() == Ok(n)`.
pub proof fn lemma_text_reads_back(n: i32)
    requires
        n >= 0,
    ensures
        parse_usize_spec(int_text(n as int)) == Some(n as usize),
{
    lemma_decimal_digits_read_back(n as nat);
    let t = decimal_digits(n as nat);
    assert(is_digit(t[0]));
    assert(unsigned_body(t) == t);
}

proof fn lemma_decimal_digits_no_leading_zero(n: nat)
    requires
        n >= 1,
    ensures
        decimal_digits(n)[0] != '0',
    decreases n,
{
    lemma_digit_char_value(n % 10);
    if n >= 10 {
        lemma_decimal_digits_no_leading_zero(n / 10);
        lemma_decimal_digits_read_back(n / 10);
        assert(decimal_digits(n)[0] == decimal_digits(n / 10)[0]);
    } else {
        assert(n % 10 == n);
    }
}

/// The text of an integer is what `Display` writes: for a number `n >= 0`,
/// digits only, without a leading zero unless it is `0` itself, that read
/// back as `n`; for a negative number, a minus sign followed by such digits
/// of `-n`.
pub proof fn lemma_int_text_is_display(n: i32)
    ensures
        ({
            let t = int_text(n as int);
            let digits = if n < 0 { t.drop_first() } else { t };
            let magnitude: int = if n < 0 { -(n as int) } else { n as int };
            &&& n < 0 ==> t.len() > 0 && t[0] == '-'
            &&& digits.len() > 0
            &&& all_digits(digits)
            &&& (digits[0] == '0' ==> digits == seq!['0'])
            &&& parse_usize_spec(digits) == Some(magnitude as usize)
        }),
{
    let t = int_text(n as int);
    let magnitude: int = if n < 0 { -(n as int) } else { n as int };
    let d = decimal_digits(magnitude as nat);
    lemma_decimal_digits_read_back(magnitude as nat);
    if n < 0 {
        assert(t.drop_first() =~= d);
    }
    if magnitude >= 1 {
        lemma_decimal_digits_no_leading_zero(magnitude as nat);
    } else {
        assert(d =~= seq!['0']);
    }
    assert(is_digit(d[0]));
    assert(unsigned_body(d) == d);
    assert(magnitude <= usize::MAX);
}

/// What `str::parse::<usize>` refuses: empty text, a lone sign, and a
/// minus sign; a leading `+` is read past.
pub proof fn lemma_parse_signs(t: Seq<char>)
    ensures
        parse_usize_spec(Seq::<char>::empty()) is None,
        parse_usize_spec(seq!['+']) is None,
        parse_usize_spec(seq!['-'] + t) is None,
        t.len() > 0 && t[0] != '+' ==> parse_usize_spec(seq!['+'] + t) == parse_usize_spec(t),
{
    let m = seq!['-'] + t;
    assert(m[0] == '-');
    assert(unsigned_body(m) == m);
    assert(!is_digit(m[0]));
    if t.len() > 0 && t[0] != '+' {
        assert((seq!['+'] + t).drop_first() =~= t);
    }
    assert(seq!['+'].drop_first() =~= Seq::<char>::empty());
}

/// Reading digits one more digit at a time: appending a digit `c` to
/// digits that read as `v` gives `10 * v` plus the digit's value, as long as
/// that fits in a `usize`, and nothing otherwise; a non-digit makes any
/// text unreadable.
pub proof fn lemma_parse_appends_digit(d: Seq<char>, c: char)
    requires
        d.len() > 0,
        d[0] != '+',
        parse_usize_spec(d) is Some,
    ensures
        is_digit(c) && parse_usize_spec(d)->0 * 10 + digit_value(c) <= usize::MAX
            ==> parse_usize_spec(d.push(c)) == Some((parse_usize_spec(d)->0 * 10 + digit_value(c)) as usize),
        is_digit(c) && parse_usize_spec(d)->0 * 10 + digit_value(c) > usize::MAX
            ==> parse_usize_spec(d.push(c)) is None,
        !is_digit(c) ==> parse_usize_spec(d.push(c)) is None,
{
    let e = d.push(c);
    assert(unsigned_body(d) == d);
    assert(e[0] == d[0]);
    assert(unsigned_body(e) == e);
    assert(e.drop_last() =~= d);
    if !is_digit(c) {
        assert(e[e.len() - 1] == c);
    } else {
        assert forall|i: int| 0 <= i < e.len() implies is_digit(#[trigger] e[i]) by {
            if i < d.len() {
                assert(e[i] == d[i]);
            }
        }
    }
}

} // verus!
