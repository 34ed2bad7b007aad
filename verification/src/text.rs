use vstd::prelude::*;

verus! {

/// The character that writes digit `d` (0 to 15) in lower-case hexadecimal;
/// the decimal digits are its first ten.
pub open spec fn digit_char(d: nat) -> char {
    if d == 0 { '0' }
    else if d == 1 { '1' }
    else if d == 2 { '2' }
    else if d == 3 { '3' }
    else if d == 4 { '4' }
    else if d == 5 { '5' }
    else if d == 6 { '6' }
    else if d == 7 { '7' }
    else if d == 8 { '8' }
    else if d == 9 { '9' }
    else if d == 10 { 'a' }
    else if d == 11 { 'b' }
    else if d == 12 { 'c' }
    else if d == 13 { 'd' }
    else if d == 14 { 'e' }
    else { 'f' }
}

/// `n` written in base `base` (2 to 16) with no leading zeros, as `format!` writes it.
pub open spec fn radix_text(n: nat, base: nat) -> Seq<char>
    recommends
        2 <= base <= 16,
    decreases n,
{
    if n < base || base < 2 {
        seq![digit_char(n)]
    } else {
        proof {
            lemma_quotient_smaller(n, base);
        }
        radix_text(n / base, base).push(digit_char(n % base))
    }
}

/// Dividing by a base of at least two makes a positive number smaller.
pub proof fn lemma_quotient_smaller(n: nat, base: nat)
    requires
        2 <= base <= n,
    ensures
        n / base < n,
{
    assert(n / base < n) by (nonlinear_arith)
        requires
            2 <= base <= n,
    ;
}

/// `n` in decimal, as `format!("{n}")` writes it.
pub open spec fn decimal_text(n: nat) -> Seq<char> {
    radix_text(n, 10)
}

/// `n` in lower-case hexadecimal, as `format!("{n:x}")` writes it.
pub open spec fn hex_text(n: nat) -> Seq<char> {
    radix_text(n, 16)
}

fn digit(d: u64) -> (c: char)
    requires
        d < 16,
    ensures
        c == digit_char(d as nat),
{
    match d {
        0 => '0',
        1 => '1',
        2 => '2',
        3 => '3',
        4 => '4',
        5 => '5',
        6 => '6',
        7 => '7',
        8 => '8',
        9 => '9',
        10 => 'a',
        11 => 'b',
        12 => 'c',
        13 => 'd',
        14 => 'e',
        _ => 'f',
    }
}

/// `String::push`: appends one character.
#[verifier::external_body]
fn string_push(s: &mut String, c: char)
    ensures
        final(s)@ == old(s)@.push(c),
{
    s.push(c);
}

fn push_radix(s: &mut String, n: u64, base: u64)
    requires
        2 <= base <= 16,
    ensures
        final(s)@ == old(s)@ + radix_text(n as nat, base as nat),
    decreases n,
{
    if n >= base {
        proof {
            lemma_quotient_smaller(n as nat, base as nat);
        }
        push_radix(s, n / base, base);
    }
    string_push(s, digit(n % base));
    if n < base {
        assert(n % base == n) by (nonlinear_arith)
            requires
                n < base,
        ;
    }
    assert(s@ =~= old(s)@ + radix_text(n as nat, base as nat));
}

/// Appends the decimal digits of `n` to `s`.
pub fn push_decimal(s: &mut String, n: u64)
    ensures
        final(s)@ == old(s)@ + decimal_text(n as nat),
{
    push_radix(s, n, 10);
}

/// Appends the lower-case hexadecimal digits of `n` to `s`.
pub fn push_hex(s: &mut String, n: u64)
    ensures
        final(s)@ == old(s)@ + hex_text(n as nat),
{
    push_radix(s, n, 16);
}


/// The code of `c` with the ASCII capitals 'A' to 'Z' mapped to 'a' to 'z'
/// (`char::to_ascii_lowercase`).
pub open spec fn ascii_lower_code(c: char) -> u32 {
    let v = c as u32;
    if 65 <= v <= 90 {
        (v + 32) as u32
    } else {
        v
    }
}

/// `str::eq_ignore_ascii_case`: the strings are equal once ASCII letters
/// are compared without regard to case.
pub open spec fn eq_ignore_ascii_case(a: Seq<char>, b: Seq<char>) -> bool {
    &&& a.len() == b.len()
    &&& forall|i: int| 0 <= i < a.len() ==> ascii_lower_code(a[i]) == ascii_lower_code(b[i])
}

fn lower_code(c: char) -> (r: u32)
    ensures
        r == ascii_lower_code(c),
{
    let v = c as u32;
    if 65 <= v && v <= 90 {
        v + 32
    } else {
        v
    }
}

/// Compares two strings without regard to the case of ASCII letters.
pub fn equal_ignoring_ascii_case(a: &str, b: &str) -> (r: bool)
    ensures
        r == eq_ignore_ascii_case(a@, b@),
{
    let n = a.unicode_len();
    if n != b.unicode_len() {
        return false;
    }
    let mut i: usize = 0;
    while i < n
        invariant
            n == a@.len() == b@.len(),
            i <= n,
            forall|j: int| 0 <= j < i ==> ascii_lower_code(a@[j]) == ascii_lower_code(b@[j]),
        decreases n - i,
    {
        if lower_code(a.get_char(i)) != lower_code(b.get_char(i)) {
            return false;
        }
        i = i + 1;
    }
    true
}

/// A character that writes a digit in lower-case hexadecimal (and so in
/// any base up to 16).
pub open spec fn is_hex_digit(c: char) -> bool {
    ('0' <= c <= '9') || ('a' <= c <= 'f')
}

proof fn lemma_digit_char_distinct(d: nat)
    requires
        d < 16,
    ensures
        is_hex_digit(digit_char(d)),
        forall|e: nat| e < 16 && digit_char(e) == digit_char(d) ==> e == d,
{
}

/// A number written in base `base` is one character long below `base` and
/// longer from there on, and consists of digit characters only.
pub proof fn lemma_radix_text_shape(n: nat, base: nat)
    requires
        2 <= base <= 16,
    ensures
        n < base ==> radix_text(n, base).len() == 1,
        n >= base ==> radix_text(n, base).len() >= 2,
        forall|i: int| 0 <= i < radix_text(n, base).len() ==> is_hex_digit(#[trigger] radix_text(n, base)[i]),
    decreases n,
{
    if n >= base {
        lemma_quotient_smaller(n, base);
        lemma_radix_text_shape(n / base, base);
        lemma_digit_char_distinct(n % base);
        let prefix = radix_text(n / base, base);
        assert(radix_text(n, base) == prefix.push(digit_char(n % base)));
        assert forall|i: int| 0 <= i < radix_text(n, base).len() implies is_hex_digit(
            #[trigger] radix_text(n, base)[i],
        ) by {
            if i < prefix.len() {
                assert(radix_text(n, base)[i] == prefix[i]);
            }
        }
    } else {
        lemma_digit_char_distinct(n);
    }
}

/// Distinct numbers are written differently in the same base.
pub proof fn lemma_radix_text_injective(a: nat, b: nat, base: nat)
    requires
        2 <= base <= 16,
        radix_text(a, base) == radix_text(b, base),
    ensures
        a == b,
    decreases a,
{
    lemma_radix_text_shape(a, base);
    lemma_radix_text_shape(b, base);
    if a < base && b < base {
        assert(radix_text(a, base)[0] == digit_char(a));
        assert(radix_text(b, base)[0] == digit_char(b));
        lemma_digit_char_distinct(a);
    } else if a >= base && b >= base {
        let ta = radix_text(a, base);
        let tb = radix_text(b, base);
        assert(ta.last() == digit_char(a % base));
        assert(tb.last() == digit_char(b % base));
        lemma_digit_char_distinct(a % base);
        assert(a % base == b % base);
        assert(ta.drop_last() =~= radix_text(a / base, base));
        assert(tb.drop_last() =~= radix_text(b / base, base));
        lemma_quotient_smaller(a, base);
        lemma_radix_text_injective(a / base, b / base, base);
        assert(a == base * (a / base) + a % base) by (nonlinear_arith)
            requires
                base >= 2,
        ;
        assert(b == base * (b / base) + b % base) by (nonlinear_arith)
            requires
                base >= 2,
        ;
    }
}

/// Distinct numbers are written differently in decimal.
pub proof fn lemma_decimal_text_injective(a: nat, b: nat)
    requires
        decimal_text(a) == decimal_text(b),
    ensures
        a == b,
{
    lemma_radix_text_injective(a, b, 10);
}

} // verus!
