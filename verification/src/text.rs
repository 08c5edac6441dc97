//! Text helpers: UTF-8 decoding of raw script strings and decimal notation
//! of script integers.

use vstd::prelude::*;
use vstd::string::*;
use vstd::utf8::*;

verus! {

/// The character of a decimal digit.
pub open spec fn digit_char(d: nat) -> char
    recommends
        d < 10,
{
    if d == 0 { '0' }
    else if d == 1 { '1' }
    else if d == 2 { '2' }
    else if d == 3 { '3' }
    else if d == 4 { '4' }
    else if d == 5 { '5' }
    else if d == 6 { '6' }
    else if d == 7 { '7' }
    else if d == 8 { '8' }
    else { '9' }
}

/// The value of a decimal digit character.
pub open spec fn char_digit(c: char) -> int {
    if c == '1' { 1 }
    else if c == '2' { 2 }
    else if c == '3' { 3 }
    else if c == '4' { 4 }
    else if c == '5' { 5 }
    else if c == '6' { 6 }
    else if c == '7' { 7 }
    else if c == '8' { 8 }
    else if c == '9' { 9 }
    else { 0 }
}

/// The decimal digits of a natural number, most significant first, without
/// leading zeros (zero itself is `"0"`).
pub open spec fn nat_digits(n: nat) -> Seq<char>
    decreases n,
{
    if n < 10 {
        seq![digit_char(n)]
    } else {
        nat_digits(n / 10).push(digit_char(n % 10))
    }
}

/// The decimal notation of an integer: a minus sign before the digits of
/// its magnitude when it is negative.
pub open spec fn decimal_text(i: int) -> Seq<char> {
    if i < 0 {
        seq!['-'] + nat_digits((-i) as nat)
    } else {
        nat_digits(i as nat)
    }
}

/// The value of a sequence of decimal digit characters.
pub open spec fn digits_value(s: Seq<char>) -> int
    decreases s.len(),
{
    if s.len() == 0 {
        0
    } else {
        digits_value(s.drop_last()) * 10 + char_digit(s.last())
    }
}

/// Whether a character is one of the ten decimal digits.
pub open spec fn is_digit(c: char) -> bool {
    '0' <= c && c <= '9'
}

/// The integer that a decimal notation denotes: the value of its digits,
/// negated when it starts with a minus sign.
pub open spec fn decimal_value(s: Seq<char>) -> int {
    if s.len() > 0 && s[0] == '-' {
        -digits_value(s.drop_first())
    } else {
        digits_value(s)
    }
}

/// Wraps `std::str::from_utf8`. Its documentation promises `Ok` exactly when
/// the bytes are valid UTF-8, and then a string slice whose bytes are the
/// argument; that is what this states, in vstd's terms.
#[verifier::external_body]
pub(crate) fn utf8_str(bytes: &[u8]) -> (r: Option<&str>)
    ensures
        r is Some <==> valid_utf8(bytes@),
        r matches Some(s) ==> encode_utf8(s@) == bytes@,
{
    std::str::from_utf8(bytes).ok()
}

/// Wraps `String::push`, which appends the given character to the end of
/// the string.
#[verifier::external_body]
pub(crate) fn push_char(s: &mut String, c: char)
    ensures
        final(s)@ == old(s)@.push(c),
{
    s.push(c);
}

/// Whether two texts are the same.
pub fn same_text(a: &str, b: &str) -> (r: bool)
    ensures
        r == (a@ == b@),
{
    let a: String = a.to_owned();
    let b: String = b.to_owned();
    a == b
}

/// Decodes script text as the scripting runtime does when it asks for a
/// Rust string: valid UTF-8 gives its characters, anything else gives
/// nothing.
pub fn text_or_empty(bytes: &[u8]) -> (r: String)
    ensures
        valid_utf8(bytes@) ==> r@ == decode_utf8(bytes@),
        !valid_utf8(bytes@) ==> r@ == Seq::<char>::empty(),
{
    match utf8_str(bytes) {
        Some(s) => {
            proof {
                encode_utf8_decode_utf8(s@);
            }
            s.to_owned()
        },
        None => String::new(),
    }
}

fn digit(d: u64) -> (c: char)
    requires
        d < 10,
    ensures
        c == digit_char(d as nat),
{
    if d == 0 { '0' }
    else if d == 1 { '1' }
    else if d == 2 { '2' }
    else if d == 3 { '3' }
    else if d == 4 { '4' }
    else if d == 5 { '5' }
    else if d == 6 { '6' }
    else if d == 7 { '7' }
    else if d == 8 { '8' }
    else { '9' }
}

fn push_digits(out: &mut String, n: u64)
    ensures
        final(out)@ == old(out)@ + nat_digits(n as nat),
    decreases n,
{
    if n >= 10 {
        push_digits(out, n / 10);
    }
    push_char(out, digit(n % 10));
}

/// Appends the decimal notation of a script integer, as `i64`'s
/// `to_string` writes it.
pub fn push_decimal(out: &mut String, i: i64)
    ensures
        final(out)@ == old(out)@ + decimal_text(i as int),
{
    if i < 0 {
        push_char(out, '-');
        let magnitude: u64 = (-(i as i128)) as u64;
        let ghost before = out@;
        push_digits(out, magnitude);
        assert(out@ =~= before + nat_digits(magnitude as nat));
    } else {
        push_digits(out, i as u64);
    }
}

/// The decimal notation of a script integer.
pub fn decimal(i: i64) -> (r: String)
    ensures
        r@ == decimal_text(i as int),
{
    let mut out = String::new();
    push_decimal(&mut out, i);
    assert(out@ =~= decimal_text(i as int));
    out
}

proof fn lemma_nat_digits(n: nat)
    ensures
        nat_digits(n).len() >= 1,
        forall|k: int| 0 <= k < nat_digits(n).len() ==> is_digit(#[trigger] nat_digits(n)[k]),
        nat_digits(n)[0] == '0' ==> n == 0,
        digits_value(nat_digits(n)) == n,
    decreases n,
{
    if n < 10 {
        let s = nat_digits(n);
        assert(s.drop_last() =~= Seq::<char>::empty());
        assert(char_digit(digit_char(n)) == n);
        assert(digits_value(s) == digits_value(s.drop_last()) * 10 + char_digit(s.last()));
    } else {
        lemma_nat_digits(n / 10);
        let s = nat_digits(n);
        assert(s.drop_last() =~= nat_digits(n / 10));
        let d = (n % 10) as nat;
        assert(char_digit(digit_char(d)) == d);
        assert(digits_value(s) == digits_value(s.drop_last()) * 10 + char_digit(s.last()));
    }
}

/// Every integer's decimal notation has at least one digit.
pub proof fn law_decimal_length(i: int)
    ensures
        decimal_text(i).len() >= if i < 0 { 2int } else { 1int },
{
    if i < 0 {
        lemma_nat_digits((-i) as nat);
    } else {
        lemma_nat_digits(i as nat);
    }
}

/// Integer notation is exact: every integer's decimal notation is made of
/// decimal digits after an optional minus sign, has no leading zero, and
/// reading it back gives the integer.
pub proof fn law_decimal_denotes(i: int)
    ensures
        decimal_value(decimal_text(i)) == i,
        i < 0 <==> decimal_text(i)[0] == '-',
        forall|k: int|
            (if i < 0 { 1int } else { 0int }) <= k < decimal_text(i).len() ==> is_digit(
                #[trigger] decimal_text(i)[k],
            ),
        decimal_text(i)[if i < 0 { 1int } else { 0int }] == '0' ==> i == 0,
{
    if i < 0 {
        let m = (-i) as nat;
        lemma_nat_digits(m);
        let t = decimal_text(i);
        assert(t.drop_first() =~= nat_digits(m));
        assert forall|k: int| 1 <= k < t.len() implies is_digit(#[trigger] t[k]) by {
            assert(t[k] == nat_digits(m)[k - 1]);
        }
    } else {
        lemma_nat_digits(i as nat);
    }
}

} // verus!
