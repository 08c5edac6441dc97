//! The `print` function of page scripts: the line it writes for the values
//! it is given.

use vstd::prelude::*;
use vstd::string::*;
use vstd::utf8::*;

use crate::text::{decimal_text, decimal_value, law_decimal_denotes, law_decimal_length, push_decimal, text_or_empty};

verus! {

/// A value handed to `print`.
pub enum PrintValue {
    /// A script string, as its raw bytes.
    Text(Vec<u8>),
    /// A script integer.
    Integer(i64),
    /// A script boolean.
    Boolean(bool),
    /// Any other value, with the text the host rendered for it (a float in
    /// its shortest notation, anything else in its debug form).
    Rendered(String),
}

/// The text of one value in the printed line: a string's characters (none
/// when it is not valid UTF-8), an integer's decimal notation, `true` or
/// `false`, or the rendered text.
pub open spec fn value_text(v: PrintValue) -> Seq<char> {
    match v {
        PrintValue::Text(bytes) => if valid_utf8(bytes@) {
            decode_utf8(bytes@)
        } else {
            Seq::empty()
        },
        PrintValue::Integer(i) => decimal_text(i as int),
        PrintValue::Boolean(b) => if b {
            "true"@
        } else {
            "false"@
        },
        PrintValue::Rendered(s) => s@,
    }
}

/// The printed line: the texts of the values, one after another, with
/// nothing between them.
pub open spec fn print_text(values: Seq<PrintValue>) -> Seq<char>
    decreases values.len(),
{
    if values.len() == 0 {
        Seq::empty()
    } else {
        print_text(values.drop_last()) + value_text(values.last())
    }
}

/// The line that `print` writes for the values (without its newline).
pub fn print_output(values: &Vec<PrintValue>) -> (r: String)
    ensures
        r@ == print_text(values@),
{
    let mut out = String::new();
    let mut k: usize = 0;
    while k < values.len()
        invariant
            k <= values.len(),
            out@ == print_text(values@.subrange(0, k as int)),
        decreases values.len() - k,
    {
        let ghost before = out@;
        match &values[k] {
            PrintValue::Text(bytes) => {
                let s = text_or_empty(bytes.as_slice());
                out.append(s.as_str());
            },
            PrintValue::Integer(i) => {
                push_decimal(&mut out, *i);
            },
            PrintValue::Boolean(b) => {
                if *b {
                    out.append("true");
                } else {
                    out.append("false");
                }
            },
            PrintValue::Rendered(s) => {
                out.append(s.as_str());
            },
        }
        assert(values@.subrange(0, k + 1).drop_last() =~= values@.subrange(0, k as int));
        assert(out@ == before + value_text(values@[k as int]));
        k += 1;
    }
    assert(values@.subrange(0, values.len() as int) =~= values@);
    out
}

/// Printing is piecewise: the line for two lists of values one after the
/// other is the line for the first followed by the line for the second.
pub proof fn law_print_concatenates(a: Seq<PrintValue>, b: Seq<PrintValue>)
    ensures
        print_text(a + b) == print_text(a) + print_text(b),
    decreases b.len(),
{
    if b.len() == 0 {
        assert(a + b =~= a);
        assert(print_text(b) =~= Seq::<char>::empty());
        assert(print_text(a) + print_text(b) =~= print_text(a));
    } else {
        law_print_concatenates(a, b.drop_last());
        assert((a + b).drop_last() =~= a + b.drop_last());
        assert((a + b).last() == b.last());
        assert(print_text(a + b) =~= print_text(a) + print_text(b));
    }
}

/// Each value prints as itself: an integer as its decimal notation (zero
/// included), a boolean as `true` or `false`, a valid string as its
/// characters, an invalid one as nothing, and a rendered value as its text.
pub proof fn law_print_one(v: PrintValue)
    ensures
        v matches PrintValue::Integer(i) ==> print_text(seq![v]) == decimal_text(i as int),
        v matches PrintValue::Integer(i) ==> decimal_value(print_text(seq![v])) == i && print_text(
            seq![v],
        ).len() >= 1,
        v matches PrintValue::Boolean(b) ==> print_text(seq![v]) == (if b {
            "true"@
        } else {
            "false"@
        }),
        v matches PrintValue::Text(bytes) ==> (valid_utf8(bytes@) ==> encode_utf8(
            print_text(seq![v]),
        ) == bytes@),
        v matches PrintValue::Text(bytes) ==> (!valid_utf8(bytes@) ==> print_text(seq![v]).len()
            == 0),
        v matches PrintValue::Rendered(t) ==> print_text(seq![v]) == t@,
{
    assert(seq![v].drop_last() =~= Seq::<PrintValue>::empty());
    assert(print_text(Seq::<PrintValue>::empty()) =~= Seq::<char>::empty());
    assert(seq![v].last() == v);
    assert(print_text(seq![v]) =~= value_text(v));
    match v {
        PrintValue::Integer(i) => {
            law_decimal_denotes(i as int);
            if i < 0 {
            } else {
                law_decimal_length(i as int);
            }
        },
        PrintValue::Text(bytes) => {
            if valid_utf8(bytes@) {
                decode_utf8_encode_utf8(bytes@);
            }
        },
        _ => {},
    }
}

} // verus!
