//! Qualified field paths.
//!
//! A mismatch is reported under a path that tells the reader where it
//! occurred:
//! - record field and named-field-variant leaf: the bare field name;
//! - positional leaf of a tuple variant: `TypeName::VariantName.index`
//!   (zero-based decimal index);
//! - whole-variant mismatch of a multivariant union: `TypeName::VariantName`.

use vstd::prelude::*;

verus! {

/// The decimal digit character for `d` (`d < 10`; larger values fall back
/// to `'9'` and never arise from `decimal_digits`).
pub open spec fn decimal_digit_char(d: nat) -> char {
    if d == 0 {
        '0'
    } else if d == 1 {
        '1'
    } else if d == 2 {
        '2'
    } else if d == 3 {
        '3'
    } else if d == 4 {
        '4'
    } else if d == 5 {
        '5'
    } else if d == 6 {
        '6'
    } else if d == 7 {
        '7'
    } else if d == 8 {
        '8'
    } else {
        '9'
    }
}

/// The decimal rendering of `n`, most significant digit first.
pub open spec fn decimal_digits(n: nat) -> Seq<char>
    decreases n,
{
    if n < 10 {
        seq![decimal_digit_char(n)]
    } else {
        decimal_digits(n / 10).push(decimal_digit_char(n % 10))
    }
}

/// The `TypeName::VariantName` label of a variant.
pub open spec fn variant_label(ty_name: Seq<char>, variant_name: Seq<char>) -> Seq<char> {
    ty_name + "::"@ + variant_name
}

/// The path of the positional leaf `i` of a tuple variant.
pub open spec fn tuple_slot_name(
    ty_name: Seq<char>,
    variant_name: Seq<char>,
    i: nat,
) -> Seq<char> {
    variant_label(ty_name, variant_name) + "."@ + decimal_digits(i)
}

/// The one-character string for the decimal digit `d`.
fn digit_str(d: usize) -> (r: &'static str)
    requires
        d < 10,
    ensures
        r@ == seq![decimal_digit_char(d as nat)],
{
    proof {
        reveal_strlit("0");
        reveal_strlit("1");
        reveal_strlit("2");
        reveal_strlit("3");
        reveal_strlit("4");
        reveal_strlit("5");
        reveal_strlit("6");
        reveal_strlit("7");
        reveal_strlit("8");
        reveal_strlit("9");
    }
    let r: &'static str = if d == 0 {
        "0"
    } else if d == 1 {
        "1"
    } else if d == 2 {
        "2"
    } else if d == 3 {
        "3"
    } else if d == 4 {
        "4"
    } else if d == 5 {
        "5"
    } else if d == 6 {
        "6"
    } else if d == 7 {
        "7"
    } else if d == 8 {
        "8"
    } else {
        "9"
    };
    proof {
        assert(r@ =~= seq![decimal_digit_char(d as nat)]);
    }
    r
}

/// Appends the decimal rendering of `n` to `out`.
pub fn append_decimal(out: &mut String, n: usize)
    ensures
        final(out)@ == old(out)@ + decimal_digits(n as nat),
    decreases n,
{
    if n < 10 {
        out.append(digit_str(n));
    } else {
        append_decimal(out, n / 10);
        out.append(digit_str(n % 10));
    }
    proof {
        assert(final(out)@ =~= old(out)@ + decimal_digits(n as nat));
    }
}

/// Builds the `TypeName::VariantName` label of a variant.
pub fn variant_label_of(ty_name: &String, variant_name: &String) -> (r: String)
    ensures
        r@ == variant_label(ty_name@, variant_name@),
{
    let mut r = ty_name.clone();
    r.append("::");
    r.append(variant_name.as_str());
    proof {
        assert(r@ =~= variant_label(ty_name@, variant_name@));
    }
    r
}

/// Builds the path of the positional leaf `i` of a tuple variant.
pub fn tuple_slot_name_of(ty_name: &String, variant_name: &String, i: usize) -> (r: String)
    ensures
        r@ == tuple_slot_name(ty_name@, variant_name@, i as nat),
{
    let mut r = variant_label_of(ty_name, variant_name);
    r.append(".");
    append_decimal(&mut r, i);
    proof {
        assert(r@ =~= tuple_slot_name(ty_name@, variant_name@, i as nat));
    }
    r
}

} // verus!
