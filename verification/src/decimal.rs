//! Signed decimal numerals: what a digit string is worth, and a verified
//! renderer from a 32-bit integer to its decimal text. Reading and rendering
//! are exact inverses, which [`lemma_decimal_round_trip`] states.

use vstd::prelude::*;

verus! {

/// Whether `c` is a decimal digit.
pub open spec fn is_digit(c: char) -> bool {
    0x30 <= c as u32 <= 0x39
}

/// Every character of `s` is a decimal digit.
pub open spec fn all_digits(s: Seq<char>) -> bool {
    forall|i: int| 0 <= i < s.len() ==> is_digit(s[i])
}

/// The value of a digit sequence read in base ten.
pub open spec fn digits_val(s: Seq<char>) -> int
    recommends
        all_digits(s),
    decreases s.len(),
{
    if s.len() == 0 {
        0
    } else {
        digits_val(s.drop_last()) * 10 + (s.last() as u32 - 0x30)
    }
}

/// The digit part of a signed decimal literal: everything after the
/// optional leading sign.
pub open spec fn literal_digits(s: Seq<char>) -> Seq<char> {
    if s.len() > 0 && (s[0] == '-' || s[0] == '+') {
        s.drop_first()
    } else {
        s
    }
}

/// The value of a signed decimal literal.
pub open spec fn literal_val(s: Seq<char>) -> int {
    if s.len() > 0 && s[0] == '-' {
        -digits_val(literal_digits(s))
    } else {
        digits_val(literal_digits(s))
    }
}

/// A well-formed signed 32-bit decimal literal: an optional sign, then at
/// least one digit, with a value that fits in an `i32`.
pub open spec fn is_i32_literal(s: Seq<char>) -> bool {
    &&& literal_digits(s).len() > 0
    &&& all_digits(literal_digits(s))
    &&& i32::MIN <= literal_val(s) <= i32::MAX
}

/// A digit string's value is never negative.
pub proof fn lemma_digits_val_nonneg(s: Seq<char>)
    requires
        all_digits(s),
    ensures
        digits_val(s) >= 0,
    decreases s.len(),
{
    if s.len() > 0 {
        assert(all_digits(s.drop_last()));
        lemma_digits_val_nonneg(s.drop_last());
    }
}

/// Reading more digits never makes the value smaller: every prefix of a
/// digit string is worth at most the whole string.
pub proof fn lemma_digits_val_take_le(s: Seq<char>, i: int)
    requires
        all_digits(s),
        0 <= i <= s.len(),
    ensures
        digits_val(s.take(i)) <= digits_val(s),
    decreases s.len() - i,
{
    if i < s.len() {
        assert(s.take(i + 1).drop_last() =~= s.take(i));
        assert(all_digits(s.take(i)));
        lemma_digits_val_nonneg(s.take(i));
        lemma_digits_val_take_le(s, i + 1);
    } else {
        assert(s.take(i) =~= s);
    }
}

/// The digit character for a value below ten.
pub open spec fn digit_char(d: int) -> char
    recommends
        0 <= d < 10,
{
    if d == 0 {
        '0'
    } else if d == 1 {
        '1'
    } else if d == 2 {
        '2'
    } else if d == 3 {
        '3'
    } else if d == 4 {
        '4'
    } else if d == 5 {
        '5'
    } else if d == 6 {
        '6'
    } else if d == 7 {
        '7'
    } else if d == 8 {
        '8'
    } else {
        '9'
    }
}

/// The decimal digits of a non-negative number, most significant first;
/// zero renders as no digits at all.
pub open spec fn dec_digits(m: int) -> Seq<char>
    recommends
        m >= 0,
    decreases m,
{
    if m <= 0 {
        Seq::empty()
    } else {
        proof {
            vstd::arithmetic::div_mod::lemma_div_decreases(m, 10);
        }
        dec_digits(m / 10).push(digit_char(m % 10))
    }
}

/// The decimal text of a 32-bit integer: a minus sign for negative numbers,
/// a single zero for zero, and the plain digits otherwise.
pub open spec fn i32_decimal(v: int) -> Seq<char> {
    if v == 0 {
        seq!['0']
    } else if v < 0 {
        seq!['-'] + dec_digits(-v)
    } else {
        dec_digits(v)
    }
}

/// The digits of `m` read back as the value `m`, and they really are digits.
pub proof fn lemma_dec_digits(m: int)
    requires
        m >= 0,
    ensures
        all_digits(dec_digits(m)),
        digits_val(dec_digits(m)) == m,
        dec_digits(m).len() > 0 <==> m > 0,
    decreases m,
{
    if m > 0 {
        vstd::arithmetic::div_mod::lemma_div_decreases(m, 10);
        vstd::arithmetic::div_mod::lemma_div_pos_is_pos(m, 10);
        vstd::arithmetic::div_mod::lemma_fundamental_div_mod(m, 10);
        vstd::arithmetic::div_mod::lemma_mod_division_less_than_divisor(m, 10);
        lemma_dec_digits(m / 10);
        let whole = dec_digits(m);
        assert(whole.drop_last() =~= dec_digits(m / 10));
        assert(digit_char(m % 10) as u32 == 0x30 + m % 10);
    }
}

/// Reading the rendered text of a 32-bit integer gives the integer back.
pub proof fn lemma_decimal_round_trip(v: int)
    requires
        i32::MIN <= v <= i32::MAX,
    ensures
        is_i32_literal(i32_decimal(v)),
        literal_val(i32_decimal(v)) == v,
{
    let s = i32_decimal(v);
    if v == 0 {
        assert(s.drop_last() =~= Seq::<char>::empty());
        assert(digits_val(Seq::<char>::empty()) == 0);
        assert(s.last() == '0');
        assert(digits_val(s) == 0);
    } else if v < 0 {
        lemma_dec_digits(-v);
        assert(s[0] == '-');
        assert(literal_digits(s) =~= dec_digits(-v));
    } else {
        lemma_dec_digits(v);
        assert(is_digit(s[0]));
        assert(s[0] != '-' && s[0] != '+');
    }
}

/// Appends one digit character.
fn append_digit(out: &mut String, d: u32)
    requires
        d < 10,
    ensures
        final(out)@ == old(out)@ + seq![digit_char(d as int)],
{
    proof {
        reveal_strlit("0");
        reveal_strlit("1");
        reveal_strlit("2");
        reveal_strlit("3");
        reveal_strlit("4");
        reveal_strlit("5");
        reveal_strlit("6");
        reveal_strlit("7");
        reveal_strlit("8");
        reveal_strlit("9");
    }
    match d {
        0 => out.append("0"),
        1 => out.append("1"),
        2 => out.append("2"),
        3 => out.append("3"),
        4 => out.append("4"),
        5 => out.append("5"),
        6 => out.append("6"),
        7 => out.append("7"),
        8 => out.append("8"),
        _ => out.append("9"),
    }
    proof {
        assert(out@ =~= old(out)@ + seq![digit_char(d as int)]);
    }
}

/// Appends the decimal digits of `m`, most significant first; appends
/// nothing for zero.
fn push_decimal(out: &mut String, m: u32)
    ensures
        final(out)@ == old(out)@ + dec_digits(m as int),
    decreases m,
{
    if m == 0 {
        proof {
            assert(out@ =~= old(out)@ + dec_digits(0));
        }
    } else {
        proof {
            vstd::arithmetic::div_mod::lemma_div_decreases(m as int, 10);
        }
        push_decimal(out, m / 10);
        append_digit(out, m % 10);
        proof {
            assert(out@ =~= old(out)@ + dec_digits(m as int));
        }
    }
}

/// Renders a 32-bit integer as decimal text.
pub fn int_to_decimal(v: i32) -> (s: String)
    ensures
        s@ == i32_decimal(v as int),
{
    let mut out = String::new();
    if v == 0 {
        proof {
            reveal_strlit("0");
        }
        out.append("0");
        proof {
            assert(out@ =~= i32_decimal(0));
        }
        return out;
    }
    let m: u32 = if v < 0 {
        proof {
            reveal_strlit("-");
        }
        out.append("-");
        (-(v as i64)) as u32
    } else {
        v as u32
    };
    push_decimal(&mut out, m);
    proof {
        assert(out@ =~= i32_decimal(v as int));
    }
    out
}

} // verus!
