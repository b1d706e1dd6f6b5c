//! A verified rectangle type behind a shape trait: dimensions, area, and
//! comparisons that order shapes by their area.

use std::cmp::Ordering;
use vstd::prelude::*;

use crate::decimal::all_digits;
use crate::decimal::digits_val;
use crate::decimal::i32_decimal;
use crate::decimal::int_to_decimal;
use crate::decimal::is_i32_literal;
use crate::decimal::lemma_digits_val_nonneg;
use crate::decimal::lemma_digits_val_take_le;
use crate::decimal::literal_digits;
use crate::decimal::literal_val;

verus! {

/// A planar figure with rectangular dimensions and a display name. Every
/// implementor exposes its state through the three spec functions, and the
/// executable methods are specified against them.
pub trait Shape {
    /// The length, as a mathematical integer.
    spec fn spec_length(&self) -> int;

    /// The width, as a mathematical integer.
    spec fn spec_width(&self) -> int;

    /// The display name.
    spec fn spec_name(&self) -> &'static str;

    /// The area: length times width.
    fn area(&self) -> (a: i32)
        requires
            i32::MIN <= self.spec_length() * self.spec_width() <= i32::MAX,
        ensures
            a == self.spec_length() * self.spec_width(),
    ;

    /// Replaces the length, leaving the other fields alone.
    fn set_length(&mut self, length: i32)
        ensures
            final(self).spec_length() == length,
            final(self).spec_width() == old(self).spec_width(),
            final(self).spec_name() == old(self).spec_name(),
    ;

    /// The length.
    fn get_length(&self) -> (l: i32)
        ensures
            l == self.spec_length(),
    ;

    /// Replaces the width, leaving the other fields alone.
    fn set_width(&mut self, width: i32)
        ensures
            final(self).spec_width() == width,
            final(self).spec_length() == old(self).spec_length(),
            final(self).spec_name() == old(self).spec_name(),
    ;

    /// The width.
    fn get_width(&self) -> (w: i32)
        ensures
            w == self.spec_width(),
    ;

    /// Replaces the name, leaving the dimensions alone.
    fn set_name(&mut self, name: &'static str)
        ensures
            final(self).spec_name() == name,
            final(self).spec_length() == old(self).spec_length(),
            final(self).spec_width() == old(self).spec_width(),
    ;

    /// The name.
    fn get_name(&self) -> (n: &'static str)
        ensures
            n == self.spec_name(),
    ;
}

/// Index of the first comma at or after `from`, or the length if there is
/// none.
pub open spec fn comma_ix(s: Seq<char>, from: int) -> int
    recommends
        0 <= from <= s.len(),
    decreases s.len() - from,
{
    if from < 0 || from >= s.len() {
        s.len() as int
    } else if s[from] == ',' {
        from
    } else {
        comma_ix(s, from + 1)
    }
}

/// Index of the first comma in `s` at or after `from`.
fn find_comma(s: &str, from: usize) -> (ix: usize)
    requires
        from <= s@.len(),
    ensures
        ix == comma_ix(s@, from as int),
        from <= ix <= s@.len(),
{
    let n = s.unicode_len();
    let mut i: usize = from;
    while i < n
        invariant
            from <= i <= n,
            n == s@.len(),
            comma_ix(s@, from as int) == comma_ix(s@, i as int),
        decreases n - i,
    {
        if s.get_char(i) == ',' {
            return i;
        }
        i = i + 1;
    }
    n
}

/// The value of the signed decimal literal standing at `s[from..to]`.
fn parse_field(s: &str, from: usize, to: usize) -> (val: i32)
    requires
        from <= to <= s@.len(),
        is_i32_literal(s@.subrange(from as int, to as int)),
    ensures
        val == literal_val(s@.subrange(from as int, to as int)),
{
    let ghost lit = s@.subrange(from as int, to as int);
    let mut start: usize = from;
    let mut neg = false;
    let c0 = s.get_char(from);
    if c0 == '-' {
        neg = true;
        start = from + 1;
    } else if c0 == '+' {
        start = from + 1;
    }
    let ghost digits = literal_digits(lit);
    proof {
        assert(digits =~= s@.subrange(start as int, to as int));
        assert(digits_val(digits) <= 0x8000_0000);
        lemma_digits_val_nonneg(digits);
    }
    let mut acc: i64 = 0;
    let mut i: usize = start;
    while i < to
        invariant
            start <= i <= to <= s@.len(),
            digits == s@.subrange(start as int, to as int),
            all_digits(digits),
            0 <= digits_val(digits) <= 0x8000_0000,
            acc == digits_val(s@.subrange(start as int, i as int)),
            0 <= acc,
        decreases to - i,
    {
        proof {
            assert(digits.take(i - start) =~= s@.subrange(start as int, i as int));
            assert(digits.take(i + 1 - start) =~= s@.subrange(start as int, i + 1 as int));
            assert(digits.take(i + 1 - start).drop_last() =~= digits.take(i - start));
            lemma_digits_val_take_le(digits, i + 1 - start);
        }
        let c = s.get_char(i);
        let d: u32 = (c as u32) - 48;
        acc = acc * 10 + (d as i64);
        i = i + 1;
    }
    if neg {
        (-acc) as i32
    } else {
        acc as i32
    }
}

/// A rectangle with a display name. Rectangles compare by area, not by
/// their individual fields.
#[derive(Debug, Clone)]
pub struct Rect {
    /// Vertical extent.
    pub length: i32,
    /// Horizontal extent.
    pub width: i32,
    /// Display name.
    pub name: &'static str,
}

impl Rect {
    /// A rectangle with the given dimensions and name.
    pub fn new(length: i32, width: i32, name: &'static str) -> (r: Rect)
        ensures
            r.length == length,
            r.width == width,
            r.name == name,
    {
        Rect { length, width, name }
    }

    /// The rectangle's area as a mathematical integer.
    pub open spec fn spec_area(&self) -> int {
        self.length * self.width
    }

    /// Builds a rectangle from text of the form `"length,width,name"`:
    /// the first two comma-separated fields are signed decimal numbers, the
    /// third is the name. A missing width or name counts as zero or the
    /// empty name; fields past the third are ignored. The numeric fields
    /// that are present must be well-formed — that is what the precondition
    /// says — since there is no error channel here.
    pub fn from(s: &'static str) -> (r: Rect)
        requires
            ({
                let v = s@;
                let i1 = comma_ix(v, 0);
                &&& is_i32_literal(v.subrange(0, i1))
                &&& (i1 < v.len() ==> is_i32_literal(
                    v.subrange(i1 + 1, comma_ix(v, i1 + 1)),
                ))
            }),
        ensures
            ({
                let v = s@;
                let i1 = comma_ix(v, 0);
                let i2 = comma_ix(v, i1 + 1);
                &&& r.length == literal_val(v.subrange(0, i1))
                &&& (i1 == v.len() ==> r.width == 0 && r.name@ == Seq::<char>::empty())
                &&& (i1 < v.len() ==> r.width == literal_val(v.subrange(i1 + 1, i2)))
                &&& (i1 < v.len() && i2 == v.len() ==> r.name@ == Seq::<char>::empty())
                &&& (i1 < v.len() && i2 < v.len() ==> r.name@ == v.subrange(
                    i2 + 1,
                    comma_ix(v, i2 + 1),
                ))
            }),
    {
        let n = s.unicode_len();
        let i1 = find_comma(s, 0);
        let length = parse_field(s, 0, i1);
        proof {
            reveal_strlit("");
            assert(""@ =~= Seq::<char>::empty());
        }
        if i1 == n {
            Rect { length, width: 0, name: "" }
        } else {
            let i2 = find_comma(s, i1 + 1);
            let width = parse_field(s, i1 + 1, i2);
            if i2 == n {
                Rect { length, width, name: "" }
            } else {
                let i3 = find_comma(s, i2 + 1);
                let name = s.substring_char(i2 + 1, i3);
                Rect { length, width, name }
            }
        }
    }

    /// The rectangle described in words: its name and its area in decimal.
    pub fn describe(&self) -> (d: String)
        requires
            i32::MIN <= self.spec_area() <= i32::MAX,
        ensures
            d@ == "My name is "@ + self.name@ + " and my area is "@ + i32_decimal(
                self.spec_area(),
            ) + "."@,
    {
        let mut d = "My name is ".to_owned();
        d.append(self.name);
        d.append(" and my area is ");
        let area = self.area();
        let numeral = int_to_decimal(area);
        d.append(numeral.as_str());
        d.append(".");
        proof {
            assert(d@ =~= "My name is "@ + self.name@ + " and my area is "@ + i32_decimal(
                self.spec_area(),
            ) + "."@);
        }
        d
    }
}

impl Default for Rect {
    /// The unit square with the default name.
    fn default() -> (r: Self)
        ensures
            r.length == 1,
            r.width == 1,
            r.name@ == "default_name"@,
    {
        Rect { length: 1, width: 1, name: "default_name" }
    }
}

impl Shape for Rect {
    open spec fn spec_length(&self) -> int {
        self.length as int
    }

    open spec fn spec_width(&self) -> int {
        self.width as int
    }

    open spec fn spec_name(&self) -> &'static str {
        self.name
    }

    fn area(&self) -> (a: i32) {
        self.length * self.width
    }

    fn set_length(&mut self, length: i32) {
        self.length = length;
    }

    fn get_length(&self) -> (l: i32) {
        self.length
    }

    fn set_width(&mut self, width: i32) {
        self.width = width;
    }

    fn get_width(&self) -> (w: i32) {
        self.width
    }

    fn set_name(&mut self, name: &'static str) {
        self.name = name;
    }

    fn get_name(&self) -> (n: &'static str) {
        self.name
    }
}

/// The product of two `i32` values fits comfortably in an `i64`.
proof fn lemma_area_fits_i64(length: int, width: int)
    requires
        i32::MIN <= length <= i32::MAX,
        i32::MIN <= width <= i32::MAX,
    ensures
        i64::MIN <= length * width <= i64::MAX,
{
    assert(i64::MIN <= length * width <= i64::MAX) by (nonlinear_arith)
        requires
            -0x8000_0000 <= length <= 0x7fff_ffff,
            -0x8000_0000 <= width <= 0x7fff_ffff,
    ;
}

impl PartialEq for Rect {
    /// Rectangles are equal when their areas are equal.
    fn eq(&self, other: &Self) -> (r: bool) {
        proof {
            lemma_area_fits_i64(self.length as int, self.width as int);
            lemma_area_fits_i64(other.length as int, other.width as int);
        }
        let a: i64 = (self.length as i64) * (self.width as i64);
        let b: i64 = (other.length as i64) * (other.width as i64);
        a == b
    }
}

impl vstd::std_specs::cmp::PartialEqSpecImpl for Rect {
    open spec fn obeys_eq_spec() -> bool {
        true
    }

    open spec fn eq_spec(&self, other: &Self) -> bool {
        self.spec_area() == other.spec_area()
    }
}

impl PartialOrd for Rect {
    /// Rectangles order by area; the order is total.
    fn partial_cmp(&self, other: &Self) -> (r: Option<Ordering>) {
        proof {
            lemma_area_fits_i64(self.length as int, self.width as int);
            lemma_area_fits_i64(other.length as int, other.width as int);
        }
        let a: i64 = (self.length as i64) * (self.width as i64);
        let b: i64 = (other.length as i64) * (other.width as i64);
        if a < b {
            Some(Ordering::Less)
        } else if a == b {
            Some(Ordering::Equal)
        } else {
            Some(Ordering::Greater)
        }
    }
}

impl vstd::std_specs::cmp::PartialOrdSpecImpl for Rect {
    open spec fn obeys_partial_cmp_spec() -> bool {
        true
    }

    open spec fn partial_cmp_spec(&self, other: &Self) -> Option<Ordering> {
        if self.spec_area() < other.spec_area() {
            Some(Ordering::Less)
        } else if self.spec_area() == other.spec_area() {
            Some(Ordering::Equal)
        } else {
            Some(Ordering::Greater)
        }
    }
}

} // verus!
