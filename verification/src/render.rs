//! The renderable capability: a value that can write itself as text in a
//! compact one-line form and in a prettified form, selected by an ambient
//! boolean flag, together with implementations for common leaf values.

use vstd::prelude::*;
use vstd::string::StringExecFns;

verus! {

/// Relies on `String::push`, which appends the given `char` to the end of
/// the `String`.
pub assume_specification[ String::push ](s: &mut String, ch: char)
    ensures
        final(s)@ == old(s)@.push(ch),
;

/// The capability of producing text in one-line or pretty form, given the
/// ambient prettiness flag. The two forms need not be textually related
/// beyond representing the same value.
pub trait Render {
    /// The text this value renders to under the given mode. An
    /// implementation that leaves this unspecified promises nothing of
    /// its rendered text.
    open spec fn render_spec(&self, alternate: bool) -> Seq<char> {
        arbitrary()
    }

    /// Renders this value: one-line when `alternate` is false, prettified
    /// when it is true.
    fn render(&self, alternate: bool) -> (r: String)
        ensures
            r@ == self.render_spec(alternate),
    ;
}

/// A pair of prepared renderings: one fixed text per mode.
pub struct Rendered {
    /// The one-line form.
    pub line: String,
    /// The prettified form.
    pub pretty: String,
}

impl Rendered {
    /// Wraps a one-line form and a pretty form as a renderable value.
    pub fn new(line: String, pretty: String) -> (r: Self)
        ensures
            r.line == line,
            r.pretty == pretty,
    {
        Rendered { line, pretty }
    }

    /// Wraps one fixed text used in both modes.
    pub fn uniform(text: String) -> (r: Self)
        ensures
            r.line == text,
            r.pretty == text,
    {
        let copy = text.clone();
        Rendered { line: text, pretty: copy }
    }
}

impl Render for Rendered {
    open spec fn render_spec(&self, alternate: bool) -> Seq<char> {
        if alternate {
            self.pretty@
        } else {
            self.line@
        }
    }

    fn render(&self, alternate: bool) -> (r: String) {
        if alternate {
            self.pretty.clone()
        } else {
            self.line.clone()
        }
    }
}

impl Render for String {
    open spec fn render_spec(&self, alternate: bool) -> Seq<char> {
        self@
    }

    fn render(&self, alternate: bool) -> (r: String) {
        self.clone()
    }
}

impl Render for str {
    open spec fn render_spec(&self, alternate: bool) -> Seq<char> {
        self@
    }

    fn render(&self, alternate: bool) -> (r: String) {
        self.to_owned()
    }
}

impl<'a, T: Render + ?Sized> Render for &'a T {
    open spec fn render_spec(&self, alternate: bool) -> Seq<char> {
        (**self).render_spec(alternate)
    }

    fn render(&self, alternate: bool) -> (r: String) {
        (**self).render(alternate)
    }
}

impl Render for bool {
    open spec fn render_spec(&self, alternate: bool) -> Seq<char> {
        if *self {
            "true"@
        } else {
            "false"@
        }
    }

    fn render(&self, alternate: bool) -> (r: String) {
        if *self {
            String::from_str("true")
        } else {
            String::from_str("false")
        }
    }
}

impl Render for char {
    open spec fn render_spec(&self, alternate: bool) -> Seq<char> {
        seq![*self]
    }

    fn render(&self, alternate: bool) -> (r: String) {
        let mut s = String::new();
        s.push(*self);
        proof {
            assert(s@ =~= seq![*self]);
        }
        s
    }
}

/// The character for one decimal digit.
pub open spec fn dec_digit(d: int) -> char {
    if d == 0 {
        '0'
    } else if d == 1 {
        '1'
    } else if d == 2 {
        '2'
    } else if d == 3 {
        '3'
    } else if d == 4 {
        '4'
    } else if d == 5 {
        '5'
    } else if d == 6 {
        '6'
    } else if d == 7 {
        '7'
    } else if d == 8 {
        '8'
    } else {
        '9'
    }
}

/// The decimal rendering of a natural number, most significant digit first.
pub open spec fn dec_nat(n: nat) -> Seq<char>
    decreases n,
{
    if n < 10 {
        seq![dec_digit(n as int)]
    } else {
        dec_nat(n / 10).push(dec_digit((n % 10) as int))
    }
}

/// The decimal rendering of an integer: a minus sign before the digits of
/// the magnitude when negative.
pub open spec fn dec_int(i: int) -> Seq<char> {
    if i >= 0 {
        dec_nat(i as nat)
    } else {
        "-"@ + dec_nat((-i) as nat)
    }
}

fn dec_digit_char(d: u64) -> (c: char)
    requires
        d < 10,
    ensures
        c == dec_digit(d as int),
{
    if d == 0 {
        '0'
    } else if d == 1 {
        '1'
    } else if d == 2 {
        '2'
    } else if d == 3 {
        '3'
    } else if d == 4 {
        '4'
    } else if d == 5 {
        '5'
    } else if d == 6 {
        '6'
    } else if d == 7 {
        '7'
    } else if d == 8 {
        '8'
    } else {
        '9'
    }
}

/// Renders an unsigned machine integer in decimal.
pub fn dec_u64(n: u64) -> (s: String)
    ensures
        s@ == dec_nat(n as nat),
    decreases n,
{
    let c = dec_digit_char(n % 10);
    if n < 10 {
        let mut s = String::new();
        s.push(c);
        proof {
            assert(s@ =~= seq![dec_digit(n as int)]);
        }
        s
    } else {
        let mut s = dec_u64(n / 10);
        s.push(c);
        s
    }
}

/// Renders a signed machine integer in decimal.
pub fn dec_i64(n: i64) -> (s: String)
    ensures
        s@ == dec_int(n as int),
{
    if n >= 0 {
        dec_u64(n as u64)
    } else {
        let m: u64 = (-(n as i128)) as u64;
        let digits = dec_u64(m);
        let mut s = String::from_str("-");
        s.append(digits.as_str());
        s
    }
}

impl Render for u64 {
    open spec fn render_spec(&self, alternate: bool) -> Seq<char> {
        dec_int(*self as int)
    }

    fn render(&self, alternate: bool) -> (r: String) {
        dec_u64(*self)
    }
}

impl Render for u32 {
    open spec fn render_spec(&self, alternate: bool) -> Seq<char> {
        dec_int(*self as int)
    }

    fn render(&self, alternate: bool) -> (r: String) {
        dec_u64(*self as u64)
    }
}

impl Render for u16 {
    open spec fn render_spec(&self, alternate: bool) -> Seq<char> {
        dec_int(*self as int)
    }

    fn render(&self, alternate: bool) -> (r: String) {
        dec_u64(*self as u64)
    }
}

impl Render for u8 {
    open spec fn render_spec(&self, alternate: bool) -> Seq<char> {
        dec_int(*self as int)
    }

    fn render(&self, alternate: bool) -> (r: String) {
        dec_u64(*self as u64)
    }
}

impl Render for usize {
    open spec fn render_spec(&self, alternate: bool) -> Seq<char> {
        dec_int(*self as int)
    }

    fn render(&self, alternate: bool) -> (r: String) {
        dec_u64(*self as u64)
    }
}

impl Render for i64 {
    open spec fn render_spec(&self, alternate: bool) -> Seq<char> {
        dec_int(*self as int)
    }

    fn render(&self, alternate: bool) -> (r: String) {
        dec_i64(*self)
    }
}

impl Render for i32 {
    open spec fn render_spec(&self, alternate: bool) -> Seq<char> {
        dec_int(*self as int)
    }

    fn render(&self, alternate: bool) -> (r: String) {
        dec_i64(*self as i64)
    }
}

impl Render for i16 {
    open spec fn render_spec(&self, alternate: bool) -> Seq<char> {
        dec_int(*self as int)
    }

    fn render(&self, alternate: bool) -> (r: String) {
        dec_i64(*self as i64)
    }
}

impl Render for i8 {
    open spec fn render_spec(&self, alternate: bool) -> Seq<char> {
        dec_int(*self as int)
    }

    fn render(&self, alternate: bool) -> (r: String) {
        dec_i64(*self as i64)
    }
}

impl Render for isize {
    open spec fn render_spec(&self, alternate: bool) -> Seq<char> {
        dec_int(*self as int)
    }

    fn render(&self, alternate: bool) -> (r: String) {
        dec_i64(*self as i64)
    }
}

} // verus!
