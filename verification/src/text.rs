//! Rendering of values as text, with the rendered characters stated exactly.
use vstd::prelude::*;
use vstd::string::*;

verus! {

/// A value that renders itself as one human-readable line.
pub trait Message {
    /// The characters of the rendering.
    spec fn text(&self) -> Seq<char>;

    /// Renders the value.
    fn message(&self) -> (r: String)
        ensures
            r@ == self.text(),
    ;
}

/// A value that renders itself for diagnostics, in the manner of `Debug`.
pub trait DebugText {
    /// The characters of the rendering.
    spec fn debug(&self) -> Seq<char>;

    /// Renders the value.
    fn debug_text(&self) -> (r: String)
        ensures
            r@ == self.debug(),
    ;
}

impl DebugText for () {
    open spec fn debug(&self) -> Seq<char> {
        "()"@
    }

    fn debug_text(&self) -> (r: String) {
        "()".to_owned()
    }
}

/// The decimal digit of `d`.
pub open spec fn digit(d: int) -> char {
    if d == 0 {
        '0'
    } else if d == 1 {
        '1'
    } else if d == 2 {
        '2'
    } else if d == 3 {
        '3'
    } else if d == 4 {
        '4'
    } else if d == 5 {
        '5'
    } else if d == 6 {
        '6'
    } else if d == 7 {
        '7'
    } else if d == 8 {
        '8'
    } else {
        '9'
    }
}

/// The decimal digits of `n`, most significant first, without leading zeros.
pub open spec fn decimal(n: nat) -> Seq<char>
    decreases n,
{
    if n < 10 {
        seq![digit(n as int)]
    } else {
        decimal(n / 10).push(digit((n % 10) as int))
    }
}

fn digit_text(d: u64) -> (r: &'static str)
    requires
        d < 10,
    ensures
        r@ == seq![digit(d as int)],
{
    proof {
        reveal_strlit("0");
        reveal_strlit("1");
        reveal_strlit("2");
        reveal_strlit("3");
        reveal_strlit("4");
        reveal_strlit("5");
        reveal_strlit("6");
        reveal_strlit("7");
        reveal_strlit("8");
        reveal_strlit("9");
    }
    let r: &'static str = match d {
        0 => "0",
        1 => "1",
        2 => "2",
        3 => "3",
        4 => "4",
        5 => "5",
        6 => "6",
        7 => "7",
        8 => "8",
        _ => "9",
    };
    assert(r@ =~= seq![digit(d as int)]);
    r
}

/// Writes `n` in decimal.
pub fn decimal_text(n: u64) -> (r: String)
    ensures
        r@ == decimal(n as nat),
    decreases n,
{
    if n < 10 {
        digit_text(n).to_owned()
    } else {
        let mut r = decimal_text(n / 10);
        r.append(digit_text(n % 10));
        assert(r@ =~= decimal(n as nat));
        r
    }
}

/// The value of a decimal digit.
pub open spec fn digit_value(c: char) -> int {
    c as int - '0' as int
}

/// The number that `s` writes in decimal.
pub open spec fn decimal_value(s: Seq<char>) -> int
    decreases s.len(),
{
    if s.len() == 0 {
        0
    } else {
        10 * decimal_value(s.drop_last()) + digit_value(s.last())
    }
}

proof fn lemma_decimal(n: nat)
    ensures
        decimal(n).len() > 0,
        decimal_value(decimal(n)) == n,
        n > 0 ==> decimal(n)[0] != '0',
        n == 0 ==> decimal(n).len() == 1,
        forall|i: int|
            0 <= i < decimal(n).len() ==> '0' <= #[trigger] decimal(n)[i] && decimal(n)[i] <= '9',
    decreases n,
{
    if n < 10 {
        assert(decimal(n).drop_last() =~= Seq::empty());
        assert(decimal_value(Seq::<char>::empty()) == 0);
    } else {
        lemma_decimal(n / 10);
        assert(decimal(n).drop_last() =~= decimal(n / 10));
        assert(decimal(n)[0] == decimal(n / 10)[0]);
        assert(decimal_value(decimal(n)) == 10 * (n / 10) + n % 10);
    }
}

/// A number that was written in decimal is read as the same number. It is
/// written in digits alone, and without leading zeros.
pub proof fn law_decimal_text_reads_back(n: u64, s: String)
    requires
        call_ensures(decimal_text, (n,), s),
    ensures
        decimal_value(s@) == n,
        s@.len() > 0,
        s@.len() > 1 ==> s@[0] != '0',
        forall|i: int| 0 <= i < s@.len() ==> '0' <= #[trigger] s@[i] && s@[i] <= '9',
{
    lemma_decimal(n as nat);
}

/// A state that holds nothing is rendered as an empty pair of brackets.
pub proof fn law_unit_is_rendered_as_brackets(s: String)
    requires
        call_ensures(<() as DebugText>::debug_text, (&(),), s),
    ensures
        s@ == "()"@,
{
}

} // verus!
