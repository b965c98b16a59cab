//! The failures that matrix operations report, and the text of their
//! messages.

use vstd::prelude::*;
use vstd::string::StringExecFns;

verus! {

/// Why a matrix operation failed.
#[derive(Debug, PartialEq)]
pub enum Error {
    /// Two matrices were expected to agree in some extent and do not. The
    /// message names the extents that disagree.
    NotEq(String),
    /// A coordinate lies outside the matrix.
    OutOfRange,
    /// A run of cells is longer or shorter than the shape it was given for.
    IncorrectLength,
}

/// The character for one decimal digit.
pub open spec fn digit(d: nat) -> char
    recommends
        d < 10,
{
    if d == 0 {
        '0'
    } else if d == 1 {
        '1'
    } else if d == 2 {
        '2'
    } else if d == 3 {
        '3'
    } else if d == 4 {
        '4'
    } else if d == 5 {
        '5'
    } else if d == 6 {
        '6'
    } else if d == 7 {
        '7'
    } else if d == 8 {
        '8'
    } else {
        '9'
    }
}

/// `n` in decimal notation, without leading zeros.
pub open spec fn decimal(n: nat) -> Seq<char>
    decreases n,
{
    if n < 10 {
        seq![digit(n)]
    } else {
        decimal(n / 10).push(digit(n % 10))
    }
}

/// The message for two extents that should be equal: both numbers, with
/// `" != "` between them.
pub open spec fn extents_text(left: nat, right: nat) -> Seq<char> {
    decimal(left) + " != "@ + decimal(right)
}

/// The message for two shapes that should be equal: each shape as columns,
/// `"x"`, rows, with `" != "` between the two.
pub open spec fn shapes_text(
    left_columns: nat,
    left_rows: nat,
    right_columns: nat,
    right_rows: nat,
) -> Seq<char> {
    decimal(left_columns) + "x"@ + decimal(left_rows) + " != "@ + decimal(right_columns) + "x"@
        + decimal(right_rows)
}

fn digit_text(d: usize) -> (text: &'static str)
    requires
        d < 10,
    ensures
        text@ == seq![digit(d as nat)],
{
    proof {
        reveal_strlit("0");
        reveal_strlit("1");
        reveal_strlit("2");
        reveal_strlit("3");
        reveal_strlit("4");
        reveal_strlit("5");
        reveal_strlit("6");
        reveal_strlit("7");
        reveal_strlit("8");
        reveal_strlit("9");
    }
    let text = if d == 0 {
        "0"
    } else if d == 1 {
        "1"
    } else if d == 2 {
        "2"
    } else if d == 3 {
        "3"
    } else if d == 4 {
        "4"
    } else if d == 5 {
        "5"
    } else if d == 6 {
        "6"
    } else if d == 7 {
        "7"
    } else if d == 8 {
        "8"
    } else {
        "9"
    };
    assert(text@ =~= seq![digit(d as nat)]);
    text
}

/// Writes `n` in decimal notation.
pub fn decimal_string(n: usize) -> (text: String)
    ensures
        text@ == decimal(n as nat),
    decreases n,
{
    if n < 10 {
        String::from_str(digit_text(n))
    } else {
        let mut text = decimal_string(n / 10);
        text.append(digit_text(n % 10));
        assert(text@ =~= decimal(n as nat));
        text
    }
}

impl Error {
    /// The failure for two extents that should be equal and are `left` and
    /// `right`.
    pub fn extents_differ(left: usize, right: usize) -> (e: Error)
        ensures
            e matches Error::NotEq(message) && message@ == extents_text(left as nat, right as nat),
    {
        let mut message = decimal_string(left);
        message.append(" != ");
        message.append(decimal_string(right).as_str());
        Error::NotEq(message)
    }

    /// The failure for two shapes that should be equal and are not.
    pub fn shapes_differ(
        left_columns: usize,
        left_rows: usize,
        right_columns: usize,
        right_rows: usize,
    ) -> (e: Error)
        ensures
            e matches Error::NotEq(message) && message@ == shapes_text(
                left_columns as nat,
                left_rows as nat,
                right_columns as nat,
                right_rows as nat,
            ),
    {
        let mut message = decimal_string(left_columns);
        message.append("x");
        message.append(decimal_string(left_rows).as_str());
        message.append(" != ");
        message.append(decimal_string(right_columns).as_str());
        message.append("x");
        message.append(decimal_string(right_rows).as_str());
        Error::NotEq(message)
    }
}

} // verus!
