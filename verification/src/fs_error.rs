//! The error of a failed conversion into a fixed-capacity string, and its two
//! textual forms.

use vstd::prelude::*;
use vstd::string::*;

verus! {

/// Why a conversion into a `FixedStr` failed.
#[derive(Clone, Copy, PartialEq, Eq, Structural)]
#[non_exhaustive]
pub enum FixedStrError {
    /// The input is longer than the capacity.
    Overflow {
        /// The capacity of the buffer, in bytes.
        available: usize,
        /// The length of the input, in bytes.
        found: usize,
    },
    /// The bytes that had to be read as text are not valid UTF-8.
    InvalidUtf8,
}

/// The character that stands for the decimal digit `d`.
pub open spec fn digit_char(d: int) -> char
    recommends
        0 <= d < 10,
{
    if d == 0 {
        '0'
    } else if d == 1 {
        '1'
    } else if d == 2 {
        '2'
    } else if d == 3 {
        '3'
    } else if d == 4 {
        '4'
    } else if d == 5 {
        '5'
    } else if d == 6 {
        '6'
    } else if d == 7 {
        '7'
    } else if d == 8 {
        '8'
    } else {
        '9'
    }
}

/// The decimal numeral of `n`, without sign or leading zeros.
pub open spec fn decimal(n: nat) -> Seq<char>
    decreases n,
{
    if n < 10 {
        seq![digit_char(n as int)]
    } else {
        decimal(n / 10).push(digit_char((n % 10) as int))
    }
}

/// The message for a user: what `to_string` returns.
pub open spec fn display_text(e: FixedStrError) -> Seq<char> {
    match e {
        FixedStrError::Overflow { available, found } => "Overflow: tried to add "@ + decimal(
            found as nat,
        ) + " bytes with only "@ + decimal(available as nat) + " bytes available"@,
        FixedStrError::InvalidUtf8 => "Invalid UTF-8"@,
    }
}

/// The message for a developer: what `to_debug_string` returns.
pub open spec fn debug_text(e: FixedStrError) -> Seq<char> {
    match e {
        FixedStrError::Overflow { available, found } => "Overflow: available "@ + decimal(
            available as nat,
        ) + ", found "@ + decimal(found as nat),
        FixedStrError::InvalidUtf8 => "InvalidUtf8"@,
    }
}

/// The one-character string of the digit `d`.
fn digit_str(d: usize) -> (s: &'static str)
    requires
        d < 10,
    ensures
        s@ == seq![digit_char(d as int)],
{
    proof {
        reveal_strlit("0");
        reveal_strlit("1");
        reveal_strlit("2");
        reveal_strlit("3");
        reveal_strlit("4");
        reveal_strlit("5");
        reveal_strlit("6");
        reveal_strlit("7");
        reveal_strlit("8");
        reveal_strlit("9");
    }
    let s = if d == 0 {
        "0"
    } else if d == 1 {
        "1"
    } else if d == 2 {
        "2"
    } else if d == 3 {
        "3"
    } else if d == 4 {
        "4"
    } else if d == 5 {
        "5"
    } else if d == 6 {
        "6"
    } else if d == 7 {
        "7"
    } else if d == 8 {
        "8"
    } else {
        "9"
    };
    assert(s@ =~= seq![digit_char(d as int)]);
    s
}

/// Appends the decimal numeral of `n` to `out`.
fn push_decimal(out: &mut String, n: usize)
    ensures
        final(out)@ == old(out)@ + decimal(n as nat),
    decreases n,
{
    if n >= 10 {
        push_decimal(out, n / 10);
    }
    out.append(digit_str(n % 10));
    assert(out@ =~= old(out)@ + decimal(n as nat));
}

impl FixedStrError {
    /// Renders the error for a user.
    ///
    /// An overflow reads `Overflow: tried to add F bytes with only A bytes
    /// available`, with the input length `F` and the capacity `A` in decimal;
    /// invalid text reads `Invalid UTF-8`.
    pub fn to_string(&self) -> (text: String)
        ensures
            text@ == display_text(*self),
    {
        match *self {
            FixedStrError::Overflow { available, found } => {
                let mut text = String::from_str("Overflow: tried to add ");
                push_decimal(&mut text, found);
                text.append(" bytes with only ");
                push_decimal(&mut text, available);
                text.append(" bytes available");
                text
            },
            FixedStrError::InvalidUtf8 => String::from_str("Invalid UTF-8"),
        }
    }

    /// Renders the error for a developer.
    ///
    /// An overflow reads `Overflow: available A, found F`; invalid text reads
    /// `InvalidUtf8`.
    pub fn to_debug_string(&self) -> (text: String)
        ensures
            text@ == debug_text(*self),
    {
        match *self {
            FixedStrError::Overflow { available, found } => {
                let mut text = String::from_str("Overflow: available ");
                push_decimal(&mut text, available);
                text.append(", found ");
                push_decimal(&mut text, found);
                text
            },
            FixedStrError::InvalidUtf8 => String::from_str("InvalidUtf8"),
        }
    }
}

} // verus!
