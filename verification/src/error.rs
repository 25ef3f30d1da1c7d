//! The error type shared by the whole library, and the texts of its errors.

use vstd::prelude::*;
use vstd::string::StringExecFns;

verus! {

/// Everything that an operation of this library can report as a failure.
#[derive(Debug, PartialEq, Eq)]
pub enum Error {
    /// The vector dimension is not a multiple of the number of sub-vectors.
    InvalidInput { dimension: usize, num_sub_vectors: usize },
    /// A single-use stream was asked for a second time.
    Exhausted,
    /// A plan that must have exactly one partition declares another number.
    PartitionCount { found: usize },
    /// The runtime environment of a session could not be built.
    Runtime,
    /// Executing a plan for analysis failed.
    Io { message: String },
}

/// The decimal digit `d` as a character.
pub open spec fn digit_char(d: nat) -> char {
    "0123456789"@[d as int]
}

/// The decimal numeral of `n`, without leading zeros.
pub open spec fn decimal(n: nat) -> Seq<char>
    decreases n,
{
    if n < 10 {
        seq![digit_char(n)]
    } else {
        decimal(n / 10).push(digit_char(n % 10))
    }
}

/// The decimal digit `d` as text.
fn digit_text(d: usize) -> (text: &'static str)
    requires
        d < 10,
    ensures
        text@ == seq![digit_char(d as nat)],
{
    proof {
        reveal_strlit("0123456789");
        reveal_strlit("0");
        reveal_strlit("1");
        reveal_strlit("2");
        reveal_strlit("3");
        reveal_strlit("4");
        reveal_strlit("5");
        reveal_strlit("6");
        reveal_strlit("7");
        reveal_strlit("8");
        reveal_strlit("9");
    }
    let text = match d {
        0 => "0",
        1 => "1",
        2 => "2",
        3 => "3",
        4 => "4",
        5 => "5",
        6 => "6",
        7 => "7",
        8 => "8",
        _ => "9",
    };
    proof {
        assert(text@ =~= seq![digit_char(d as nat)]);
    }
    text
}

/// Writes the decimal numeral of `n` at the end of `text`.
pub fn append_decimal(text: &mut String, n: usize)
    ensures
        final(text)@ == old(text)@ + decimal(n as nat),
    decreases n,
{
    if n >= 10 {
        append_decimal(text, n / 10);
    }
    text.append(digit_text(n % 10));
    proof {
        let before = old(text)@;
        if n >= 10 {
            assert(before + decimal((n / 10) as nat) + seq![digit_char((n % 10) as nat)] =~= before
                + decimal((n / 10) as nat).push(digit_char((n % 10) as nat)));
        }
    }
}

impl Error {
    /// The text of the error.
    pub open spec fn spec_message(self) -> Seq<char> {
        match self {
            Error::InvalidInput { dimension, num_sub_vectors } =>
                "num_sub_vectors must divide vector dimension "@ + decimal(dimension as nat)
                    + ", but got "@ + decimal(num_sub_vectors as nat),
            Error::Exhausted => "OneShotExec has already been executed"@,
            Error::PartitionCount { found } => "expected a plan with 1 partition, but got "@
                + decimal(found as nat),
            Error::Runtime => "the runtime environment of the session could not be built"@,
            Error::Io { message } => message@,
        }
    }

    /// The text of the error.
    pub fn message(&self) -> (text: String)
        ensures
            text@ == self.spec_message(),
    {
        match self {
            Error::InvalidInput { dimension, num_sub_vectors } => {
                let mut text = String::from_str("num_sub_vectors must divide vector dimension ");
                append_decimal(&mut text, *dimension);
                text.append(", but got ");
                append_decimal(&mut text, *num_sub_vectors);
                text
            },
            Error::Exhausted => String::from_str("OneShotExec has already been executed"),
            Error::PartitionCount { found } => {
                let mut text = String::from_str("expected a plan with 1 partition, but got ");
                append_decimal(&mut text, *found);
                text
            },
            Error::Runtime => String::from_str(
                "the runtime environment of the session could not be built",
            ),
            Error::Io { message } => message.clone(),
        }
    }
}

} // verus!
