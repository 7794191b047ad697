//! The closed error taxonomy used throughout this crate.
//!
//! Every component surfaces failures to its immediate caller as one of these
//! variants; none are swallowed internally.

use vstd::prelude::*;
use vstd::string::StringExecFns;

verus! {

/// The error type.
#[derive(Clone, Copy, Debug, PartialEq, Eq, Structural)]
pub enum Error {
    /// An input/output failure, propagated from the byte sink or from a
    /// native console call.
    ///
    /// The variant carries no payload: the platform's own error value is an
    /// opaque type this verified core cannot inspect, and holding it here
    /// would cost the error type its structural equality, which the
    /// contracts and the tests compare by. The host layer that makes real
    /// system calls is the place to keep the cause before it maps the
    /// failure to this variant.
    Io,
    /// A malformed response arrived from the terminal.
    CouldNotParseEvent,
    /// The keyboard enhancement status could not be read in time.
    KeyboardEnhancementStatusTimeout,
    /// The cursor position could not be read in time.
    CursorPositionTimeout,
    /// The input reader could not be initialized.
    InputReader,
    /// The requested terminal width is too small.
    TerminalWidthTooSmall,
    /// The requested terminal height is too small.
    TerminalHeightTooSmall,
    /// The requested terminal width is too large.
    TerminalWidthTooLarge,
    /// The requested terminal height is too large.
    TerminalHeightTooLarge,
    /// The requested cursor column is out of range.
    CursorXOutOfRange(usize),
    /// The requested cursor row is out of range.
    CursorYOutOfRange(usize),
    /// Setting an underline color is not supported.
    SetUnderlineColorUnsupported,
    /// Bracketed paste is not supported.
    BracketedPasteUnsupported,
    /// Keyboard progressive enhancement is not supported.
    KeyboardProgressiveEnhancementUnsupported,
    /// This error should only be used by unit tests.
    Test,
}

/// The character for one decimal digit.
pub open spec fn digit_char(d: nat) -> char {
    if d == 0 {
        '0'
    } else if d == 1 {
        '1'
    } else if d == 2 {
        '2'
    } else if d == 3 {
        '3'
    } else if d == 4 {
        '4'
    } else if d == 5 {
        '5'
    } else if d == 6 {
        '6'
    } else if d == 7 {
        '7'
    } else if d == 8 {
        '8'
    } else {
        '9'
    }
}

/// The decimal digits of `n`, most significant first.
pub open spec fn decimal_chars(n: nat) -> Seq<char>
    decreases n,
{
    if n < 10 {
        seq![digit_char(n)]
    } else {
        decimal_chars(n / 10) + seq![digit_char(n % 10)]
    }
}

/// The character for the decimal digit `d`.
fn digit_str(d: usize) -> (r: &'static str)
    requires
        d < 10,
    ensures
        r@ == seq![digit_char(d as nat)],
{
    proof {
        reveal_strlit("0");
        reveal_strlit("1");
        reveal_strlit("2");
        reveal_strlit("3");
        reveal_strlit("4");
        reveal_strlit("5");
        reveal_strlit("6");
        reveal_strlit("7");
        reveal_strlit("8");
        reveal_strlit("9");
    }
    match d {
        0 => "0",
        1 => "1",
        2 => "2",
        3 => "3",
        4 => "4",
        5 => "5",
        6 => "6",
        7 => "7",
        8 => "8",
        _ => "9",
    }
}

/// The decimal rendering of `n`, most significant digit first.
pub fn decimal_string(n: usize) -> (r: String)
    ensures
        r@ == decimal_chars(n as nat),
    decreases n,
{
    if n < 10 {
        let mut s = String::new();
        s.append(digit_str(n));
        proof {
            assert(s@ =~= decimal_chars(n as nat));
        }
        s
    } else {
        let mut s = decimal_string(n / 10);
        s.append(digit_str(n % 10));
        proof {
            assert(s@ =~= decimal_chars(n as nat));
        }
        s
    }
}

/// The description `message` returns for each error.
pub open spec fn message_spec(e: Error) -> Seq<char> {
    match e {
        Error::Io => "input/output error"@,
        Error::CouldNotParseEvent => "could not parse event"@,
        Error::KeyboardEnhancementStatusTimeout => "the keyboard enhancement status could not be read within a normal duration"@,
        Error::CursorPositionTimeout => "the cursor position could not be read within a normal duration"@,
        Error::InputReader => "failed to initialize input reader"@,
        Error::TerminalWidthTooSmall => "terminal width must be at least 1"@,
        Error::TerminalHeightTooSmall => "terminal height must be at least 1"@,
        Error::TerminalWidthTooLarge => "terminal width too large"@,
        Error::TerminalHeightTooLarge => "terminal height too large"@,
        Error::CursorXOutOfRange(x) => "cursor position X "@ + decimal_chars(x as nat)
            + " is out of range"@,
        Error::CursorYOutOfRange(y) => "cursor position Y "@ + decimal_chars(y as nat)
            + " is out of range"@,
        Error::SetUnderlineColorUnsupported => "setting the underline color is not supported"@,
        Error::BracketedPasteUnsupported => "bracketed paste is not supported"@,
        Error::KeyboardProgressiveEnhancementUnsupported => "keyboard progressive enhancement is not supported"@,
        Error::Test => "test"@,
    }
}

impl Error {
    /// A human-readable description of this error.
    pub fn message(&self) -> (r: String)
        ensures
            r@ == message_spec(*self),
    {
        match self {
            Error::Io => String::from_str("input/output error"),
            Error::CouldNotParseEvent => String::from_str("could not parse event"),
            Error::KeyboardEnhancementStatusTimeout => String::from_str(
                "the keyboard enhancement status could not be read within a normal duration",
            ),
            Error::CursorPositionTimeout => String::from_str(
                "the cursor position could not be read within a normal duration",
            ),
            Error::InputReader => String::from_str("failed to initialize input reader"),
            Error::TerminalWidthTooSmall => String::from_str("terminal width must be at least 1"),
            Error::TerminalHeightTooSmall => String::from_str(
                "terminal height must be at least 1",
            ),
            Error::TerminalWidthTooLarge => String::from_str("terminal width too large"),
            Error::TerminalHeightTooLarge => String::from_str("terminal height too large"),
            Error::CursorXOutOfRange(x) => {
                let mut s = String::from_str("cursor position X ");
                let digits = decimal_string(*x);
                s.append(digits.as_str());
                s.append(" is out of range");
                s
            },
            Error::CursorYOutOfRange(y) => {
                let mut s = String::from_str("cursor position Y ");
                let digits = decimal_string(*y);
                s.append(digits.as_str());
                s.append(" is out of range");
                s
            },
            Error::SetUnderlineColorUnsupported => String::from_str(
                "setting the underline color is not supported",
            ),
            Error::BracketedPasteUnsupported => String::from_str(
                "bracketed paste is not supported",
            ),
            Error::KeyboardProgressiveEnhancementUnsupported => String::from_str(
                "keyboard progressive enhancement is not supported",
            ),
            Error::Test => String::from_str("test"),
        }
    }
}

} // verus!
