//! Failures of the decoder.

use vstd::prelude::*;
use vstd::string::StringExecFns;

verus! {

/// The part of a capture that was being read when the buffer ended.
#[derive(Debug, Clone, Copy, PartialEq, Eq, Structural)]
pub enum Stage {
    /// The fixed 276-byte header.
    Header,
    /// The sample block of channel 1.
    Channel1,
    /// The sample block of channel 2.
    Channel2,
    /// The logic analyzer's sample words.
    Logic,
}

/// Why a buffer is not a capture.
#[derive(Debug, Clone, Copy, PartialEq, Eq, Structural)]
pub enum Error {
    /// The buffer does not begin with the magic tag.
    MagicMismatch,
    /// The buffer ends before the named part is complete.
    Truncated { stage: Stage },
    /// The byte at `offset` holds `code`, which names no variant of the
    /// enum that the field is restricted to.
    InvalidEnumCode { offset: usize, code: u8 },
    /// The raw point count is too small for the rolling-mode correction.
    ArithmeticUnderflow,
}

/// The decimal digit for `d`, which is below ten.
pub open spec fn digit(d: u8) -> char {
    match d {
        0 => '0',
        1 => '1',
        2 => '2',
        3 => '3',
        4 => '4',
        5 => '5',
        6 => '6',
        7 => '7',
        8 => '8',
        _ => '9',
    }
}

/// The number `n` in decimal digits, without leading zeros.
pub open spec fn decimal(n: nat) -> Seq<char>
    decreases n,
{
    if n < 10 {
        seq![digit(n as u8)]
    } else {
        decimal(n / 10).push(digit((n % 10) as u8))
    }
}

/// The text of one decimal digit.
fn digit_text(d: usize) -> (text: &'static str)
    requires
        d < 10,
    ensures
        text@ == seq![digit(d as u8)],
{
    proof {
        reveal_strlit("0");
        reveal_strlit("1");
        reveal_strlit("2");
        reveal_strlit("3");
        reveal_strlit("4");
        reveal_strlit("5");
        reveal_strlit("6");
        reveal_strlit("7");
        reveal_strlit("8");
        reveal_strlit("9");
    }
    let text = match d {
        0 => "0",
        1 => "1",
        2 => "2",
        3 => "3",
        4 => "4",
        5 => "5",
        6 => "6",
        7 => "7",
        8 => "8",
        _ => "9",
    };
    assert(text@ =~= seq![digit(d as u8)]);
    text
}

/// Appends `n` in decimal digits to `text`.
fn append_decimal(text: &mut String, n: usize)
    ensures
        final(text)@ == old(text)@ + decimal(n as nat),
    decreases n,
{
    if n >= 10 {
        append_decimal(text, n / 10);
    }
    text.append(digit_text(n % 10));
    assert(final(text)@ =~= old(text)@ + decimal(n as nat));
}

impl Stage {
    /// The name of the part, as `Error::message` writes it.
    pub open spec fn spec_name(self) -> Seq<char> {
        match self {
            Stage::Header => "the header"@,
            Stage::Channel1 => "the channel 1 samples"@,
            Stage::Channel2 => "the channel 2 samples"@,
            Stage::Logic => "the logic samples"@,
        }
    }

    /// The name of the part, as `Error::message` writes it.
    pub fn name(&self) -> (text: &'static str)
        ensures
            text@ == self.spec_name(),
    {
        match self {
            Stage::Header => "the header",
            Stage::Channel1 => "the channel 1 samples",
            Stage::Channel2 => "the channel 2 samples",
            Stage::Logic => "the logic samples",
        }
    }
}

impl Error {
    /// The text of `message`, as a sequence of characters.
    pub open spec fn spec_message(self) -> Seq<char> {
        match self {
            Error::MagicMismatch => "magic tag mismatch"@,
            Error::Truncated { stage } => "buffer ends inside "@ + stage.spec_name(),
            Error::InvalidEnumCode { offset, code } => "code "@ + decimal(code as nat)
                + " at byte "@ + decimal(offset as nat) + " names no variant"@,
            Error::ArithmeticUnderflow => "point count underflows in the rolling-mode correction"@,
        }
    }

    /// A description of the failure: what failed, and in which part of the
    /// capture or at which byte.
    pub fn message(&self) -> (text: String)
        ensures
            text@ == self.spec_message(),
    {
        match self {
            Error::MagicMismatch => "magic tag mismatch".to_owned(),
            Error::Truncated { stage } => {
                let mut text = "buffer ends inside ".to_owned();
                text.append(stage.name());
                text
            },
            Error::InvalidEnumCode { offset, code } => {
                let mut text = "code ".to_owned();
                append_decimal(&mut text, *code as usize);
                text.append(" at byte ");
                append_decimal(&mut text, *offset);
                text.append(" names no variant");
                text
            },
            Error::ArithmeticUnderflow => {
                "point count underflows in the rolling-mode correction".to_owned()
            },
        }
    }
}

} // verus!
