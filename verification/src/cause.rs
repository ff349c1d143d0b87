//! Lower-level error records: what an I/O operation or a numeric parse
//! reports when it fails, held as plain data.

use vstd::prelude::*;
use vstd::string::StringExecFns;

verus! {

/// The record of a failed I/O operation: the text by which the operating
/// system or the I/O layer described the failure.
#[derive(Debug, Clone, PartialEq, Eq)]
pub struct IoCause {
    pub message: String,
}

/// Why a piece of text could not be read as a decimal integer.
#[derive(Debug, Clone, Copy, PartialEq, Eq)]
pub enum ParseCause {
    /// There was no text at all.
    Empty,
    /// A character that is no decimal digit stood where a digit was due, or
    /// a sign stood alone.
    InvalidDigit,
    /// The number lies above the target type's largest value.
    PosOverflow,
    /// The number lies below the target type's smallest value.
    NegOverflow,
}

/// A lower-level error of either sort, as handed out when a caller asks an
/// error for its cause.
#[derive(Debug, Clone, PartialEq, Eq)]
pub enum Cause {
    Io(IoCause),
    Parse(ParseCause),
}

impl IoCause {
    /// The description this record carries.
    pub open spec fn text(&self) -> Seq<char> {
        self.message@
    }

    /// Records an I/O failure under the given description.
    pub fn new(message: String) -> (c: IoCause)
        ensures
            c.message == message,
            c.text() == message@,
    {
        IoCause { message }
    }

    /// The description this record carries, as an owned string.
    pub fn describe(&self) -> (s: String)
        ensures
            s@ == self.text(),
    {
        self.message.clone()
    }
}

impl ParseCause {
    /// The fixed description of each way a parse can fail.
    pub open spec fn text(&self) -> Seq<char> {
        match self {
            ParseCause::Empty => "cannot parse integer from empty string"@,
            ParseCause::InvalidDigit => "invalid digit found in string"@,
            ParseCause::PosOverflow => "number too large to fit in target type"@,
            ParseCause::NegOverflow => "number too small to fit in target type"@,
        }
    }

    /// The description of this parse failure, as an owned string.
    pub fn describe(&self) -> (s: String)
        ensures
            s@ == self.text(),
    {
        match self {
            ParseCause::Empty => String::from_str("cannot parse integer from empty string"),
            ParseCause::InvalidDigit => String::from_str("invalid digit found in string"),
            ParseCause::PosOverflow => String::from_str("number too large to fit in target type"),
            ParseCause::NegOverflow => String::from_str("number too small to fit in target type"),
        }
    }
}

impl Cause {
    /// The description of the underlying record.
    pub open spec fn text(&self) -> Seq<char> {
        match self {
            Cause::Io(c) => c.text(),
            Cause::Parse(c) => c.text(),
        }
    }

    /// The description of the underlying record, as an owned string.
    pub fn describe(&self) -> (s: String)
        ensures
            s@ == self.text(),
    {
        match self {
            Cause::Io(c) => c.describe(),
            Cause::Parse(c) => c.describe(),
        }
    }
}

} // verus!
