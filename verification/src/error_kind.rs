//! The closed taxonomy of failure causes, and the conversions that lift a
//! lower-level error into it.

use crate::cause::{Cause, IoCause, ParseCause};
use vstd::prelude::*;
use vstd::std_specs::convert::FromSpecImpl;
use vstd::string::StringExecFns;

verus! {

/// Everything that can go wrong, by kind. The first two kinds wrap the
/// lower-level error that caused them; a rule violation is terminal and
/// carries only its message.
#[derive(Debug, Clone, PartialEq, Eq)]
pub enum ErrorKind {
    IoFailure(IoCause),
    ParseFailure(ParseCause),
    RuleViolation(&'static str),
}

impl ErrorKind {
    /// The human-readable message of this error. A wrapped cause is named
    /// after a prefix that tells its kind; a rule violation's message stands
    /// as it was stored.
    pub open spec fn description(&self) -> Seq<char> {
        match self {
            ErrorKind::IoFailure(c) => "IO error: "@ + c.text(),
            ErrorKind::ParseFailure(c) => "Parse error: "@ + c.text(),
            ErrorKind::RuleViolation(m) => m@,
        }
    }

    /// The lower-level error behind this one, where there is one.
    pub open spec fn source(&self) -> Option<Cause> {
        match self {
            ErrorKind::IoFailure(c) => Some(Cause::Io(*c)),
            ErrorKind::ParseFailure(c) => Some(Cause::Parse(*c)),
            ErrorKind::RuleViolation(_) => None,
        }
    }

    /// Lifts an I/O error record into the taxonomy.
    pub fn from_io(source: IoCause) -> (kind: ErrorKind)
        ensures
            kind == ErrorKind::IoFailure(source),
    {
        ErrorKind::IoFailure(source)
    }

    /// Lifts a parse error record into the taxonomy.
    pub fn from_parse(source: ParseCause) -> (kind: ErrorKind)
        ensures
            kind == ErrorKind::ParseFailure(source),
    {
        ErrorKind::ParseFailure(source)
    }

    /// Renders this error as a message.
    pub fn describe(&self) -> (s: String)
        ensures
            s@ == self.description(),
    {
        match self {
            ErrorKind::IoFailure(c) => {
                let mut s = String::from_str("IO error: ");
                s.append(c.message.as_str());
                s
            },
            ErrorKind::ParseFailure(c) => {
                let mut s = String::from_str("Parse error: ");
                let detail = c.describe();
                s.append(detail.as_str());
                s
            },
            ErrorKind::RuleViolation(m) => String::from_str(m),
        }
    }

    /// Hands out the wrapped lower-level error, or nothing for a rule
    /// violation.
    pub fn cause(&self) -> (c: Option<Cause>)
        ensures
            c == self.source(),
    {
        match self {
            ErrorKind::IoFailure(c) => Some(Cause::Io(IoCause { message: c.message.clone() })),
            ErrorKind::ParseFailure(c) => Some(Cause::Parse(*c)),
            ErrorKind::RuleViolation(_) => None,
        }
    }
}

/// An error that wraps a cause embeds the cause's description at the end
/// of its own, and only a rule violation is without a cause.
pub proof fn lemma_description_embeds_cause(kind: ErrorKind)
    ensures
        kind.source() matches Some(cause) ==> cause.text().is_suffix_of(kind.description()),
        kind.source() is None <==> kind is RuleViolation,
{
    match kind {
        ErrorKind::IoFailure(c) => {
            let prefix = "IO error: "@;
            assert((prefix + c.text()).skip(prefix.len() as int) == c.text());
        },
        ErrorKind::ParseFailure(c) => {
            let prefix = "Parse error: "@;
            assert((prefix + c.text()).skip(prefix.len() as int) == c.text());
        },
        ErrorKind::RuleViolation(_) => {},
    }
}

impl From<IoCause> for ErrorKind {
    fn from(source: IoCause) -> (kind: ErrorKind) {
        ErrorKind::IoFailure(source)
    }
}

impl FromSpecImpl<IoCause> for ErrorKind {
    open spec fn obeys_from_spec() -> bool {
        true
    }

    open spec fn from_spec(source: IoCause) -> ErrorKind {
        ErrorKind::IoFailure(source)
    }
}

impl From<ParseCause> for ErrorKind {
    fn from(source: ParseCause) -> (kind: ErrorKind) {
        ErrorKind::ParseFailure(source)
    }
}

impl FromSpecImpl<ParseCause> for ErrorKind {
    open spec fn obeys_from_spec() -> bool {
        true
    }

    open spec fn from_spec(source: ParseCause) -> ErrorKind {
        ErrorKind::ParseFailure(source)
    }
}

} // verus!
