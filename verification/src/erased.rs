//! A failure with its kind hidden: all that is left to ask of it is its
//! description and the lower-level error behind it.

use crate::cause::{Cause, IoCause, ParseCause};
use crate::error_kind::ErrorKind;
use vstd::prelude::*;
use vstd::std_specs::convert::{FromSpec, FromSpecImpl};

verus! {

/// What an erased failure was made from.
#[derive(Debug, Clone, PartialEq, Eq)]
enum Origin {
    Kind(ErrorKind),
    Lower(Cause),
}

/// Any failure, for a caller that reports it and does not branch on what
/// it is. It keeps the description and the chained cause of the error it
/// was made from, and shows nothing else.
#[derive(Debug, Clone, PartialEq, Eq)]
pub struct ErasedFailure {
    origin: Origin,
}

impl ErasedFailure {
    /// The message of the error this failure was made from.
    pub closed spec fn description(&self) -> Seq<char> {
        match self.origin {
            Origin::Kind(kind) => kind.description(),
            Origin::Lower(cause) => cause.text(),
        }
    }

    /// The lower-level error behind the error this failure was made from.
    /// A lower-level error that was erased directly has none.
    pub closed spec fn source(&self) -> Option<Cause> {
        match self.origin {
            Origin::Kind(kind) => kind.source(),
            Origin::Lower(_) => None,
        }
    }

    /// Renders this failure as a message.
    pub fn describe(&self) -> (s: String)
        ensures
            s@ == self.description(),
    {
        match &self.origin {
            Origin::Kind(kind) => kind.describe(),
            Origin::Lower(cause) => cause.describe(),
        }
    }

    /// Hands out the chained cause, where there is one.
    pub fn cause(&self) -> (c: Option<Cause>)
        ensures
            c == self.source(),
    {
        match &self.origin {
            Origin::Kind(kind) => kind.cause(),
            Origin::Lower(_) => None,
        }
    }
}

impl From<ErrorKind> for ErasedFailure {
    fn from(kind: ErrorKind) -> (erased: ErasedFailure)
        ensures
            erased.description() == kind.description(),
            erased.source() == kind.source(),
    {
        ErasedFailure { origin: Origin::Kind(kind) }
    }
}

impl FromSpecImpl<ErrorKind> for ErasedFailure {
    open spec fn obeys_from_spec() -> bool {
        true
    }

    closed spec fn from_spec(kind: ErrorKind) -> ErasedFailure {
        ErasedFailure { origin: Origin::Kind(kind) }
    }
}

impl From<IoCause> for ErasedFailure {
    fn from(cause: IoCause) -> (erased: ErasedFailure)
        ensures
            erased.description() == cause.text(),
            erased.source() is None,
    {
        ErasedFailure { origin: Origin::Lower(Cause::Io(cause)) }
    }
}

impl FromSpecImpl<IoCause> for ErasedFailure {
    open spec fn obeys_from_spec() -> bool {
        true
    }

    closed spec fn from_spec(cause: IoCause) -> ErasedFailure {
        ErasedFailure { origin: Origin::Lower(Cause::Io(cause)) }
    }
}

impl From<ParseCause> for ErasedFailure {
    fn from(cause: ParseCause) -> (erased: ErasedFailure)
        ensures
            erased.description() == cause.text(),
            erased.source() is None,
    {
        ErasedFailure { origin: Origin::Lower(Cause::Parse(cause)) }
    }
}

impl FromSpecImpl<ParseCause> for ErasedFailure {
    open spec fn obeys_from_spec() -> bool {
        true
    }

    closed spec fn from_spec(cause: ParseCause) -> ErasedFailure {
        ErasedFailure { origin: Origin::Lower(Cause::Parse(cause)) }
    }
}

/// Erasing an error of the taxonomy keeps its description and its cause.
pub proof fn lemma_erased_kind(kind: ErrorKind)
    ensures
        <ErasedFailure as FromSpec<ErrorKind>>::from_spec(kind).description()
            == kind.description(),
        <ErasedFailure as FromSpec<ErrorKind>>::from_spec(kind).source() == kind.source(),
{
}

/// Erasing an I/O error record keeps its description; there is no cause
/// behind it.
pub proof fn lemma_erased_io(cause: IoCause)
    ensures
        <ErasedFailure as FromSpec<IoCause>>::from_spec(cause).description() == cause.text(),
        <ErasedFailure as FromSpec<IoCause>>::from_spec(cause).source() is None,
{
}

/// Erasing a parse error record keeps its description; there is no cause
/// behind it.
pub proof fn lemma_erased_parse(cause: ParseCause)
    ensures
        <ErasedFailure as FromSpec<ParseCause>>::from_spec(cause).description() == cause.text(),
        <ErasedFailure as FromSpec<ParseCause>>::from_spec(cause).source() is None,
{
}

} // verus!
