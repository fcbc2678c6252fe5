//! The ways in which a selection is refused before it starts.
use vstd::prelude::*;

verus! {

/// Why a selection cannot start. Each of these is found while the candidates
/// are prepared, before anything is duplicated.
#[derive(Clone, Copy, Debug, PartialEq, Eq, Structural)]
pub enum Error {
    /// The range holds no value: its start lies above its end.
    EmptyRange,
    /// The range has no end.
    NoUpperBound,
    /// There are more candidates than the greatest index of the platform.
    RangeTooLarge,
    /// The collection does not say how many items it has.
    UnknownSize,
    /// The collection has no items.
    NoChoices,
}

impl Error {
    /// The words in which the refusal is reported.
    pub fn message(&self) -> (r: &'static str)
        ensures
            r@ == match self {
                Error::EmptyRange => "'random' called with empty range"@,
                Error::NoUpperBound => "'random' called with no upper bound"@,
                Error::RangeTooLarge => "'random' called with too many choices"@,
                Error::UnknownSize => "'random' called with choices of unknown size"@,
                Error::NoChoices => "'random' called with no choices"@,
            },
    {
        match self {
            Error::EmptyRange => "'random' called with empty range",
            Error::NoUpperBound => "'random' called with no upper bound",
            Error::RangeTooLarge => "'random' called with too many choices",
            Error::UnknownSize => "'random' called with choices of unknown size",
            Error::NoChoices => "'random' called with no choices",
        }
    }
}

} // verus!
