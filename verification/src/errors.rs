//! Error taxonomy of the parsers. Every failure is structured: it names the
//! missing element, the offending value, or the mismatched identifiers, so a
//! caller can render a full causal chain. Nothing is silently defaulted.
use vstd::prelude::*;
use crate::codes::PrefCode;
use crate::codes::CityCode;

verus! {

/// Why a single field or item failed to parse.
#[derive(Debug, PartialEq, Eq)]
pub enum ParseError {
    /// An expected markup element or attribute is absent.
    MissingElement { what: String },
    /// A value is present but does not parse as the expected shape.
    Format { what: String, value: String },
    /// A value is present but outside the closed set of accepted labels.
    UnrecognizedValue { value: String },
    /// The prefecture code found on the page differs from the one requested.
    Consistency { expected: PrefCode, found: PrefCode },
}

/// Mathematical image of a `ParseError`.
pub ghost enum ParseErrorV {
    MissingElement { what: Seq<char> },
    Format { what: Seq<char>, value: Seq<char> },
    UnrecognizedValue { value: Seq<char> },
    Consistency { expected: PrefCode, found: PrefCode },
}

impl View for ParseError {
    type V = ParseErrorV;

    open spec fn view(&self) -> ParseErrorV {
        match self {
            ParseError::MissingElement { what } => (ParseErrorV::MissingElement {
                what: what@,
            }),
            ParseError::Format { what, value } => (ParseErrorV::Format {
                what: what@,
                value: value@,
            }),
            ParseError::UnrecognizedValue { value } => (ParseErrorV::UnrecognizedValue {
                value: value@,
            }),
            ParseError::Consistency { expected, found } => (ParseErrorV::Consistency {
                expected: *expected,
                found: *found,
            }),
        }
    }
}

/// A whole-page failure of the index parser: the raw markup of the offending
/// anchor together with the underlying cause.
#[derive(Debug, PartialEq, Eq)]
pub struct IndexError {
    pub fragment: String,
    pub cause: ParseError,
}

/// Mathematical image of an `IndexError`.
pub ghost struct IndexErrorV {
    pub fragment: Seq<char>,
    pub cause: ParseErrorV,
}

impl View for IndexError {
    type V = IndexErrorV;

    open spec fn view(&self) -> IndexErrorV {
        IndexErrorV { fragment: self.fragment@, cause: self.cause@ }
    }
}

/// A whole-page failure of the listing parser: the raw markup of the
/// offending item, the (prefecture, city) being processed, and the cause.
#[derive(Debug, PartialEq, Eq)]
pub struct ListingError {
    pub fragment: String,
    pub prefecture: PrefCode,
    pub city: CityCode,
    pub cause: ParseError,
}

/// Mathematical image of a `ListingError`.
pub ghost struct ListingErrorV {
    pub fragment: Seq<char>,
    pub prefecture: PrefCode,
    pub city: CityCode,
    pub cause: ParseErrorV,
}

impl View for ListingError {
    type V = ListingErrorV;

    open spec fn view(&self) -> ListingErrorV {
        ListingErrorV {
            fragment: self.fragment@,
            prefecture: self.prefecture,
            city: self.city,
            cause: self.cause@,
        }
    }
}

} // verus!
