//! The rules that a document can break.

use vstd::prelude::*;

verus! {

/// Why a document, a line or a form field was rejected. Each value names one rule.
#[derive(Clone, Copy, Debug, PartialEq, Eq, Structural)]
pub enum ParseError {
    /// A line of the metadata block is shorter than a tag.
    MetadataLineTooShort,
    /// A line of the metadata block begins with no known tag.
    InvalidMetadataTag,
    /// The cache tag holds no unsigned number.
    InvalidCacheValue,
    /// A line of the header block holds no link.
    InvalidHeaderLine,
    /// An ordered list item or a dropdown lacks the delimiter between its two parts.
    MissingDelimiter,
    /// The document opens more form blocks than can be counted.
    TooManyForms,
    /// An identifier holds something else than ASCII letters and underscores.
    InvalidId,
    /// A form field lacks the colon that ends its identifier.
    MissingFieldId,
    /// A form field names no known type.
    InvalidFieldType,
    /// A submit field lacks its destination.
    MissingDestination,
    /// A file field has a default value.
    FileDefault,
    /// A length or size bound is no positive number.
    InvalidBound,
    /// A property of an integer field is no integer.
    InvalidInteger,
    /// A property of a float field is no decimal number.
    InvalidFloat,
    /// The default of a boolean field is neither `true` nor `false`.
    InvalidBoolean,
    /// A property of a list field is no positive number.
    InvalidListBound,
    /// A child of a list field is no identifier.
    InvalidChildId,
    /// A property of a date field is neither a timestamp nor `now`.
    InvalidDate,
    /// The default of an email field is no email address.
    InvalidEmail,
    /// The target of a condition is no identifier.
    InvalidConditionTarget,
}

/// What was read, seen through its view, or the error.
pub open spec fn read_as<T: DeepView>(r: Result<T, ParseError>) -> Result<T::V, ParseError> {
    match r {
        Ok(v) => Ok(v.deep_view()),
        Err(e) => Err(e),
    }
}

impl ParseError {
    /// A short description of the broken rule.
    pub fn message(&self) -> (text: &'static str)
        ensures
            text@ == self.description(),
    {
        match self {
            ParseError::MetadataLineTooShort => "Invalid Metadata tag line encountered (too short)",
            ParseError::InvalidMetadataTag => "Invalid Metadata tag line encountered",
            ParseError::InvalidCacheValue => "Invalid cache tag value",
            ParseError::InvalidHeaderLine => "Invalid header line encountered",
            ParseError::MissingDelimiter => "Incorrectly delimited line encountered",
            ParseError::TooManyForms => "Too many form blocks encountered",
            ParseError::InvalidId => "Found form field with invalid ID",
            ParseError::MissingFieldId => "Form field with no ID found",
            ParseError::InvalidFieldType => "Form field with invalid type found",
            ParseError::MissingDestination => "Submit type form field without destination found",
            ParseError::FileDefault => "File type form field with default property found",
            ParseError::InvalidBound => "invalid integer property found",
            ParseError::InvalidInteger =>
                "Integer type form field with invalid input type property found",
            ParseError::InvalidFloat =>
                "Float type form field with invalid input type property found",
            ParseError::InvalidBoolean =>
                "Bool type form field with invalid default property found",
            ParseError::InvalidListBound =>
                "List type form field with invalid input type property found",
            ParseError::InvalidChildId => "List field with invalid child ID found",
            ParseError::InvalidDate =>
                "Date type form field with invalid input type property found",
            ParseError::InvalidEmail =>
                "Email type form field with invalid default property found",
            ParseError::InvalidConditionTarget => "Invalid ID",
        }
    }

    /// The text that `message` returns.
    pub open spec fn description(&self) -> Seq<char> {
        match self {
            ParseError::MetadataLineTooShort =>
                "Invalid Metadata tag line encountered (too short)"@,
            ParseError::InvalidMetadataTag => "Invalid Metadata tag line encountered"@,
            ParseError::InvalidCacheValue => "Invalid cache tag value"@,
            ParseError::InvalidHeaderLine => "Invalid header line encountered"@,
            ParseError::MissingDelimiter => "Incorrectly delimited line encountered"@,
            ParseError::TooManyForms => "Too many form blocks encountered"@,
            ParseError::InvalidId => "Found form field with invalid ID"@,
            ParseError::MissingFieldId => "Form field with no ID found"@,
            ParseError::InvalidFieldType => "Form field with invalid type found"@,
            ParseError::MissingDestination => "Submit type form field without destination found"@,
            ParseError::FileDefault => "File type form field with default property found"@,
            ParseError::InvalidBound => "invalid integer property found"@,
            ParseError::InvalidInteger =>
                "Integer type form field with invalid input type property found"@,
            ParseError::InvalidFloat =>
                "Float type form field with invalid input type property found"@,
            ParseError::InvalidBoolean =>
                "Bool type form field with invalid default property found"@,
            ParseError::InvalidListBound =>
                "List type form field with invalid input type property found"@,
            ParseError::InvalidChildId => "List field with invalid child ID found"@,
            ParseError::InvalidDate =>
                "Date type form field with invalid input type property found"@,
            ParseError::InvalidEmail =>
                "Email type form field with invalid default property found"@,
            ParseError::InvalidConditionTarget => "Invalid ID"@,
        }
    }
}

} // verus!
