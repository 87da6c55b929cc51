//! The ways a request can be rejected before any statement runs.
use vstd::prelude::*;
use vstd::string::*;

verus! {

/// Why a filter expression could not be read.
#[derive(Clone, Copy, Debug, PartialEq, Eq, Structural)]
pub enum FilterError {
    /// The percent-encoding does not decode to UTF-8 text.
    DecodeError,
    /// The column or the value is empty once trimmed.
    InvalidFormat,
    /// None of the comparison operators occurs in the expression.
    NoOperatorFound,
}

/// Why a request was refused; each of these is the client's fault.
#[derive(Clone, Copy, Debug, PartialEq, Eq, Structural)]
pub enum QueryError {
    InvalidTableName,
    InvalidColumnName,
    InvalidFilter(FilterError),
    InvalidSortOrder,
}

pub open spec fn filter_error_text(e: FilterError) -> Seq<char> {
    match e {
        FilterError::DecodeError => "Failed to decode URL"@,
        FilterError::InvalidFormat => "Invalid filter format"@,
        FilterError::NoOperatorFound => "No valid operator found"@,
    }
}

pub open spec fn query_error_text(e: QueryError) -> Seq<char> {
    match e {
        QueryError::InvalidTableName => "Invalid table name"@,
        QueryError::InvalidColumnName => "Invalid column name"@,
        QueryError::InvalidFilter(f) => "Invalid filter: "@ + filter_error_text(f),
        QueryError::InvalidSortOrder => "Invalid sort order. Use 'asc' or 'desc'"@,
    }
}

impl FilterError {
    /// A human-readable description.
    pub fn message(&self) -> (r: String)
        ensures
            r@ == filter_error_text(*self),
    {
        match self {
            FilterError::DecodeError => String::from_str("Failed to decode URL"),
            FilterError::InvalidFormat => String::from_str("Invalid filter format"),
            FilterError::NoOperatorFound => String::from_str("No valid operator found"),
        }
    }
}

impl QueryError {
    /// A human-readable description, as reported to the client.
    pub fn message(&self) -> (r: String)
        ensures
            r@ == query_error_text(*self),
    {
        match self {
            QueryError::InvalidTableName => String::from_str("Invalid table name"),
            QueryError::InvalidColumnName => String::from_str("Invalid column name"),
            QueryError::InvalidFilter(f) => {
                let s = String::from_str("Invalid filter: ");
                s.concat(f.message().as_str())
            },
            QueryError::InvalidSortOrder => String::from_str(
                "Invalid sort order. Use 'asc' or 'desc'",
            ),
        }
    }
}

} // verus!
