//! The unified error type of the core layer.

use vstd::prelude::*;
use vstd::string::StringExecFns;

use crate::text::{decimal_text, usize_text};

verus! {

/// Unified error type of the core layer.
///
/// Driver implementors wrap their native errors in the `Driver` variant,
/// which keeps the native error's message.
pub enum DbError {
    /// The value held a different type than the one requested.
    TypeMismatch { expected: String, found: String },
    /// A column index was out of bounds for the row.
    ColumnIndexOutOfBounds(usize),
    /// A named column did not exist in the row.
    ColumnNotFound(String),
    /// An error from an underlying database driver or IO layer, by its message.
    Driver(String),
    /// A misuse caught by the library itself, such as closing a transaction
    /// twice.
    Internal(String),
}

impl DbError {
    /// Wraps a driver's error, given by its message, into the `Driver` variant.
    pub fn driver(message: String) -> (r: Self)
        ensures
            r == DbError::Driver(message),
    {
        DbError::Driver(message)
    }

    /// The message of this error.
    pub open spec fn spec_message(&self) -> Seq<char> {
        match self {
            DbError::TypeMismatch { expected, found } => "type mismatch: expected "@ + expected@
                + ", found "@ + found@,
            DbError::ColumnIndexOutOfBounds(i) => "column index out of bounds: "@ + decimal_text(
                *i as nat,
            ),
            DbError::ColumnNotFound(c) => "column not found: '"@ + c@ + "'"@,
            DbError::Driver(m) => "driver error: "@ + m@,
            DbError::Internal(m) => "internal error: "@ + m@,
        }
    }

    /// Renders the message of this error.
    pub fn message(&self) -> (r: String)
        ensures
            r@ == self.spec_message(),
    {
        match self {
            DbError::TypeMismatch { expected, found } => {
                let mut s = String::from_str("type mismatch: expected ");
                s.append(expected.as_str());
                s.append(", found ");
                s.append(found.as_str());
                s
            },
            DbError::ColumnIndexOutOfBounds(i) => {
                let mut s = String::from_str("column index out of bounds: ");
                let n = usize_text(*i);
                s.append(n.as_str());
                s
            },
            DbError::ColumnNotFound(c) => {
                let mut s = String::from_str("column not found: '");
                s.append(c.as_str());
                s.append("'");
                s
            },
            DbError::Driver(m) => {
                let mut s = String::from_str("driver error: ");
                s.append(m.as_str());
                s
            },
            DbError::Internal(m) => {
                let mut s = String::from_str("internal error: ");
                s.append(m.as_str());
                s
            },
        }
    }
}

} // verus!
