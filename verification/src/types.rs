//! The layered error types of the query layer and the row interface that
//! drivers implement.

use vstd::prelude::*;
use vstd::string::StringExecFns;

use crate::text::{decimal_text, usize_text};
use crate::value::DbValue;

verus! {

/// The primary error type of the query layer: a type, query or driver error,
/// or a missing record.
pub enum DbError {
    /// Type conversion, value access, or type checking failed.
    Type(TypeError),
    /// Query construction, validation, or syntax error.
    Query(QueryError),
    /// Database driver error: connection, execution, or transaction failure.
    Driver(DriverError),
    /// Record not found.
    NotFound,
}

/// Errors of type conversion and value access.
pub enum TypeError {
    /// A value was read as another type than the one it holds.
    Mismatch { expected: String, found: String },
    /// A column index past the end of a row.
    IndexOutOfBounds(usize),
    /// A column name that the row does not have.
    ColumnMissing(String),
}

/// Errors of query construction, validation and syntax.
pub enum QueryError {
    /// Building the query failed.
    Build(String),
    /// The query has invalid syntax.
    Syntax(String),
    /// A query argument has an invalid value.
    InvalidArgument(String),
}

/// Errors from the underlying database driver. Each holds the message of the
/// driver's own error.
pub enum DriverError {
    /// Connecting to the database failed.
    Connection(String),
    /// The database rejected or failed to run a query.
    Execution(String),
    /// Committing, rolling back or otherwise handling a transaction failed.
    Transaction(String),
}

/// Whether `e` is a type mismatch that names the expected and the found type.
pub open spec fn is_mismatch(e: DbError, expected: Seq<char>, found: Seq<char>) -> bool {
    e matches DbError::Type(TypeError::Mismatch { expected: x, found: y }) && x@ == expected && y@
        == found
}

impl TypeError {
    /// The message of this error.
    pub open spec fn spec_message(&self) -> Seq<char> {
        match self {
            TypeError::Mismatch { expected, found } => "type mismatch: expected "@ + expected@
                + ", found "@ + found@,
            TypeError::IndexOutOfBounds(i) => "index out of bounds: "@ + decimal_text(*i as nat),
            TypeError::ColumnMissing(c) => "missing column: '"@ + c@ + "'"@,
        }
    }

    /// Renders the message of this error.
    pub fn message(&self) -> (r: String)
        ensures
            r@ == self.spec_message(),
    {
        match self {
            TypeError::Mismatch { expected, found } => {
                let mut s = String::from_str("type mismatch: expected ");
                s.append(expected.as_str());
                s.append(", found ");
                s.append(found.as_str());
                s
            },
            TypeError::IndexOutOfBounds(i) => {
                let mut s = String::from_str("index out of bounds: ");
                let n = usize_text(*i);
                s.append(n.as_str());
                s
            },
            TypeError::ColumnMissing(c) => {
                let mut s = String::from_str("missing column: '");
                s.append(c.as_str());
                s.append("'");
                s
            },
        }
    }
}

impl QueryError {
    /// The message of this error.
    pub open spec fn spec_message(&self) -> Seq<char> {
        match self {
            QueryError::Build(m) => "failed to build query: "@ + m@,
            QueryError::Syntax(m) => "syntax error: "@ + m@,
            QueryError::InvalidArgument(m) => "invalid argument: "@ + m@,
        }
    }

    /// Renders the message of this error.
    pub fn message(&self) -> (r: String)
        ensures
            r@ == self.spec_message(),
    {
        let (head, m) = match self {
            QueryError::Build(m) => ("failed to build query: ", m),
            QueryError::Syntax(m) => ("syntax error: ", m),
            QueryError::InvalidArgument(m) => ("invalid argument: ", m),
        };
        let mut s = String::from_str(head);
        s.append(m.as_str());
        s
    }
}

impl DriverError {
    /// The message of this error. The driver's own message is its source, not
    /// part of this text.
    pub open spec fn spec_message(&self) -> Seq<char> {
        match self {
            DriverError::Connection(_) => "database connection failed"@,
            DriverError::Execution(_) => "query execution failed"@,
            DriverError::Transaction(_) => "transaction error"@,
        }
    }

    /// Renders the message of this error.
    pub fn message(&self) -> (r: String)
        ensures
            r@ == self.spec_message(),
    {
        match self {
            DriverError::Connection(_) => String::from_str("database connection failed"),
            DriverError::Execution(_) => String::from_str("query execution failed"),
            DriverError::Transaction(_) => String::from_str("transaction error"),
        }
    }

    /// The message of the driver's own error that this error wraps.
    pub fn source_message(&self) -> (r: &str)
        ensures
            r@ == match self {
                DriverError::Connection(m) => m@,
                DriverError::Execution(m) => m@,
                DriverError::Transaction(m) => m@,
            },
    {
        match self {
            DriverError::Connection(m) => m.as_str(),
            DriverError::Execution(m) => m.as_str(),
            DriverError::Transaction(m) => m.as_str(),
        }
    }
}

impl DbError {
    /// The message of this error: that of the wrapped error, or the
    /// not-found message.
    pub open spec fn spec_message(&self) -> Seq<char> {
        match self {
            DbError::Type(e) => e.spec_message(),
            DbError::Query(e) => e.spec_message(),
            DbError::Driver(e) => e.spec_message(),
            DbError::NotFound => "record not found"@,
        }
    }

    /// Renders the message of this error.
    pub fn message(&self) -> (r: String)
        ensures
            r@ == self.spec_message(),
    {
        match self {
            DbError::Type(e) => e.message(),
            DbError::Query(e) => e.message(),
            DbError::Driver(e) => e.message(),
            DbError::NotFound => String::from_str("record not found"),
        }
    }
}

impl From<TypeError> for DbError {
    fn from(e: TypeError) -> (r: DbError)
        ensures
            r == DbError::Type(e),
    {
        DbError::Type(e)
    }
}

impl vstd::std_specs::convert::FromSpecImpl<TypeError> for DbError {
    open spec fn obeys_from_spec() -> bool {
        true
    }

    open spec fn from_spec(e: TypeError) -> DbError {
        DbError::Type(e)
    }
}

impl From<QueryError> for DbError {
    fn from(e: QueryError) -> (r: DbError)
        ensures
            r == DbError::Query(e),
    {
        DbError::Query(e)
    }
}

impl vstd::std_specs::convert::FromSpecImpl<QueryError> for DbError {
    open spec fn obeys_from_spec() -> bool {
        true
    }

    open spec fn from_spec(e: QueryError) -> DbError {
        DbError::Query(e)
    }
}

impl From<DriverError> for DbError {
    fn from(e: DriverError) -> (r: DbError)
        ensures
            r == DbError::Driver(e),
    {
        DbError::Driver(e)
    }
}

impl vstd::std_specs::convert::FromSpecImpl<DriverError> for DbError {
    open spec fn obeys_from_spec() -> bool {
        true
    }

    open spec fn from_spec(e: DriverError) -> DbError {
        DbError::Driver(e)
    }
}

/// A row of a query result, read by column position or column name.
///
/// Drivers implement this trait for their native rows.
pub trait DbRow {
    /// The cell at a column position, if the row has that many columns.
    fn get_by_index(&self, index: usize) -> Option<&DbValue>;

    /// The cell under a column name, if the row has such a column.
    fn get_by_name(&self, name: &str) -> Option<&DbValue>;

    /// The number of columns.
    fn len(&self) -> usize;

    /// Whether the row has no column: whether `len` gives zero.
    fn is_empty(&self) -> (r: bool)
        ensures
            exists|n: usize| #[trigger] call_ensures(Self::len, (self,), n) && r == (n == 0),
    {
        let n = self.len();
        assert(call_ensures(Self::len, (self,), n));
        n == 0
    }

    /// The cell at a column position, converted to `T`; the index error when
    /// `get_by_index` finds no such column.
    fn get_by_index_as<'a, T: TryFrom<&'a DbValue, Error = DbError>>(&'a self, index: usize) -> (r:
        Result<T, DbError>) where Self: Sized,
        ensures
            exists|cell: Option<&'a DbValue>|
                #[trigger] call_ensures(Self::get_by_index, (self, index), cell) && match cell {
                    None => r == Err::<T, DbError>(DbError::Type(TypeError::IndexOutOfBounds(index))),
                    Some(v) => call_ensures(T::try_from, (v,), r),
                },
    {
        let cell = self.get_by_index(index);
        assert(call_ensures(Self::get_by_index, (self, index), cell));
        match cell {
            Some(value) => T::try_from(value),
            None => Err(DbError::Type(TypeError::IndexOutOfBounds(index))),
        }
    }

    /// The cell under a column name, converted to `T`; the missing-column
    /// error, naming the column, when `get_by_name` finds no such column.
    fn get_by_name_as<'a, T: TryFrom<&'a DbValue, Error = DbError>>(&'a self, name: &str) -> (r:
        Result<T, DbError>) where Self: Sized,
        ensures
            exists|cell: Option<&'a DbValue>|
                #[trigger] call_ensures(Self::get_by_name, (self, name), cell) && match cell {
                    None => r matches Err(DbError::Type(TypeError::ColumnMissing(c))) && c@ == name@,
                    Some(v) => call_ensures(T::try_from, (v,), r),
                },
    {
        let cell = self.get_by_name(name);
        assert(call_ensures(Self::get_by_name, (self, name), cell));
        match cell {
            Some(value) => T::try_from(value),
            None => Err(DbError::Type(TypeError::ColumnMissing(String::from_str(name)))),
        }
    }
}

} // verus!
