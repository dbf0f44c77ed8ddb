use vstd::prelude::*;

use crate::options::SupportDatabase;

verus! {

/// Every failure that an operation of this library can report.
#[derive(Debug, Clone, PartialEq, Eq)]
pub enum OdbcError {
    /// A failure surfaced by the connectivity layer, passed on verbatim.
    DriverError(String),
    /// A semantic contract violation: no cursor, a statement of the wrong
    /// shape, or a driver batch whose columns disagree in length.
    DataHandlerError(String),
    /// A column or parameter type without a buffer layout, or structured
    /// arguments of an unexpected shape.
    TypeConversionError(String),
    /// Table introspection asked of a dialect that has no registered query.
    UnsupportedDialect(SupportDatabase),
}

} // verus!
