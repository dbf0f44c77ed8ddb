use vstd::prelude::*;

verus! {

/// The SQL type of a column or parameter as the driver reports it.
///
/// A length of zero stands for a length the driver did not report.
#[derive(Debug, Clone, Copy, PartialEq, Eq, Structural)]
pub enum DataType {
    Unknown,
    Char { length: usize },
    WChar { length: usize },
    Varchar { length: usize },
    WVarchar { length: usize },
    LongVarchar { length: usize },
    WLongVarchar { length: usize },
    Binary { length: usize },
    Varbinary { length: usize },
    LongVarbinary { length: usize },
    Numeric { precision: usize, scale: i16 },
    Decimal { precision: usize, scale: i16 },
    TinyInt,
    SmallInt,
    Integer,
    BigInt,
    Real,
    Double,
    Float { precision: usize },
    Bit,
    Date,
    Time { precision: i16 },
    Timestamp { precision: i16 },
    Other { data_type: i16, column_size: usize, decimal_digits: i16 },
}

/// Metadata of one result column.
#[derive(Debug, Clone)]
pub struct OdbcColumnDescription {
    pub name: String,
    pub data_type: DataType,
    /// False only where the driver reports that the column holds no nulls.
    pub nullable: bool,
}

/// Metadata of one bind parameter of a prepared statement.
#[derive(Debug, Clone, Copy, PartialEq, Eq, Structural)]
pub struct OdbcParamsDescription {
    pub data_type: DataType,
    pub nullable: bool,
}

} // verus!
