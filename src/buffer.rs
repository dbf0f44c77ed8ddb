use vstd::prelude::*;

use crate::column::{DataType, OdbcColumnDescription};
use crate::error::OdbcError;
use crate::options::Options;

verus! {

/// The memory layout of one column of a fetch buffer.
#[derive(Debug, Clone, Copy, PartialEq, Eq, Structural)]
pub enum BufferDesc {
    /// Bytes, at most `max_bytes` per value.
    Binary { max_bytes: usize },
    /// Narrow text, at most `max_str_len` bytes per value.
    Text { max_str_len: usize },
    /// Wide text, at most `max_str_len` code units per value.
    WText { max_str_len: usize },
    F64 { nullable: bool },
    F32 { nullable: bool },
    Date { nullable: bool },
    Time { nullable: bool },
    Timestamp { nullable: bool },
    I8 { nullable: bool },
    I16 { nullable: bool },
    I32 { nullable: bool },
    I64 { nullable: bool },
    U8 { nullable: bool },
    Bit { nullable: bool },
}

/// A reported length capped at the configured maximum; an unreported
/// (zero) length takes the maximum.
pub open spec fn capped(length: usize, max: usize) -> usize {
    if length == 0 || length > max {
        max
    } else {
        length
    }
}

/// `a + b`, or `usize::MAX` where the sum does not fit.
pub open spec fn saturating(a: usize, b: usize) -> usize {
    if a + b > usize::MAX {
        usize::MAX
    } else {
        (a + b) as usize
    }
}

/// The layout of a column of type `t`, or `None` where no layout fits.
pub open spec fn spec_buffer_desc(t: DataType, nullable: bool, o: Options) -> Option<BufferDesc> {
    match t {
        DataType::Char { length } | DataType::Varchar { length } | DataType::LongVarchar {
            length,
        } => Some(BufferDesc::Text { max_str_len: capped(length, o.max_str_len) }),
        DataType::WChar { length } | DataType::WVarchar { length } | DataType::WLongVarchar {
            length,
        } => Some(BufferDesc::WText { max_str_len: capped(length, o.max_str_len) }),
        DataType::Binary { length } | DataType::Varbinary { length } | DataType::LongVarbinary {
            length,
        } => Some(BufferDesc::Binary { max_bytes: capped(length, o.max_binary_len) }),
        DataType::Numeric { precision, scale } | DataType::Decimal { precision, scale } => {
            if scale == 0 && precision < 10 {
                Some(BufferDesc::I32 { nullable })
            } else if scale == 0 && precision < 19 {
                Some(BufferDesc::I64 { nullable })
            } else {
                // sign and decimal point besides the digits
                Some(BufferDesc::Text { max_str_len: capped(saturating(precision, 2), o.max_str_len) })
            }
        },
        DataType::TinyInt => Some(BufferDesc::I8 { nullable }),
        DataType::SmallInt => Some(BufferDesc::I16 { nullable }),
        DataType::Integer => Some(BufferDesc::I32 { nullable }),
        DataType::BigInt => Some(BufferDesc::I64 { nullable }),
        DataType::Real => Some(BufferDesc::F32 { nullable }),
        DataType::Double => Some(BufferDesc::F64 { nullable }),
        DataType::Float { precision } => {
            if precision <= 24 {
                Some(BufferDesc::F32 { nullable })
            } else if precision <= 53 {
                Some(BufferDesc::F64 { nullable })
            } else {
                None
            }
        },
        DataType::Bit => Some(BufferDesc::Bit { nullable }),
        DataType::Date => Some(BufferDesc::Date { nullable }),
        DataType::Time { precision } => {
            if precision == 0 {
                Some(BufferDesc::Time { nullable })
            } else {
                // "hh:mm:ss." and the fraction digits
                Some(BufferDesc::Text { max_str_len: capped(32, o.max_str_len) })
            }
        },
        DataType::Timestamp { precision: _ } => Some(BufferDesc::Timestamp { nullable }),
        DataType::Unknown | DataType::Other { .. } => None,
    }
}

/// The declared bound of a variable-length layout never exceeds the
/// configured maximum of its kind.
pub open spec fn within_limits(d: BufferDesc, o: Options) -> bool {
    match d {
        BufferDesc::Text { max_str_len } => max_str_len <= o.max_str_len,
        BufferDesc::WText { max_str_len } => max_str_len <= o.max_str_len,
        BufferDesc::Binary { max_bytes } => max_bytes <= o.max_binary_len,
        _ => true,
    }
}

fn capped_len(length: usize, max: usize) -> (r: usize)
    ensures
        r == capped(length, max),
{
    if length == 0 || length > max {
        max
    } else {
        length
    }
}

/// Maps a column's metadata to the layout of its fetch buffer.
pub fn buffer_desc(col: &OdbcColumnDescription, options: &Options) -> (r: Result<
    BufferDesc,
    OdbcError,
>)
    ensures
        spec_buffer_desc(col.data_type, col.nullable, *options) is Some <==> r is Ok,
        r is Ok ==> r->Ok_0 == spec_buffer_desc(col.data_type, col.nullable, *options)->Some_0,
        r is Ok ==> within_limits(r->Ok_0, *options),
        r is Err ==> r->Err_0 is TypeConversionError,
{
    let nullable = col.nullable;
    let o = options;
    let d = match col.data_type {
        DataType::Char { length } | DataType::Varchar { length } | DataType::LongVarchar {
            length,
        } => BufferDesc::Text { max_str_len: capped_len(length, o.max_str_len) },
        DataType::WChar { length } | DataType::WVarchar { length } | DataType::WLongVarchar {
            length,
        } => BufferDesc::WText { max_str_len: capped_len(length, o.max_str_len) },
        DataType::Binary { length } | DataType::Varbinary { length } | DataType::LongVarbinary {
            length,
        } => BufferDesc::Binary { max_bytes: capped_len(length, o.max_binary_len) },
        DataType::Numeric { precision, scale } | DataType::Decimal { precision, scale } => {
            if scale == 0 && precision < 10 {
                BufferDesc::I32 { nullable }
            } else if scale == 0 && precision < 19 {
                BufferDesc::I64 { nullable }
            } else {
                let width: usize = if precision > usize::MAX - 2 {
                    usize::MAX
                } else {
                    precision + 2
                };
                BufferDesc::Text { max_str_len: capped_len(width, o.max_str_len) }
            }
        },
        DataType::TinyInt => BufferDesc::I8 { nullable },
        DataType::SmallInt => BufferDesc::I16 { nullable },
        DataType::Integer => BufferDesc::I32 { nullable },
        DataType::BigInt => BufferDesc::I64 { nullable },
        DataType::Real => BufferDesc::F32 { nullable },
        DataType::Double => BufferDesc::F64 { nullable },
        DataType::Float { precision } => {
            if precision <= 24 {
                BufferDesc::F32 { nullable }
            } else if precision <= 53 {
                BufferDesc::F64 { nullable }
            } else {
                return Err(OdbcError::TypeConversionError("float precision out of range".to_string()));
            }
        },
        DataType::Bit => BufferDesc::Bit { nullable },
        DataType::Date => BufferDesc::Date { nullable },
        DataType::Time { precision } => {
            if precision == 0 {
                BufferDesc::Time { nullable }
            } else {
                BufferDesc::Text { max_str_len: capped_len(32, o.max_str_len) }
            }
        },
        DataType::Timestamp { precision: _ } => BufferDesc::Timestamp { nullable },
        DataType::Unknown | DataType::Other { .. } => {
            return Err(OdbcError::TypeConversionError("column type has no buffer layout".to_string()));
        },
    };
    Ok(d)
}

} // verus!
