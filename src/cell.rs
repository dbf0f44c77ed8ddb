use vstd::prelude::*;

use crate::buffer::BufferDesc;
use crate::options::Options;

verus! {

/// One typed value read out of a fetch buffer.
///
/// Floating-point values are carried as their IEEE-754 bit patterns.
#[derive(Debug, Clone, PartialEq, Eq)]
pub enum Cell {
    Null,
    Text(Vec<u8>),
    WText(Vec<u16>),
    Binary(Vec<u8>),
    Bit(bool),
    I8(i8),
    I16(i16),
    I32(i32),
    I64(i64),
    U8(u8),
    F32Bits(u32),
    F64Bits(u64),
    Date { year: i16, month: u16, day: u16 },
    Time { hour: u16, minute: u16, second: u16 },
    Timestamp {
        year: i16,
        month: u16,
        day: u16,
        hour: u16,
        minute: u16,
        second: u16,
        fraction: u32,
    },
}

/// Whether a column of layout `d` may hold a null.
pub open spec fn admits_null(d: BufferDesc) -> bool {
    match d {
        BufferDesc::Binary { .. } | BufferDesc::Text { .. } | BufferDesc::WText { .. } => true,
        BufferDesc::F64 { nullable } | BufferDesc::F32 { nullable } | BufferDesc::Date { nullable }
        | BufferDesc::Time { nullable } | BufferDesc::Timestamp { nullable } | BufferDesc::I8 {
            nullable,
        } | BufferDesc::I16 { nullable } | BufferDesc::I32 { nullable } | BufferDesc::I64 {
            nullable,
        } | BufferDesc::U8 { nullable } | BufferDesc::Bit { nullable } => nullable,
    }
}

/// Whether `c` is a value that a buffer of layout `d` can hold: the kinds
/// agree and a variable-length value stays within the declared bound.
pub open spec fn cell_fits(c: Cell, d: BufferDesc) -> bool {
    match c {
        Cell::Null => admits_null(d),
        Cell::Text(b) => d matches BufferDesc::Text { max_str_len } && b@.len() <= max_str_len,
        Cell::WText(w) => d matches BufferDesc::WText { max_str_len } && w@.len() <= max_str_len,
        Cell::Binary(b) => d matches BufferDesc::Binary { max_bytes } && b@.len() <= max_bytes,
        Cell::Bit(_) => d is Bit,
        Cell::I8(_) => d is I8,
        Cell::I16(_) => d is I16,
        Cell::I32(_) => d is I32,
        Cell::I64(_) => d is I64,
        Cell::U8(_) => d is U8,
        Cell::F32Bits(_) => d is F32,
        Cell::F64Bits(_) => d is F64,
        Cell::Date { .. } => d is Date,
        Cell::Time { .. } => d is Time,
        Cell::Timestamp { .. } => d is Timestamp,
    }
}

/// Text values hold at most `max_str_len` bytes (or code units), binary
/// values at most `max_binary_len` bytes.
pub open spec fn cell_bounded(c: Cell, o: Options) -> bool {
    match c {
        Cell::Text(b) => b@.len() <= o.max_str_len,
        Cell::WText(w) => w@.len() <= o.max_str_len,
        Cell::Binary(b) => b@.len() <= o.max_binary_len,
        _ => true,
    }
}

/// A value that fits a layout within the configured limits is bounded by
/// those limits.
pub proof fn lemma_fits_bounded(c: Cell, d: BufferDesc, o: Options)
    requires
        cell_fits(c, d),
        crate::buffer::within_limits(d, o),
    ensures
        cell_bounded(c, o),
{
}

/// Tests whether `c` fits a buffer of layout `d`.
pub fn fits(c: &Cell, d: &BufferDesc) -> (r: bool)
    ensures
        r == cell_fits(*c, *d),
{
    match c {
        Cell::Null => match d {
            BufferDesc::Binary { .. } | BufferDesc::Text { .. } | BufferDesc::WText { .. } => true,
            BufferDesc::F64 { nullable } | BufferDesc::F32 { nullable } | BufferDesc::Date {
                nullable,
            } | BufferDesc::Time { nullable } | BufferDesc::Timestamp { nullable }
            | BufferDesc::I8 { nullable } | BufferDesc::I16 { nullable } | BufferDesc::I32 {
                nullable,
            } | BufferDesc::I64 { nullable } | BufferDesc::U8 { nullable } | BufferDesc::Bit {
                nullable,
            } => *nullable,
        },
        Cell::Text(b) => match d {
            BufferDesc::Text { max_str_len } => b.len() <= *max_str_len,
            _ => false,
        },
        Cell::WText(w) => match d {
            BufferDesc::WText { max_str_len } => w.len() <= *max_str_len,
            _ => false,
        },
        Cell::Binary(b) => match d {
            BufferDesc::Binary { max_bytes } => b.len() <= *max_bytes,
            _ => false,
        },
        Cell::Bit(_) => matches!(d, BufferDesc::Bit { .. }),
        Cell::I8(_) => matches!(d, BufferDesc::I8 { .. }),
        Cell::I16(_) => matches!(d, BufferDesc::I16 { .. }),
        Cell::I32(_) => matches!(d, BufferDesc::I32 { .. }),
        Cell::I64(_) => matches!(d, BufferDesc::I64 { .. }),
        Cell::U8(_) => matches!(d, BufferDesc::U8 { .. }),
        Cell::F32Bits(_) => matches!(d, BufferDesc::F32 { .. }),
        Cell::F64Bits(_) => matches!(d, BufferDesc::F64 { .. }),
        Cell::Date { .. } => matches!(d, BufferDesc::Date { .. }),
        Cell::Time { .. } => matches!(d, BufferDesc::Time { .. }),
        Cell::Timestamp { .. } => matches!(d, BufferDesc::Timestamp { .. }),
    }
}

} // verus!
