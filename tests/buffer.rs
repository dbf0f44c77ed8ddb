use odbc_api_helper::buffer::{buffer_desc, BufferDesc};
use odbc_api_helper::column::{DataType, OdbcColumnDescription};
use odbc_api_helper::error::OdbcError;
use odbc_api_helper::options::{Options, SupportDatabase};
use odbc_api_helper::query::buffer_descs;

fn col(data_type: DataType, nullable: bool) -> OdbcColumnDescription {
    OdbcColumnDescription { name: "c".to_string(), data_type, nullable }
}

fn small() -> Options {
    Options {
        database: SupportDatabase::Dameng,
        max_batch_size: 4,
        max_str_len: 10,
        max_binary_len: 20,
        case_sensitive: false,
    }
}

#[test]
fn text_within_limit_keeps_length() {
    let d = buffer_desc(&col(DataType::Varchar { length: 8 }, true), &small()).unwrap();
    assert_eq!(d, BufferDesc::Text { max_str_len: 8 });
}

#[test]
fn text_over_limit_is_capped() {
    let d = buffer_desc(&col(DataType::Varchar { length: 4000 }, true), &small()).unwrap();
    assert_eq!(d, BufferDesc::Text { max_str_len: 10 });
    let d = buffer_desc(&col(DataType::LongVarchar { length: 0 }, true), &small()).unwrap();
    assert_eq!(d, BufferDesc::Text { max_str_len: 10 });
    let d = buffer_desc(&col(DataType::WVarchar { length: 99 }, true), &small()).unwrap();
    assert_eq!(d, BufferDesc::WText { max_str_len: 10 });
}

#[test]
fn binary_over_limit_is_capped() {
    let d = buffer_desc(&col(DataType::Varbinary { length: 1 << 30 }, true), &small()).unwrap();
    assert_eq!(d, BufferDesc::Binary { max_bytes: 20 });
    let d = buffer_desc(&col(DataType::Binary { length: 16 }, false), &small()).unwrap();
    assert_eq!(d, BufferDesc::Binary { max_bytes: 16 });
}

#[test]
fn fixed_width_kinds() {
    let o = small();
    assert_eq!(buffer_desc(&col(DataType::Integer, false), &o).unwrap(), BufferDesc::I32 { nullable: false });
    assert_eq!(buffer_desc(&col(DataType::BigInt, true), &o).unwrap(), BufferDesc::I64 { nullable: true });
    assert_eq!(buffer_desc(&col(DataType::Double, true), &o).unwrap(), BufferDesc::F64 { nullable: true });
    assert_eq!(buffer_desc(&col(DataType::Float { precision: 53 }, true), &o).unwrap(), BufferDesc::F64 { nullable: true });
    assert_eq!(buffer_desc(&col(DataType::Float { precision: 10 }, true), &o).unwrap(), BufferDesc::F32 { nullable: true });
    assert_eq!(buffer_desc(&col(DataType::Timestamp { precision: 6 }, true), &o).unwrap(), BufferDesc::Timestamp { nullable: true });
    assert_eq!(
        buffer_desc(&col(DataType::Numeric { precision: 12, scale: 0 }, true), &o).unwrap(),
        BufferDesc::I64 { nullable: true }
    );
    assert_eq!(
        buffer_desc(&col(DataType::Decimal { precision: 5, scale: 2 }, true), &o).unwrap(),
        BufferDesc::Text { max_str_len: 7 }
    );
}

#[test]
fn unknown_type_is_a_conversion_error() {
    let r = buffer_desc(&col(DataType::Unknown, true), &small());
    assert!(matches!(r, Err(OdbcError::TypeConversionError(_))));
    let r = buffer_desc(
        &col(DataType::Other { data_type: -150, column_size: 1, decimal_digits: 0 }, true),
        &small(),
    );
    assert!(matches!(r, Err(OdbcError::TypeConversionError(_))));
    let r = buffer_desc(&col(DataType::Float { precision: 60 }, true), &small());
    assert!(matches!(r, Err(OdbcError::TypeConversionError(_))));
}

#[test]
fn buffer_descs_fail_on_any_bad_column() {
    let cols = vec![col(DataType::Integer, true), col(DataType::Unknown, true)];
    assert!(matches!(buffer_descs(&cols, &small()), Err(OdbcError::TypeConversionError(_))));
    let cols = vec![col(DataType::Integer, true), col(DataType::Char { length: 3 }, true)];
    assert_eq!(
        buffer_descs(&cols, &small()).unwrap(),
        vec![BufferDesc::I32 { nullable: true }, BufferDesc::Text { max_str_len: 3 }]
    );
}
