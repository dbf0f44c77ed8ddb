use vstd::prelude::*;
use vstd::string::*;

use crate::column::{DataType, OdbcColumnDescription};
use crate::cell::Cell;
use crate::error::OdbcError;
use crate::options::SupportDatabase;
use crate::statement::TableDescArgs;

verus! {

/// The upper-case form of a name, as std's case mapping gives it.
pub uninterp spec fn upper_of(s: Seq<char>) -> Seq<char>;

/// Relies on `str::to_uppercase`: the result depends on the characters
/// alone, and the empty string stays empty.
#[verifier::external_body]
fn to_upper(s: &String) -> (r: String)
    ensures
        r@ == upper_of(s@),
        s@.len() == 0 ==> r@.len() == 0,
{
    s.to_uppercase()
}

/// A name as the catalog stores it: kept as given when case matters,
/// upper-cased otherwise.
pub open spec fn catalog_name(name: Seq<char>, case_sensitive: bool) -> Seq<char> {
    if case_sensitive {
        name
    } else {
        upper_of(name)
    }
}

/// Gives `name` the case under which the catalog stores it.
pub fn to_catalog_name(name: &String, case_sensitive: bool) -> (r: String)
    ensures
        r@ == catalog_name(name@, case_sensitive),
{
    if case_sensitive {
        name.clone()
    } else {
        to_upper(name)
    }
}

/// An introspection query: SQL with `?` placeholders and the text values
/// bound to them, in order.
#[derive(Debug, Clone)]
pub struct IntrospectionQuery {
    pub sql: String,
    pub params: Vec<String>,
}

/// The per-table columns that an introspection found.
#[derive(Debug, Clone)]
pub struct TableDesc {
    pub table_name: String,
    pub columns: Vec<OdbcColumnDescription>,
}

/// The result of an introspection, one entry per table.
#[derive(Debug, Clone)]
pub struct TableDescResult {
    pub tables: Vec<TableDesc>,
}

/// Whether a dialect has a registered introspection query.
pub open spec fn has_introspection(db: SupportDatabase) -> bool {
    db is Dameng
}

/// `n` comma-separated placeholders.
pub open spec fn placeholders(n: nat) -> Seq<char>
    decreases n,
{
    if n == 0 {
        Seq::empty()
    } else if n == 1 {
        seq!['?']
    } else {
        placeholders((n - 1) as nat) + seq![',', ' ', '?']
    }
}

/// The head of the catalog query, selecting the columns of a schema.
pub open spec fn dameng_head() -> Seq<char> {
    "SELECT TABLE_NAME, COLUMN_NAME, DATA_TYPE, DATA_LENGTH, DATA_PRECISION, DATA_SCALE, NULLABLE FROM ALL_TAB_COLUMNS WHERE OWNER = ?"@
}

/// The order in which the catalog query returns its rows.
pub open spec fn dameng_tail() -> Seq<char> {
    " ORDER BY TABLE_NAME, COLUMN_ID"@
}

/// The catalog query for `n` named tables; with none it covers every table
/// of the schema.
pub open spec fn dameng_sql(n: nat) -> Seq<char> {
    if n == 0 {
        dameng_head() + dameng_tail()
    } else {
        dameng_head() + " AND TABLE_NAME IN ("@ + placeholders(n) + ")"@ + dameng_tail()
    }
}

fn placeholder_list(n: usize) -> (r: String)
    ensures
        r@ == placeholders(n as nat),
{
    let mut s = String::new();
    let mut i: usize = 0;
    while i < n
        invariant
            i <= n,
            s@ == placeholders(i as nat),
        decreases n - i,
    {
        if i == 0 {
            proof {
                reveal_strlit("?");
            }
            s.append("?");
        } else {
            proof {
                reveal_strlit(", ?");
            }
            s.append(", ?");
        }
        i += 1;
    }
    s
}

fn dameng_query_text(n: usize) -> (r: String)
    ensures
        r@ == dameng_sql(n as nat),
{
    let mut s = String::from_str(
        "SELECT TABLE_NAME, COLUMN_NAME, DATA_TYPE, DATA_LENGTH, DATA_PRECISION, DATA_SCALE, NULLABLE FROM ALL_TAB_COLUMNS WHERE OWNER = ?",
    );
    if n > 0 {
        s.append(" AND TABLE_NAME IN (");
        let p = placeholder_list(n);
        s.append(p.as_str());
        s.append(")");
    }
    s.append(" ORDER BY TABLE_NAME, COLUMN_ID");
    s
}

/// Builds the introspection query of `database` for `args`.
///
/// Names are brought to the case the catalog stores them in. A dialect
/// without a registered query fails at once, naming the dialect.
pub fn introspection_query(
    database: SupportDatabase,
    args: &TableDescArgs,
    case_sensitive: bool,
) -> (r: Result<IntrospectionQuery, OdbcError>)
    ensures
        r is Ok <==> has_introspection(database),
        r is Err ==> r->Err_0 == OdbcError::UnsupportedDialect(database),
        r is Ok ==> r->Ok_0.sql@ == dameng_sql(args.table_names@.len()),
        r is Ok ==> r->Ok_0.params@.len() == args.table_names@.len() + 1,
        r is Ok ==> r->Ok_0.params@[0]@ == catalog_name(args.db_name@, case_sensitive),
        r is Ok ==> forall|i: int|
            0 <= i < args.table_names@.len() ==> (#[trigger] r->Ok_0.params@[i + 1])@
                == catalog_name(args.table_names@[i]@, case_sensitive),
{
    match database {
        SupportDatabase::Dameng => {
            let sql = dameng_query_text(args.table_names.len());
            let mut params: Vec<String> = Vec::new();
            params.push(to_catalog_name(&args.db_name, case_sensitive));
            let mut i: usize = 0;
            while i < args.table_names.len()
                invariant
                    i <= args.table_names@.len(),
                    params@.len() == i + 1,
                    params@[0]@ == catalog_name(args.db_name@, case_sensitive),
                    forall|j: int|
                        0 <= j < i ==> (#[trigger] params@[j + 1])@ == catalog_name(
                            args.table_names@[j]@,
                            case_sensitive,
                        ),
                decreases args.table_names@.len() - i,
            {
                params.push(to_catalog_name(&args.table_names[i], case_sensitive));
                i += 1;
            }
            Ok(IntrospectionQuery { sql, params })
        },
        SupportDatabase::Pg | SupportDatabase::Mysql => Err(OdbcError::UnsupportedDialect(database)),
    }
}


/// One row of the catalog query.
#[derive(Debug, Clone)]
pub struct CatalogRow {
    pub table_name: String,
    pub column_name: String,
    pub sql_type: String,
    pub length: usize,
    pub precision: usize,
    pub scale: i16,
    pub nullable: bool,
}

/// The SQL type that the catalog's type name, size, precision and scale
/// stand for; for time types the scale gives the fraction digits.
pub open spec fn catalog_type(name: Seq<char>, length: usize, precision: usize, scale: i16) -> DataType {
    if name == "CHAR"@ {
        DataType::Char { length }
    } else if name == "VARCHAR"@ {
        DataType::Varchar { length }
    } else if name == "VARCHAR2"@ {
        DataType::Varchar { length }
    } else if name == "TEXT"@ {
        DataType::LongVarchar { length }
    } else if name == "CLOB"@ {
        DataType::LongVarchar { length }
    } else if name == "BINARY"@ {
        DataType::Binary { length }
    } else if name == "VARBINARY"@ {
        DataType::Varbinary { length }
    } else if name == "BLOB"@ {
        DataType::LongVarbinary { length }
    } else if name == "IMAGE"@ {
        DataType::LongVarbinary { length }
    } else if name == "NUMERIC"@ {
        DataType::Numeric { precision, scale }
    } else if name == "NUMBER"@ {
        DataType::Numeric { precision, scale }
    } else if name == "DECIMAL"@ {
        DataType::Decimal { precision, scale }
    } else if name == "DEC"@ {
        DataType::Decimal { precision, scale }
    } else if name == "INT"@ {
        DataType::Integer
    } else if name == "INTEGER"@ {
        DataType::Integer
    } else if name == "BIGINT"@ {
        DataType::BigInt
    } else if name == "SMALLINT"@ {
        DataType::SmallInt
    } else if name == "TINYINT"@ {
        DataType::TinyInt
    } else if name == "BYTE"@ {
        DataType::TinyInt
    } else if name == "BIT"@ {
        DataType::Bit
    } else if name == "REAL"@ {
        DataType::Real
    } else if name == "FLOAT"@ {
        DataType::Double
    } else if name == "DOUBLE"@ {
        DataType::Double
    } else if name == "DATE"@ {
        DataType::Date
    } else if name == "TIME"@ {
        DataType::Time { precision: scale }
    } else if name == "TIMESTAMP"@ {
        DataType::Timestamp { precision: scale }
    } else if name == "DATETIME"@ {
        DataType::Timestamp { precision: scale }
    } else {
        DataType::Unknown
    }
}

/// Reads the SQL type of a catalog row.
pub fn catalog_data_type(name: &String, length: usize, precision: usize, scale: i16) -> (r: DataType)
    ensures
        r == catalog_type(name@, length, precision, scale),
{
    if *name == String::from_str("CHAR") {
        DataType::Char { length }
    } else if *name == String::from_str("VARCHAR") {
        DataType::Varchar { length }
    } else if *name == String::from_str("VARCHAR2") {
        DataType::Varchar { length }
    } else if *name == String::from_str("TEXT") {
        DataType::LongVarchar { length }
    } else if *name == String::from_str("CLOB") {
        DataType::LongVarchar { length }
    } else if *name == String::from_str("BINARY") {
        DataType::Binary { length }
    } else if *name == String::from_str("VARBINARY") {
        DataType::Varbinary { length }
    } else if *name == String::from_str("BLOB") {
        DataType::LongVarbinary { length }
    } else if *name == String::from_str("IMAGE") {
        DataType::LongVarbinary { length }
    } else if *name == String::from_str("NUMERIC") {
        DataType::Numeric { precision, scale }
    } else if *name == String::from_str("NUMBER") {
        DataType::Numeric { precision, scale }
    } else if *name == String::from_str("DECIMAL") {
        DataType::Decimal { precision, scale }
    } else if *name == String::from_str("DEC") {
        DataType::Decimal { precision, scale }
    } else if *name == String::from_str("INT") {
        DataType::Integer
    } else if *name == String::from_str("INTEGER") {
        DataType::Integer
    } else if *name == String::from_str("BIGINT") {
        DataType::BigInt
    } else if *name == String::from_str("SMALLINT") {
        DataType::SmallInt
    } else if *name == String::from_str("TINYINT") {
        DataType::TinyInt
    } else if *name == String::from_str("BYTE") {
        DataType::TinyInt
    } else if *name == String::from_str("BIT") {
        DataType::Bit
    } else if *name == String::from_str("REAL") {
        DataType::Real
    } else if *name == String::from_str("FLOAT") {
        DataType::Double
    } else if *name == String::from_str("DOUBLE") {
        DataType::Double
    } else if *name == String::from_str("DATE") {
        DataType::Date
    } else if *name == String::from_str("TIME") {
        DataType::Time { precision: scale }
    } else if *name == String::from_str("TIMESTAMP") {
        DataType::Timestamp { precision: scale }
    } else if *name == String::from_str("DATETIME") {
        DataType::Timestamp { precision: scale }
    } else {
        DataType::Unknown
    }
}

/// The column metadata that a catalog row describes.
pub fn catalog_column(row: &CatalogRow) -> (r: OdbcColumnDescription)
    ensures
        r.name@ == row.column_name@,
        r.data_type == catalog_type(row.sql_type@, row.length, row.precision, row.scale),
        r.nullable == row.nullable,
{
    OdbcColumnDescription {
        name: row.column_name.clone(),
        data_type: catalog_data_type(&row.sql_type, row.length, row.precision, row.scale),
        nullable: row.nullable,
    }
}


/// What a column description says: its name, type and nullability.
pub type ColumnFacts = (Seq<char>, DataType, bool);

/// The column facts that a catalog row describes.
pub open spec fn row_facts(r: CatalogRow) -> ColumnFacts {
    (r.column_name@, catalog_type(r.sql_type@, r.length, r.precision, r.scale), r.nullable)
}

/// Catalog rows split into runs of one table name, in order: each entry
/// holds a table name and its rows.
pub open spec fn groups(rows: Seq<CatalogRow>) -> Seq<(Seq<char>, Seq<CatalogRow>)>
    decreases rows.len(),
{
    if rows.len() == 0 {
        Seq::empty()
    } else {
        let g = groups(rows.drop_last());
        let last = rows.last();
        if g.len() > 0 && g.last().0 == last.table_name@ {
            g.update(g.len() - 1, (g.last().0, g.last().1.push(last)))
        } else {
            g.push((last.table_name@, seq![last]))
        }
    }
}

/// A run of rows as a table name and its column facts.
pub open spec fn group_view(g: (Seq<char>, Seq<CatalogRow>)) -> (Seq<char>, Seq<ColumnFacts>) {
    (g.0, g.1.map_values(|r: CatalogRow| row_facts(r)))
}

/// A table description as a table name and its column facts.
pub open spec fn table_view(t: TableDesc) -> (Seq<char>, Seq<ColumnFacts>) {
    (
        t.table_name@,
        Seq::new(
            t.columns@.len(),
            |j: int| (t.columns@[j].name@, t.columns@[j].data_type, t.columns@[j].nullable),
        ),
    )
}

pub open spec fn tables_view(ts: Seq<TableDesc>) -> Seq<(Seq<char>, Seq<ColumnFacts>)> {
    Seq::new(ts.len(), |t: int| table_view(ts[t]))
}

/// Groups the rows of the catalog query, which come ordered by table, into
/// one description per table.
pub fn table_desc_from_rows(rows: &Vec<CatalogRow>) -> (r: TableDescResult)
    ensures
        tables_view(r.tables@) == groups(rows@).map_values(
            |g: (Seq<char>, Seq<CatalogRow>)| group_view(g),
        ),
{
    let mut tables: Vec<TableDesc> = Vec::new();
    let mut cur_name = String::new();
    let mut cur_cols: Vec<OdbcColumnDescription> = Vec::new();
    let mut i: usize = 0;
    while i < rows.len()
        invariant
            i <= rows@.len(),
            i == 0 ==> tables@.len() == 0 && groups(rows@.take(0)).len() == 0,
            i > 0 ==> tables_view(tables@).push(
                table_view(TableDesc { table_name: cur_name, columns: cur_cols }),
            ) == groups(rows@.take(i as int)).map_values(
                |g: (Seq<char>, Seq<CatalogRow>)| group_view(g),
            ),
        decreases rows@.len() - i,
    {
        let row = &rows[i];
        let col = catalog_column(row);
        let ghost prev = rows@.take(i as int);
        let ghost next = rows@.take(i + 1);
        assert(next.drop_last() =~= prev);
        assert(next.last() == *row);
        let ghost g = groups(prev);
        assert(g.len() > 0 <==> i > 0) by {
            if i > 0 {
                assert(prev.drop_last() =~= rows@.take(i - 1));
            }
        }
        if i > 0 && cur_name == row.table_name {
            let ghost old_view = table_view(TableDesc { table_name: cur_name, columns: cur_cols });
            proof {
                let gv = g.map_values(|g: (Seq<char>, Seq<CatalogRow>)| group_view(g));
                assert(tables_view(tables@).push(old_view)[g.len() - 1] == old_view);
                assert(gv[g.len() - 1] == group_view(g[g.len() - 1]));
                assert(g.last().0 == row.table_name@);
            }
            cur_cols.push(col);
            proof {
                let gv = g.map_values(|g: (Seq<char>, Seq<CatalogRow>)| group_view(g));
                let ng = groups(next);
                let last = (g.last().0, g.last().1.push(*row));
                assert(ng == g.update(g.len() - 1, last));
                let new_view = table_view(TableDesc { table_name: cur_name, columns: cur_cols });
                assert(old_view == gv[g.len() - 1]);
                assert(new_view.1 =~= old_view.1.push(row_facts(*row)));
                assert(group_view(last).1 =~= g.last().1.map_values(|r: CatalogRow| row_facts(r)).push(row_facts(*row)));
                assert(new_view == group_view(last));
                assert forall|k: int| 0 <= k < g.len() - 1 implies tables_view(tables@)[k]
                    == ng.map_values(|g: (Seq<char>, Seq<CatalogRow>)| group_view(g))[k] by {
                    assert(tables_view(tables@).push(old_view)[k] == gv[k]);
                }
                assert(tables_view(tables@).push(new_view) =~= ng.map_values(
                    |g: (Seq<char>, Seq<CatalogRow>)| group_view(g),
                ));
            }
        } else {
            proof {
                if i > 0 {
                    let old_view = table_view(TableDesc { table_name: cur_name, columns: cur_cols });
                    let gv = g.map_values(|g: (Seq<char>, Seq<CatalogRow>)| group_view(g));
                    assert(tables_view(tables@).push(old_view)[g.len() - 1] == old_view);
                    assert(gv[g.len() - 1] == group_view(g[g.len() - 1]));
                    assert(g.last().0 != row.table_name@);
                }
            }
            if i > 0 {
                let ghost before = tables_view(tables@);
                let t = TableDesc { table_name: cur_name, columns: cur_cols };
                tables.push(t);
                assert(tables_view(tables@) =~= before.push(table_view(t)));
            }
            cur_name = row.table_name.clone();
            cur_cols = Vec::new();
            cur_cols.push(col);
            proof {
                let ng = groups(next);
                assert(ng == g.push((row.table_name@, seq![*row])));
                assert(table_view(TableDesc { table_name: cur_name, columns: cur_cols }).1 =~= seq![*row].map_values(|r: CatalogRow| row_facts(r)));
                assert(tables_view(tables@).push(
                    table_view(TableDesc { table_name: cur_name, columns: cur_cols }),
                ) =~= ng.map_values(|g: (Seq<char>, Seq<CatalogRow>)| group_view(g)));
            }
        }
        i += 1;
    }
    assert(rows@.take(i as int) =~= rows@);
    if i > 0 {
        let ghost before = tables_view(tables@);
        let t = TableDesc { table_name: cur_name, columns: cur_cols };
        tables.push(t);
        assert(tables_view(tables@) =~= before.push(table_view(t)));
    } else {
        assert(tables_view(tables@) =~= groups(rows@).map_values(
            |g: (Seq<char>, Seq<CatalogRow>)| group_view(g),
        ));
    }
    TableDescResult { tables }
}


/// The characters that UTF-8 bytes decode to, or `None` where they are
/// not valid UTF-8.
pub uninterp spec fn utf8_decoded(b: Seq<u8>) -> Option<Seq<char>>;

/// Relies on `std::str::from_utf8`: it decodes exactly the valid UTF-8
/// byte sequences, the result depending on the bytes alone.
#[verifier::external_body]
fn decode_utf8(b: &[u8]) -> (r: Option<String>)
    ensures
        r is Some <==> utf8_decoded(b@) is Some,
        r is Some ==> r->Some_0@ == utf8_decoded(b@)->Some_0,
{
    std::str::from_utf8(b).ok().map(|s| s.to_string())
}

/// The text a cell holds, where it holds valid UTF-8 text.
pub open spec fn text_value(c: Cell) -> Option<Seq<char>> {
    match c {
        Cell::Text(b) => utf8_decoded(b@),
        _ => None,
    }
}

/// The non-negative integer a cell holds; a null counts as zero.
pub open spec fn count_value(c: Cell) -> Option<usize> {
    match c {
        Cell::Null => Some(0),
        Cell::I16(v) => if v >= 0 { Some(v as usize) } else { None },
        Cell::I32(v) => if v >= 0 { Some(v as usize) } else { None },
        Cell::I64(v) => if 0 <= v <= usize::MAX { Some(v as usize) } else { None },
        _ => None,
    }
}

/// A catalog nullability flag: only "N" marks a column without nulls.
pub open spec fn nullable_flag(c: Cell) -> bool {
    match c {
        Cell::Text(b) => b@ != seq![78u8],
        _ => true,
    }
}

fn text_of(c: &Cell) -> (r: Option<String>)
    ensures
        r is Some <==> text_value(*c) is Some,
        r is Some ==> r->Some_0@ == text_value(*c)->Some_0,
{
    match c {
        Cell::Text(b) => decode_utf8(b.as_slice()),
        _ => None,
    }
}

fn count_of(c: &Cell) -> (r: Option<usize>)
    ensures
        r == count_value(*c),
{
    match c {
        Cell::Null => Some(0),
        Cell::I16(v) => if *v >= 0 { Some(*v as usize) } else { None },
        Cell::I32(v) => if *v >= 0 { Some(*v as usize) } else { None },
        Cell::I64(v) => if 0 <= *v && *v as u64 <= usize::MAX as u64 { Some(*v as usize) } else { None },
        _ => None,
    }
}

fn nullable_of(c: &Cell) -> (r: bool)
    ensures
        r == nullable_flag(*c),
{
    match c {
        Cell::Text(b) => {
            if b.len() == 1 && b[0] == 78u8 {
                assert(b@ =~= seq![78u8]);
                false
            } else {
                true
            }
        },
        _ => true,
    }
}

/// Whether the cells of one row of the catalog query can be read: three
/// texts, three counts (the scale small enough for `i16`) and a flag.
pub open spec fn catalog_cells_ok(cells: Seq<Cell>) -> bool {
    &&& cells.len() == 7
    &&& text_value(cells[0]) is Some
    &&& text_value(cells[1]) is Some
    &&& text_value(cells[2]) is Some
    &&& count_value(cells[3]) is Some
    &&& count_value(cells[4]) is Some
    &&& count_value(cells[5]) is Some
    &&& count_value(cells[5])->Some_0 <= i16::MAX
}

/// Reads one row of the catalog query: table name, column name, type
/// name, length, precision, scale and nullability flag.
pub fn catalog_row(cells: &Vec<Cell>) -> (r: Result<CatalogRow, OdbcError>)
    ensures
        r is Ok <==> catalog_cells_ok(cells@),
        r is Err ==> r->Err_0 is TypeConversionError,
        r is Ok ==> {
            let row = r->Ok_0;
            &&& row.table_name@ == text_value(cells@[0])->Some_0
            &&& row.column_name@ == text_value(cells@[1])->Some_0
            &&& row.sql_type@ == text_value(cells@[2])->Some_0
            &&& row.length == count_value(cells@[3])->Some_0
            &&& row.precision == count_value(cells@[4])->Some_0
            &&& row.scale == count_value(cells@[5])->Some_0 as i16
            &&& row.nullable == nullable_flag(cells@[6])
        },
{
    if cells.len() != 7 {
        return Err(OdbcError::TypeConversionError("catalog row of the wrong width".to_string()));
    }
    let table_name = text_of(&cells[0]);
    let column_name = text_of(&cells[1]);
    let sql_type = text_of(&cells[2]);
    let length = count_of(&cells[3]);
    let precision = count_of(&cells[4]);
    let scale = count_of(&cells[5]);
    match (table_name, column_name, sql_type, length, precision, scale) {
        (Some(table_name), Some(column_name), Some(sql_type), Some(length), Some(precision), Some(scale)) => {
            if scale > 32767 {
                return Err(OdbcError::TypeConversionError("catalog scale out of range".to_string()));
            }
            Ok(CatalogRow {
                table_name,
                column_name,
                sql_type,
                length,
                precision,
                scale: scale as i16,
                nullable: nullable_of(&cells[6]),
            })
        },
        _ => Err(OdbcError::TypeConversionError("catalog row of unexpected types".to_string())),
    }
}

} // verus!
