//! The table of MySQL: for each Rust type that the driver binds, in the
//! order in which the rows are tried, the TypeScript type it stands for.

use vstd::prelude::*;
use crate::ts::TSFieldType;

verus! {

/// The number of rows of the table.
pub open spec fn mysql_rows() -> nat {
    23
}

/// The row of the table at `row`: the Rust type that the driver binds, and
/// the TypeScript type it stands for.
pub open spec fn mysql_row(row: int) -> (Seq<char>, TSFieldType) {
    if row == 0 {
        ("u8"@, TSFieldType::Number)
    } else if row == 1 {
        ("u16"@, TSFieldType::Number)
    } else if row == 2 {
        ("u32"@, TSFieldType::Number)
    } else if row == 3 {
        ("u64"@, TSFieldType::Number)
    } else if row == 4 {
        ("i8"@, TSFieldType::Number)
    } else if row == 5 {
        ("i16"@, TSFieldType::Number)
    } else if row == 6 {
        ("i32"@, TSFieldType::Number)
    } else if row == 7 {
        ("i64"@, TSFieldType::Number)
    } else if row == 8 {
        ("f32"@, TSFieldType::Number)
    } else if row == 9 {
        ("f64"@, TSFieldType::Number)
    } else if row == 10 {
        ("String"@, TSFieldType::String)
    } else if row == 11 {
        ("Vec<u8>"@, TSFieldType::Array(Box::new(TSFieldType::Number)))
    } else if row == 12 {
        ("chrono::NaiveTime"@, TSFieldType::Date)
    } else if row == 13 {
        ("chrono::NaiveDate"@, TSFieldType::Date)
    } else if row == 14 {
        ("chrono::NaiveDateTime"@, TSFieldType::Date)
    } else if row == 15 {
        ("chrono::DateTime<chrono::Utc>"@, TSFieldType::Date)
    } else if row == 16 {
        ("time::Time"@, TSFieldType::Date)
    } else if row == 17 {
        ("time::Date"@, TSFieldType::Date)
    } else if row == 18 {
        ("time::PrimitiveDateTime"@, TSFieldType::Date)
    } else if row == 19 {
        ("time::OffsetDateTime"@, TSFieldType::Date)
    } else if row == 20 {
        ("BigDecimal"@, TSFieldType::Number)
    } else if row == 21 {
        ("Decimal"@, TSFieldType::Number)
    } else if row == 22 {
        ("JsonValue"@, TSFieldType::Object)
    } else {
        (""@, TSFieldType::Unknown)
    }
}

/// The number of rows of the table.
pub fn mysql_row_count() -> (rows: usize)
    ensures
        rows == mysql_rows(),
{
    23
}

/// The name of the Rust type bound at `row`.
pub fn mysql_binding(row: usize) -> (binding: &'static str)
    ensures
        binding@ == mysql_row(row as int).0,
{
    match row {
        0 => "u8",
        1 => "u16",
        2 => "u32",
        3 => "u64",
        4 => "i8",
        5 => "i16",
        6 => "i32",
        7 => "i64",
        8 => "f32",
        9 => "f64",
        10 => "String",
        11 => "Vec<u8>",
        12 => "chrono::NaiveTime",
        13 => "chrono::NaiveDate",
        14 => "chrono::NaiveDateTime",
        15 => "chrono::DateTime<chrono::Utc>",
        16 => "time::Time",
        17 => "time::Date",
        18 => "time::PrimitiveDateTime",
        19 => "time::OffsetDateTime",
        20 => "BigDecimal",
        21 => "Decimal",
        22 => "JsonValue",
        _ => "",
    }
}

/// The TypeScript type that the row at `row` stands for.
pub fn mysql_type(row: usize) -> (ts: TSFieldType)
    ensures
        ts == mysql_row(row as int).1,
{
    match row {
        0 => TSFieldType::Number,
        1 => TSFieldType::Number,
        2 => TSFieldType::Number,
        3 => TSFieldType::Number,
        4 => TSFieldType::Number,
        5 => TSFieldType::Number,
        6 => TSFieldType::Number,
        7 => TSFieldType::Number,
        8 => TSFieldType::Number,
        9 => TSFieldType::Number,
        10 => TSFieldType::String,
        11 => TSFieldType::Array(Box::new(TSFieldType::Number)),
        12 => TSFieldType::Date,
        13 => TSFieldType::Date,
        14 => TSFieldType::Date,
        15 => TSFieldType::Date,
        16 => TSFieldType::Date,
        17 => TSFieldType::Date,
        18 => TSFieldType::Date,
        19 => TSFieldType::Date,
        20 => TSFieldType::Number,
        21 => TSFieldType::Number,
        22 => TSFieldType::Object,
        _ => TSFieldType::Unknown,
    }
}

} // verus!
