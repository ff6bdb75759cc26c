//! The table of SQLite: for each Rust type that the driver binds, in the
//! order in which the rows are tried, the TypeScript type it stands for.

use vstd::prelude::*;
use crate::ts::TSFieldType;

verus! {

/// The number of rows of the table.
pub open spec fn sqlite_rows() -> nat {
    13
}

/// The row of the table at `row`: the Rust type that the driver binds, and
/// the TypeScript type it stands for.
pub open spec fn sqlite_row(row: int) -> (Seq<char>, TSFieldType) {
    if row == 0 {
        ("bool"@, TSFieldType::Boolean)
    } else if row == 1 {
        ("i32"@, TSFieldType::Number)
    } else if row == 2 {
        ("i64"@, TSFieldType::Number)
    } else if row == 3 {
        ("f64"@, TSFieldType::Number)
    } else if row == 4 {
        ("String"@, TSFieldType::String)
    } else if row == 5 {
        ("Vec<u8>"@, TSFieldType::Array(Box::new(TSFieldType::Number)))
    } else if row == 6 {
        ("chrono::NaiveDate"@, TSFieldType::Date)
    } else if row == 7 {
        ("chrono::NaiveDateTime"@, TSFieldType::Date)
    } else if row == 8 {
        ("chrono::DateTime<chrono::Utc>"@, TSFieldType::Date)
    } else if row == 9 {
        ("time::OffsetDateTime"@, TSFieldType::Date)
    } else if row == 10 {
        ("time::PrimitiveDateTime"@, TSFieldType::Date)
    } else if row == 11 {
        ("time::Date"@, TSFieldType::Date)
    } else if row == 12 {
        ("Uuid"@, TSFieldType::Date)
    } else {
        (""@, TSFieldType::Unknown)
    }
}

/// The number of rows of the table.
pub fn sqlite_row_count() -> (rows: usize)
    ensures
        rows == sqlite_rows(),
{
    13
}

/// The name of the Rust type bound at `row`.
pub fn sqlite_binding(row: usize) -> (binding: &'static str)
    ensures
        binding@ == sqlite_row(row as int).0,
{
    match row {
        0 => "bool",
        1 => "i32",
        2 => "i64",
        3 => "f64",
        4 => "String",
        5 => "Vec<u8>",
        6 => "chrono::NaiveDate",
        7 => "chrono::NaiveDateTime",
        8 => "chrono::DateTime<chrono::Utc>",
        9 => "time::OffsetDateTime",
        10 => "time::PrimitiveDateTime",
        11 => "time::Date",
        12 => "Uuid",
        _ => "",
    }
}

/// The TypeScript type that the row at `row` stands for.
pub fn sqlite_type(row: usize) -> (ts: TSFieldType)
    ensures
        ts == sqlite_row(row as int).1,
{
    match row {
        0 => TSFieldType::Boolean,
        1 => TSFieldType::Number,
        2 => TSFieldType::Number,
        3 => TSFieldType::Number,
        4 => TSFieldType::String,
        5 => TSFieldType::Array(Box::new(TSFieldType::Number)),
        6 => TSFieldType::Date,
        7 => TSFieldType::Date,
        8 => TSFieldType::Date,
        9 => TSFieldType::Date,
        10 => TSFieldType::Date,
        11 => TSFieldType::Date,
        12 => TSFieldType::Date,
        _ => TSFieldType::Unknown,
    }
}

} // verus!
