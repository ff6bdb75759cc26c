//! The table of PostgreSQL: for each Rust type that the driver binds, in the
//! order in which the rows are tried, the TypeScript type it stands for.

use vstd::prelude::*;
use crate::ts::TSFieldType;

verus! {

/// The number of rows of the table.
pub open spec fn postgres_rows() -> nat {
    78
}

/// The row of the table at `row`: the Rust type that the driver binds, and
/// the TypeScript type it stands for.
pub open spec fn postgres_row(row: int) -> (Seq<char>, TSFieldType) {
    if row == 0 {
        ("()"@, TSFieldType::Null)
    } else if row == 1 {
        ("bool"@, TSFieldType::Boolean)
    } else if row == 2 {
        ("String"@, TSFieldType::String)
    } else if row == 3 {
        ("i8"@, TSFieldType::Number)
    } else if row == 4 {
        ("i16"@, TSFieldType::Number)
    } else if row == 5 {
        ("i32"@, TSFieldType::Number)
    } else if row == 6 {
        ("i64"@, TSFieldType::Number)
    } else if row == 7 {
        ("f32"@, TSFieldType::Number)
    } else if row == 8 {
        ("f64"@, TSFieldType::Number)
    } else if row == 9 {
        ("Vec<u8>"@, TSFieldType::Array(Box::new(TSFieldType::Number)))
    } else if row == 10 {
        ("Oid"@, TSFieldType::String)
    } else if row == 11 {
        ("PgInterval"@, TSFieldType::Object)
    } else if row == 12 {
        ("PgMoney"@, TSFieldType::String)
    } else if row == 13 {
        ("PgLTree"@, TSFieldType::String)
    } else if row == 14 {
        ("PgLQuery"@, TSFieldType::String)
    } else if row == 15 {
        ("Uuid"@, TSFieldType::String)
    } else if row == 16 {
        ("chrono::NaiveTime"@, TSFieldType::Date)
    } else if row == 17 {
        ("chrono::NaiveDate"@, TSFieldType::Date)
    } else if row == 18 {
        ("chrono::NaiveDateTime"@, TSFieldType::Date)
    } else if row == 19 {
        ("chrono::DateTime<chrono::Utc>"@, TSFieldType::Date)
    } else if row == 20 {
        ("PgTimeTz<chrono::NaiveTime, chrono::FixedOffset>"@, TSFieldType::Date)
    } else if row == 21 {
        ("time::Time"@, TSFieldType::Date)
    } else if row == 22 {
        ("time::Date"@, TSFieldType::Date)
    } else if row == 23 {
        ("time::PrimitiveDateTime"@, TSFieldType::Date)
    } else if row == 24 {
        ("time::OffsetDateTime"@, TSFieldType::Date)
    } else if row == 25 {
        ("PgTimeTz<time::Time, time::UtcOffset>"@, TSFieldType::Date)
    } else if row == 26 {
        ("BigDecimal"@, TSFieldType::Number)
    } else if row == 27 {
        ("Decimal"@, TSFieldType::Number)
    } else if row == 28 {
        ("ipnetwork::IpNetwork"@, TSFieldType::String)
    } else if row == 29 {
        ("mac_address::MacAddress"@, TSFieldType::String)
    } else if row == 30 {
        ("JsonValue"@, TSFieldType::Object)
    } else if row == 31 {
        ("BitVec"@, TSFieldType::Array(Box::new(TSFieldType::Boolean)))
    } else if row == 32 {
        ("Vec<bool>"@, TSFieldType::Array(Box::new(TSFieldType::Boolean)))
    } else if row == 33 {
        ("Vec<String>"@, TSFieldType::Array(Box::new(TSFieldType::String)))
    } else if row == 34 {
        ("Vec<Vec<u8>>"@, TSFieldType::Array(Box::new(TSFieldType::Number)))
    } else if row == 35 {
        ("Vec<i8>"@, TSFieldType::Array(Box::new(TSFieldType::Number)))
    } else if row == 36 {
        ("Vec<i16>"@, TSFieldType::Array(Box::new(TSFieldType::Number)))
    } else if row == 37 {
        ("Vec<i32>"@, TSFieldType::Array(Box::new(TSFieldType::Number)))
    } else if row == 38 {
        ("Vec<i64>"@, TSFieldType::Array(Box::new(TSFieldType::Number)))
    } else if row == 39 {
        ("Vec<f32>"@, TSFieldType::Array(Box::new(TSFieldType::Number)))
    } else if row == 40 {
        ("Vec<f64>"@, TSFieldType::Array(Box::new(TSFieldType::Number)))
    } else if row == 41 {
        ("Vec<Oid>"@, TSFieldType::Array(Box::new(TSFieldType::String)))
    } else if row == 42 {
        ("Vec<PgMoney>"@, TSFieldType::Array(Box::new(TSFieldType::String)))
    } else if row == 43 {
        ("Vec<Uuid>"@, TSFieldType::Array(Box::new(TSFieldType::String)))
    } else if row == 44 {
        ("Vec<chrono::NaiveTime>"@, TSFieldType::Array(Box::new(TSFieldType::Date)))
    } else if row == 45 {
        ("Vec<chrono::NaiveDate>"@, TSFieldType::Array(Box::new(TSFieldType::Date)))
    } else if row == 46 {
        ("Vec<chrono::NaiveDateTime>"@, TSFieldType::Array(Box::new(TSFieldType::Date)))
    } else if row == 47 {
        ("Vec<chrono::DateTime<chrono::Utc>>"@, TSFieldType::Array(Box::new(TSFieldType::Date)))
    } else if row == 48 {
        ("Vec<time::Time>"@, TSFieldType::Array(Box::new(TSFieldType::Date)))
    } else if row == 49 {
        ("Vec<time::Date>"@, TSFieldType::Array(Box::new(TSFieldType::Date)))
    } else if row == 50 {
        ("Vec<time::PrimitiveDateTime>"@, TSFieldType::Array(Box::new(TSFieldType::Date)))
    } else if row == 51 {
        ("Vec<time::OffsetDateTime>"@, TSFieldType::Array(Box::new(TSFieldType::Date)))
    } else if row == 52 {
        ("Vec<BigDecimal>"@, TSFieldType::Array(Box::new(TSFieldType::Number)))
    } else if row == 53 {
        ("Vec<Decimal>"@, TSFieldType::Array(Box::new(TSFieldType::Number)))
    } else if row == 54 {
        ("Vec<ipnetwork::IpNetwork>"@, TSFieldType::Array(Box::new(TSFieldType::String)))
    } else if row == 55 {
        ("Vec<mac_address::MacAddress>"@, TSFieldType::Array(Box::new(TSFieldType::String)))
    } else if row == 56 {
        ("Vec<JsonValue>"@, TSFieldType::Array(Box::new(TSFieldType::Object)))
    } else if row == 57 {
        ("PgRange<i32>"@, TSFieldType::String)
    } else if row == 58 {
        ("PgRange<i64>"@, TSFieldType::String)
    } else if row == 59 {
        ("PgRange<BigDecimal>"@, TSFieldType::String)
    } else if row == 60 {
        ("PgRange<Decimal>"@, TSFieldType::String)
    } else if row == 61 {
        ("PgRange<chrono::NaiveDate>"@, TSFieldType::String)
    } else if row == 62 {
        ("PgRange<chrono::NaiveDateTime>"@, TSFieldType::String)
    } else if row == 63 {
        ("PgRange<chrono::DateTime<chrono::Utc>>"@, TSFieldType::String)
    } else if row == 64 {
        ("PgRange<time::Date>"@, TSFieldType::String)
    } else if row == 65 {
        ("PgRange<time::PrimitiveDateTime>"@, TSFieldType::String)
    } else if row == 66 {
        ("PgRange<time::OffsetDateTime>"@, TSFieldType::String)
    } else if row == 67 {
        ("Vec<PgRange<i32>>"@, TSFieldType::String)
    } else if row == 68 {
        ("Vec<PgRange<i64>>"@, TSFieldType::String)
    } else if row == 69 {
        ("Vec<PgRange<BigDecimal>>"@, TSFieldType::String)
    } else if row == 70 {
        ("Vec<PgRange<Decimal>>"@, TSFieldType::String)
    } else if row == 71 {
        ("Vec<PgRange<chrono::NaiveDate>>"@, TSFieldType::String)
    } else if row == 72 {
        ("Vec<PgRange<chrono::NaiveDateTime>>"@, TSFieldType::String)
    } else if row == 73 {
        ("Vec<PgRange<chrono::DateTime<chrono::Utc>>>"@, TSFieldType::String)
    } else if row == 74 {
        ("&[PgRange<chrono::DateTime<chrono::Utc>>]"@, TSFieldType::String)
    } else if row == 75 {
        ("Vec<PgRange<time::Date>>"@, TSFieldType::String)
    } else if row == 76 {
        ("Vec<PgRange<time::PrimitiveDateTime>>"@, TSFieldType::String)
    } else if row == 77 {
        ("Vec<PgRange<time::OffsetDateTime>>"@, TSFieldType::String)
    } else {
        (""@, TSFieldType::Unknown)
    }
}

/// The number of rows of the table.
pub fn postgres_row_count() -> (rows: usize)
    ensures
        rows == postgres_rows(),
{
    78
}

/// The name of the Rust type bound at `row`.
pub fn postgres_binding(row: usize) -> (binding: &'static str)
    ensures
        binding@ == postgres_row(row as int).0,
{
    match row {
        0 => "()",
        1 => "bool",
        2 => "String",
        3 => "i8",
        4 => "i16",
        5 => "i32",
        6 => "i64",
        7 => "f32",
        8 => "f64",
        9 => "Vec<u8>",
        10 => "Oid",
        11 => "PgInterval",
        12 => "PgMoney",
        13 => "PgLTree",
        14 => "PgLQuery",
        15 => "Uuid",
        16 => "chrono::NaiveTime",
        17 => "chrono::NaiveDate",
        18 => "chrono::NaiveDateTime",
        19 => "chrono::DateTime<chrono::Utc>",
        20 => "PgTimeTz<chrono::NaiveTime, chrono::FixedOffset>",
        21 => "time::Time",
        22 => "time::Date",
        23 => "time::PrimitiveDateTime",
        24 => "time::OffsetDateTime",
        25 => "PgTimeTz<time::Time, time::UtcOffset>",
        26 => "BigDecimal",
        27 => "Decimal",
        28 => "ipnetwork::IpNetwork",
        29 => "mac_address::MacAddress",
        30 => "JsonValue",
        31 => "BitVec",
        32 => "Vec<bool>",
        33 => "Vec<String>",
        34 => "Vec<Vec<u8>>",
        35 => "Vec<i8>",
        36 => "Vec<i16>",
        37 => "Vec<i32>",
        38 => "Vec<i64>",
        39 => "Vec<f32>",
        40 => "Vec<f64>",
        41 => "Vec<Oid>",
        42 => "Vec<PgMoney>",
        43 => "Vec<Uuid>",
        44 => "Vec<chrono::NaiveTime>",
        45 => "Vec<chrono::NaiveDate>",
        46 => "Vec<chrono::NaiveDateTime>",
        47 => "Vec<chrono::DateTime<chrono::Utc>>",
        48 => "Vec<time::Time>",
        49 => "Vec<time::Date>",
        50 => "Vec<time::PrimitiveDateTime>",
        51 => "Vec<time::OffsetDateTime>",
        52 => "Vec<BigDecimal>",
        53 => "Vec<Decimal>",
        54 => "Vec<ipnetwork::IpNetwork>",
        55 => "Vec<mac_address::MacAddress>",
        56 => "Vec<JsonValue>",
        57 => "PgRange<i32>",
        58 => "PgRange<i64>",
        59 => "PgRange<BigDecimal>",
        60 => "PgRange<Decimal>",
        61 => "PgRange<chrono::NaiveDate>",
        62 => "PgRange<chrono::NaiveDateTime>",
        63 => "PgRange<chrono::DateTime<chrono::Utc>>",
        64 => "PgRange<time::Date>",
        65 => "PgRange<time::PrimitiveDateTime>",
        66 => "PgRange<time::OffsetDateTime>",
        67 => "Vec<PgRange<i32>>",
        68 => "Vec<PgRange<i64>>",
        69 => "Vec<PgRange<BigDecimal>>",
        70 => "Vec<PgRange<Decimal>>",
        71 => "Vec<PgRange<chrono::NaiveDate>>",
        72 => "Vec<PgRange<chrono::NaiveDateTime>>",
        73 => "Vec<PgRange<chrono::DateTime<chrono::Utc>>>",
        74 => "&[PgRange<chrono::DateTime<chrono::Utc>>]",
        75 => "Vec<PgRange<time::Date>>",
        76 => "Vec<PgRange<time::PrimitiveDateTime>>",
        77 => "Vec<PgRange<time::OffsetDateTime>>",
        _ => "",
    }
}

/// The TypeScript type that the row at `row` stands for.
pub fn postgres_type(row: usize) -> (ts: TSFieldType)
    ensures
        ts == postgres_row(row as int).1,
{
    match row {
        0 => TSFieldType::Null,
        1 => TSFieldType::Boolean,
        2 => TSFieldType::String,
        3 => TSFieldType::Number,
        4 => TSFieldType::Number,
        5 => TSFieldType::Number,
        6 => TSFieldType::Number,
        7 => TSFieldType::Number,
        8 => TSFieldType::Number,
        9 => TSFieldType::Array(Box::new(TSFieldType::Number)),
        10 => TSFieldType::String,
        11 => TSFieldType::Object,
        12 => TSFieldType::String,
        13 => TSFieldType::String,
        14 => TSFieldType::String,
        15 => TSFieldType::String,
        16 => TSFieldType::Date,
        17 => TSFieldType::Date,
        18 => TSFieldType::Date,
        19 => TSFieldType::Date,
        20 => TSFieldType::Date,
        21 => TSFieldType::Date,
        22 => TSFieldType::Date,
        23 => TSFieldType::Date,
        24 => TSFieldType::Date,
        25 => TSFieldType::Date,
        26 => TSFieldType::Number,
        27 => TSFieldType::Number,
        28 => TSFieldType::String,
        29 => TSFieldType::String,
        30 => TSFieldType::Object,
        31 => TSFieldType::Array(Box::new(TSFieldType::Boolean)),
        32 => TSFieldType::Array(Box::new(TSFieldType::Boolean)),
        33 => TSFieldType::Array(Box::new(TSFieldType::String)),
        34 => TSFieldType::Array(Box::new(TSFieldType::Number)),
        35 => TSFieldType::Array(Box::new(TSFieldType::Number)),
        36 => TSFieldType::Array(Box::new(TSFieldType::Number)),
        37 => TSFieldType::Array(Box::new(TSFieldType::Number)),
        38 => TSFieldType::Array(Box::new(TSFieldType::Number)),
        39 => TSFieldType::Array(Box::new(TSFieldType::Number)),
        40 => TSFieldType::Array(Box::new(TSFieldType::Number)),
        41 => TSFieldType::Array(Box::new(TSFieldType::String)),
        42 => TSFieldType::Array(Box::new(TSFieldType::String)),
        43 => TSFieldType::Array(Box::new(TSFieldType::String)),
        44 => TSFieldType::Array(Box::new(TSFieldType::Date)),
        45 => TSFieldType::Array(Box::new(TSFieldType::Date)),
        46 => TSFieldType::Array(Box::new(TSFieldType::Date)),
        47 => TSFieldType::Array(Box::new(TSFieldType::Date)),
        48 => TSFieldType::Array(Box::new(TSFieldType::Date)),
        49 => TSFieldType::Array(Box::new(TSFieldType::Date)),
        50 => TSFieldType::Array(Box::new(TSFieldType::Date)),
        51 => TSFieldType::Array(Box::new(TSFieldType::Date)),
        52 => TSFieldType::Array(Box::new(TSFieldType::Number)),
        53 => TSFieldType::Array(Box::new(TSFieldType::Number)),
        54 => TSFieldType::Array(Box::new(TSFieldType::String)),
        55 => TSFieldType::Array(Box::new(TSFieldType::String)),
        56 => TSFieldType::Array(Box::new(TSFieldType::Object)),
        57 => TSFieldType::String,
        58 => TSFieldType::String,
        59 => TSFieldType::String,
        60 => TSFieldType::String,
        61 => TSFieldType::String,
        62 => TSFieldType::String,
        63 => TSFieldType::String,
        64 => TSFieldType::String,
        65 => TSFieldType::String,
        66 => TSFieldType::String,
        67 => TSFieldType::String,
        68 => TSFieldType::String,
        69 => TSFieldType::String,
        70 => TSFieldType::String,
        71 => TSFieldType::String,
        72 => TSFieldType::String,
        73 => TSFieldType::String,
        74 => TSFieldType::String,
        75 => TSFieldType::String,
        76 => TSFieldType::String,
        77 => TSFieldType::String,
        _ => TSFieldType::Unknown,
    }
}

} // verus!
