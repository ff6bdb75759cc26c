//! The TypeScript type lattice and the text of a declaration module.

use vstd::prelude::*;
use crate::text::texts;
use crate::database::mysql::{mysql_binding, mysql_row, mysql_row_count, mysql_rows, mysql_type};
use crate::database::postgres::{
    postgres_binding, postgres_row, postgres_row_count, postgres_rows, postgres_type,
};
use crate::database::sqlite::{
    sqlite_binding, sqlite_row, sqlite_row_count, sqlite_rows, sqlite_type,
};
use crate::database::{
    find_first_set, lemma_first_set, matched_row, unmatched, Column, Describe, NativeType,
    Parameters,
};

verus! {

/// A TypeScript type that a column or a parameter can be given.
#[derive(Debug, PartialEq, Eq)]
pub enum TSFieldType {
    String,
    Number,
    BigInt,
    Boolean,
    Object,
    Date,
    Null,
    Any,
    Array(Box<TSFieldType>),
    Tuple(Vec<TSFieldType>),
    Unknown,
    Never,
}

/// The items of `parts`, each two neighbours separated by `sep`.
pub open spec fn joined(parts: Seq<Seq<char>>, sep: Seq<char>) -> Seq<char>
    decreases parts.len(),
{
    if parts.len() == 0 {
        Seq::empty()
    } else if parts.len() == 1 {
        parts[0]
    } else {
        joined(parts.drop_last(), sep) + sep + parts.last()
    }
}

/// The texts of the first `n` types of `types`, in order.
pub open spec fn rendered_types(types: Seq<TSFieldType>, n: nat) -> Seq<Seq<char>>
    decreases types, n,
{
    if n == 0 || n > types.len() {
        Seq::empty()
    } else {
        rendered_types(types, (n - 1) as nat).push(types[n - 1].rendered())
    }
}

impl TSFieldType {
    /// The TypeScript source text of the type.
    pub open spec fn rendered(self) -> Seq<char>
        decreases self,
    {
        match self {
            TSFieldType::String => "string"@,
            TSFieldType::Number => "number"@,
            TSFieldType::BigInt => "bigint"@,
            TSFieldType::Boolean => "boolean"@,
            TSFieldType::Object => "object"@,
            TSFieldType::Date => "Date"@,
            TSFieldType::Null => "null"@,
            TSFieldType::Any => "any"@,
            TSFieldType::Array(item) => "Array<"@ + item.rendered() + ">"@,
            TSFieldType::Tuple(items) => "["@ + joined(
                rendered_types(items@, items@.len()),
                ", "@,
            ) + "]"@,
            TSFieldType::Unknown => "unknown"@,
            TSFieldType::Never => "never"@,
        }
    }

    /// Renders the type as TypeScript source text.
    pub fn to_string(&self) -> (text: String)
        ensures
            text@ == self.rendered(),
        decreases self,
    {
        match self {
            TSFieldType::String => String::from_str("string"),
            TSFieldType::Number => String::from_str("number"),
            TSFieldType::BigInt => String::from_str("bigint"),
            TSFieldType::Boolean => String::from_str("boolean"),
            TSFieldType::Object => String::from_str("object"),
            TSFieldType::Date => String::from_str("Date"),
            TSFieldType::Null => String::from_str("null"),
            TSFieldType::Any => String::from_str("any"),
            TSFieldType::Array(item) => {
                let mut text = String::from_str("Array<");
                let inner = item.to_string();
                text.append(inner.as_str());
                text.append(">");
                text
            },
            TSFieldType::Tuple(items) => {
                let mut text = String::from_str("[");
                let mut i: usize = 0;
                while i < items.len()
                    invariant
                        i <= items.len(),
                        items == self->Tuple_0,
                        self is Tuple,
                        text@ == "["@ + joined(rendered_types(items@, i as nat), ", "@),
                    decreases items.len() - i,
                {
                    if i > 0 {
                        text.append(", ");
                    }
                    let inner = items[i].to_string();
                    text.append(inner.as_str());
                    proof {
                        let before = rendered_types(items@, i as nat);
                        let after = rendered_types(items@, (i + 1) as nat);
                        assert(after == before.push(items@[i as int].rendered()));
                        assert(after.drop_last() == before);
                    }
                    i += 1;
                }
                text.append("]");
                text
            },
            TSFieldType::Unknown => String::from_str("unknown"),
            TSFieldType::Never => String::from_str("never"),
        }
    }
}

/// The declaration of one query: its text, the types of its parameters and
/// the names and types of the columns of its result.
#[derive(Debug, PartialEq, Eq)]
pub struct TSCall {
    pub query: String,
    pub params: Vec<TSFieldType>,
    pub result: Vec<(String, TSFieldType)>,
}

/// The texts `name: type` of the first `n` columns of `columns`, in order.
pub open spec fn rendered_columns(columns: Seq<(String, TSFieldType)>, n: nat) -> Seq<Seq<char>>
    decreases n,
{
    if n == 0 || n > columns.len() {
        Seq::empty()
    } else {
        rendered_columns(columns, (n - 1) as nat).push(
            columns[n - 1].0@ + ": "@ + columns[n - 1].1.rendered(),
        )
    }
}

/// The declarations of the first `n` calls of `calls`, each on a line of its
/// own, behind a tab.
pub open spec fn rendered_calls(calls: Seq<TSCall>, n: nat) -> Seq<char>
    decreases n,
{
    if n == 0 || n > calls.len() {
        Seq::empty()
    } else {
        rendered_calls(calls, (n - 1) as nat) + "\n\t"@ + calls[n - 1].rendered() + "\n"@
    }
}

/// The text of the declaration module for `calls`: the import line, then
/// one declaration for each call, in the order of `calls`, inside one
/// `declare module` block.
pub open spec fn module_text(calls: Seq<TSCall>) -> Seq<char> {
    "import type { SqlxString } from 'ts-sqlx';\n\ndeclare module 'ts-sqlx' {"@ + rendered_calls(
        calls,
        calls.len(),
    ) + "}\n"@
}

impl TSCall {
    /// The declaration of an overload of `sqlx` for this query: the query
    /// text as a literal type, the parameters as a tuple type and the result
    /// as an object type.
    pub open spec fn rendered(self) -> Seq<char> {
        "export function sqlx(query: `"@ + self.query@ + "`): SqlxString<["@ + joined(
            rendered_types(self.params@, self.params@.len()),
            ", "@,
        ) + "], {"@ + joined(rendered_columns(self.result@, self.result@.len()), ", "@) + "}>;"@
    }

    /// Renders the declaration of this query.
    pub fn to_string(&self) -> (text: String)
        ensures
            text@ == self.rendered(),
    {
        let mut text = String::from_str("export function sqlx(query: `");
        text.append(self.query.as_str());
        text.append("`): SqlxString<[");
        let mut i: usize = 0;
        let ghost head = text@;
        while i < self.params.len()
            invariant
                i <= self.params.len(),
                text@ == head + joined(rendered_types(self.params@, i as nat), ", "@),
            decreases self.params.len() - i,
        {
            if i > 0 {
                text.append(", ");
            }
            let inner = self.params[i].to_string();
            text.append(inner.as_str());
            proof {
                let before = rendered_types(self.params@, i as nat);
                let after = rendered_types(self.params@, (i + 1) as nat);
                assert(after == before.push(self.params@[i as int].rendered()));
                assert(after.drop_last() == before);
            }
            i += 1;
        }
        text.append("], {");
        let ghost middle = text@;
        let mut k: usize = 0;
        while k < self.result.len()
            invariant
                k <= self.result.len(),
                text@ == middle + joined(rendered_columns(self.result@, k as nat), ", "@),
            decreases self.result.len() - k,
        {
            if k > 0 {
                text.append(", ");
            }
            text.append(self.result[k].0.as_str());
            text.append(": ");
            let inner = self.result[k].1.to_string();
            text.append(inner.as_str());
            proof {
                let before = rendered_columns(self.result@, k as nat);
                let after = rendered_columns(self.result@, (k + 1) as nat);
                assert(after == before.push(
                    self.result@[k as int].0@ + ": "@ + self.result@[k as int].1.rendered(),
                ));
                assert(after.drop_last() == before);
            }
            k += 1;
        }
        text.append("}>;");
        text
    }
}

/// Renders the declaration module for the queries of one source file.
pub fn ts_calls_to_string(ts_calls: &[TSCall]) -> (text: String)
    ensures
        text@ == module_text(ts_calls@),
{
    let mut text = String::from_str(
        "import type { SqlxString } from 'ts-sqlx';\n\ndeclare module 'ts-sqlx' {",
    );
    let ghost head = text@;
    let mut i: usize = 0;
    while i < ts_calls.len()
        invariant
            i <= ts_calls.len(),
            text@ == head + rendered_calls(ts_calls@, i as nat),
        decreases ts_calls.len() - i,
    {
        text.append("\n\t");
        let inner = ts_calls[i].to_string();
        text.append(inner.as_str());
        text.append("\n");
        i += 1;
    }
    text.append("}\n");
    text
}

/// The shape of one query: the types of its parameters and the names and
/// types of the columns of its result, both in order.
#[derive(Debug, PartialEq, Eq)]
pub struct DescribeResult {
    pub params: Vec<TSFieldType>,
    pub columns: Vec<(String, TSFieldType)>,
}

/// A family of databases that queries can be described against.
#[derive(Debug, Clone, Copy, PartialEq, Eq)]
pub enum QueryToTSDriver {
    MySql,
    Postgres,
    Sqlite,
}

impl QueryToTSDriver {
    /// The number of rows of the driver's table.
    pub open spec fn rows(self) -> nat {
        match self {
            QueryToTSDriver::MySql => mysql_rows(),
            QueryToTSDriver::Postgres => postgres_rows(),
            QueryToTSDriver::Sqlite => sqlite_rows(),
        }
    }

    /// The TypeScript type that the row at `row` of the driver's table
    /// stands for.
    pub open spec fn row_type(self, row: int) -> TSFieldType {
        match self {
            QueryToTSDriver::MySql => mysql_row(row).1,
            QueryToTSDriver::Postgres => postgres_row(row).1,
            QueryToTSDriver::Sqlite => sqlite_row(row).1,
        }
    }

    /// The TypeScript type of a native type: that of the first row of the
    /// driver's table that the native type is exactly, else that of the
    /// first row that accepts it, else `unknown`.
    pub open spec fn field_type(self, info: NativeType) -> TSFieldType {
        match matched_row(info, self.rows()) {
            Some(row) => self.row_type(row as int),
            None => TSFieldType::Unknown,
        }
    }

    /// The TypeScript types of the first `n` native types of `infos`.
    pub open spec fn field_types(self, infos: Seq<NativeType>, n: nat) -> Seq<TSFieldType>
        decreases n,
    {
        if n == 0 || n > infos.len() {
            Seq::empty()
        } else {
            self.field_types(infos, (n - 1) as nat).push(self.field_type(infos[n - 1]))
        }
    }

    /// The types of the parameters of a described query: one for each
    /// parameter whose type the database told, none where it told only their
    /// number or nothing.
    pub open spec fn param_types(self, describe: Describe) -> Seq<TSFieldType> {
        match describe.parameters {
            Some(Parameters::Types(infos)) => self.field_types(infos@, infos@.len()),
            Some(Parameters::Count(_)) => Seq::empty(),
            None => Seq::empty(),
        }
    }

    /// The names and types of the first `n` columns of `columns`.
    pub open spec fn column_types(self, columns: Seq<Column>, n: nat) -> Seq<
        (Seq<char>, TSFieldType),
    >
        decreases n,
    {
        if n == 0 || n > columns.len() {
            Seq::empty()
        } else {
            self.column_types(columns, (n - 1) as nat).push(
                (columns[n - 1].name@, self.field_type(columns[n - 1].type_info)),
            )
        }
    }

    /// The number of rows of the driver's table.
    pub fn row_count(&self) -> (rows: usize)
        ensures
            rows == self.rows(),
    {
        match self {
            QueryToTSDriver::MySql => mysql_row_count(),
            QueryToTSDriver::Postgres => postgres_row_count(),
            QueryToTSDriver::Sqlite => sqlite_row_count(),
        }
    }

    /// The name of the Rust type bound at `row` of the driver's table.
    pub fn binding(&self, row: usize) -> (binding: &'static str)
        ensures
            binding@ == match self {
                QueryToTSDriver::MySql => mysql_row(row as int).0,
                QueryToTSDriver::Postgres => postgres_row(row as int).0,
                QueryToTSDriver::Sqlite => sqlite_row(row as int).0,
            },
    {
        match self {
            QueryToTSDriver::MySql => mysql_binding(row),
            QueryToTSDriver::Postgres => postgres_binding(row),
            QueryToTSDriver::Sqlite => sqlite_binding(row),
        }
    }

    /// Maps a native type to its TypeScript type. A native type that no row
    /// of the table matches maps to `unknown`.
    pub fn field_type_for_id(&self, info: &NativeType) -> (ts: TSFieldType)
        ensures
            ts == self.field_type(*info),
    {
        let rows = self.row_count();
        let row = match find_first_set(&info.exact, rows) {
            Some(row) => Some(row),
            None => find_first_set(&info.compatible, rows),
        };
        match row {
            Some(row) => match self {
                QueryToTSDriver::MySql => mysql_type(row),
                QueryToTSDriver::Postgres => postgres_type(row),
                QueryToTSDriver::Sqlite => sqlite_type(row),
            },
            None => TSFieldType::Unknown,
        }
    }

    /// The shape of a described query in TypeScript types: each parameter
    /// whose type the database told and each column of the result, in
    /// order, with the TypeScript type of its native type.
    pub fn describe_result(&self, describe: &Describe) -> (shape: DescribeResult)
        ensures
            shape.params@ == self.param_types(*describe),
            shape.columns@.len() == describe.columns@.len(),
            shape.columns@.map_values(|c: (String, TSFieldType)| (c.0@, c.1))
                == self.column_types(describe.columns@, describe.columns@.len()),
    {
        let mut columns: Vec<(String, TSFieldType)> = Vec::new();
        let mut i: usize = 0;
        while i < describe.columns.len()
            invariant
                i <= describe.columns.len(),
                columns@.len() == i,
                columns@.map_values(|c: (String, TSFieldType)| (c.0@, c.1)) == self.column_types(
                    describe.columns@,
                    i as nat,
                ),
            decreases describe.columns.len() - i,
        {
            let column = &describe.columns[i];
            let ghost before = columns@;
            columns.push((column.name.clone(), self.field_type_for_id(&column.type_info)));
            assert(columns@.map_values(|c: (String, TSFieldType)| (c.0@, c.1))
                =~= before.map_values(|c: (String, TSFieldType)| (c.0@, c.1)).push(
                (column.name@, self.field_type(column.type_info)),
            ));
            i += 1;
        }
        let mut params: Vec<TSFieldType> = Vec::new();
        match &describe.parameters {
            Some(Parameters::Types(list)) => {
                let mut k: usize = 0;
                while k < list.len()
                    invariant
                        k <= list.len(),
                        params@ == self.field_types(list@, k as nat),
                    decreases list.len() - k,
                {
                    params.push(self.field_type_for_id(&list[k]));
                    k += 1;
                }
            },
            Some(Parameters::Count(_size)) => {},
            None => {},
        }
        DescribeResult { params, columns }
    }

    /// The declaration of `query` from what the database described: the
    /// columns of the result under their names, and the parameters, each
    /// with the TypeScript type of its native type.
    pub fn to_ts_call(&self, query: &str, describe: &Describe) -> (call: TSCall)
        ensures
            call.query@ == query@,
            call.params@ == self.param_types(*describe),
            call.result@.len() == describe.columns@.len(),
            call.result@.map_values(|c: (String, TSFieldType)| (c.0@, c.1)) == self.column_types(
                describe.columns@,
                describe.columns@.len(),
            ),
    {
        let shape = self.describe_result(describe);
        TSCall { query: query.to_owned(), params: shape.params, result: shape.columns }
    }
}

/// The declaration of `query` under `driver` from what the database
/// described.
pub fn to_ts_call(driver: QueryToTSDriver, query: &str, describe: &Describe) -> (call: TSCall)
    ensures
        call.query@ == query@,
        call.params@ == driver.param_types(*describe),
        call.result@.len() == describe.columns@.len(),
        call.result@.map_values(|c: (String, TSFieldType)| (c.0@, c.1)) == driver.column_types(
            describe.columns@,
            describe.columns@.len(),
        ),
{
    driver.to_ts_call(query, describe)
}

/// A native type that no row of the driver's table matches has the type
/// `unknown`, which renders as the text `unknown`.
pub proof fn lemma_unmatched_type_is_unknown(driver: QueryToTSDriver, info: NativeType)
    requires
        unmatched(info, driver.rows()),
    ensures
        driver.field_type(info) == TSFieldType::Unknown,
        driver.field_type(info).rendered() == "unknown"@,
{
    lemma_first_set(info.exact@, driver.rows(), 0);
    lemma_first_set(info.compatible@, driver.rows(), 0);
}

/// The scheme of a URL, in lower case and without the colon behind it;
/// `None` for a text that `url` does not parse as an absolute URL.
pub uninterp spec fn parsed_scheme(url: Seq<char>) -> Option<Seq<char>>;

/// The text of a URL as `url` writes it out again after parsing it; `None`
/// for a text that `url` does not parse as an absolute URL.
pub uninterp spec fn serialised_url(url: Seq<char>) -> Option<Seq<char>>;

/// `url::Url::parse`, then `Url::scheme` and `Url::as_str` of what it
/// built.
///
/// Taken on trust: the outcome depends on the text alone, and a text that
/// parses has both a scheme and a serialised text. Which texts are URLs,
/// what their scheme is and how they are written out again is not stated
/// here; `parsed_scheme` and `serialised_url` only name it.
#[verifier::external_body]
pub(crate) fn parse_url(url: &str) -> (parsed: Option<(String, String)>)
    ensures
        match parsed {
            Some((scheme, text)) => parsed_scheme(url@) == Some(scheme@) && serialised_url(url@)
                == Some(text@),
            None => parsed_scheme(url@) is None && serialised_url(url@) is None,
        },
{
    match url::Url::parse(url) {
        Ok(parsed) => Some((parsed.scheme().to_owned(), parsed.as_str().to_owned())),
        Err(_) => None,
    }
}

/// The scheme of a URL; `None` for a text that is no absolute URL.
pub(crate) fn url_scheme(url: &str) -> (scheme: Option<String>)
    ensures
        match scheme {
            Some(s) => parsed_scheme(url@) == Some(s@),
            None => parsed_scheme(url@) is None,
        },
{
    match parse_url(url) {
        Some((scheme, _)) => Some(scheme),
        None => None,
    }
}

/// `URL_SCHEMES` of `sqlx_mysql::MySql`. Taken on trust: the constant
/// holds `mysql` and `mariadb`, in this order.
#[verifier::external_body]
fn mysql_url_schemes() -> (schemes: Vec<String>)
    ensures
        texts(schemes@) == QueryToTSDriver::MySql.url_schemes(),
{
    <sqlx_mysql::MySql as sqlx_core::database::Database>::URL_SCHEMES.iter().map(
        |s| s.to_string(),
    ).collect()
}

/// `URL_SCHEMES` of `sqlx_postgres::Postgres`. Taken on trust: the constant
/// holds `postgres` and `postgresql`, in this order.
#[verifier::external_body]
fn postgres_url_schemes() -> (schemes: Vec<String>)
    ensures
        texts(schemes@) == QueryToTSDriver::Postgres.url_schemes(),
{
    <sqlx_postgres::Postgres as sqlx_core::database::Database>::URL_SCHEMES.iter().map(
        |s| s.to_string(),
    ).collect()
}

/// `URL_SCHEMES` of `sqlx_sqlite::Sqlite`. Taken on trust: the constant
/// holds `sqlite` and nothing else.
#[verifier::external_body]
fn sqlite_url_schemes() -> (schemes: Vec<String>)
    ensures
        texts(schemes@) == QueryToTSDriver::Sqlite.url_schemes(),
{
    <sqlx_sqlite::Sqlite as sqlx_core::database::Database>::URL_SCHEMES.iter().map(
        |s| s.to_string(),
    ).collect()
}

/// Why a database could not be resolved or a configuration not be used.
#[derive(Debug, Clone, PartialEq, Eq)]
pub enum ConfigError {
    /// The text is no absolute URL.
    InvalidUrl { url: String },
    /// No driver serves the scheme of the URL.
    NoDriver { url: String },
    /// Neither the configuration nor the environment names the database.
    DatabaseNotFound { database: String },
    /// The regular expression of the ignore pattern does not compile.
    InvalidIgnorePattern { pattern: String },
}

impl ConfigError {
    /// The message of the error.
    pub open spec fn message(self) -> Seq<char> {
        match self {
            ConfigError::InvalidUrl { url } => "invalid database URL "@ + url@,
            ConfigError::NoDriver { url } => "No driver found for "@ + url@,
            ConfigError::DatabaseNotFound { database } => "database \""@ + database@
                + "\" not found"@,
            ConfigError::InvalidIgnorePattern { pattern } => "invalid ignore pattern "@
                + pattern@,
        }
    }

    /// Renders the message of the error.
    pub fn to_string(&self) -> (text: String)
        ensures
            text@ == self.message(),
    {
        match self {
            ConfigError::InvalidUrl { url } => {
                let mut text = String::from_str("invalid database URL ");
                text.append(url.as_str());
                text
            },
            ConfigError::NoDriver { url } => {
                let mut text = String::from_str("No driver found for ");
                text.append(url.as_str());
                text
            },
            ConfigError::DatabaseNotFound { database } => {
                let mut text = String::from_str("database \"");
                text.append(database.as_str());
                text.append("\" not found");
                text
            },
            ConfigError::InvalidIgnorePattern { pattern } => {
                let mut text = String::from_str("invalid ignore pattern ");
                text.append(pattern.as_str());
                text
            },
        }
    }
}

/// The first driver, in the order MySQL, PostgreSQL, SQLite, that serves
/// `scheme`.
pub open spec fn driver_for_scheme(scheme: Seq<char>) -> Option<QueryToTSDriver> {
    if QueryToTSDriver::MySql.url_schemes().contains(scheme) {
        Some(QueryToTSDriver::MySql)
    } else if QueryToTSDriver::Postgres.url_schemes().contains(scheme) {
        Some(QueryToTSDriver::Postgres)
    } else if QueryToTSDriver::Sqlite.url_schemes().contains(scheme) {
        Some(QueryToTSDriver::Sqlite)
    } else {
        None
    }
}

impl QueryToTSDriver {
    /// The URL schemes that the driver serves, as its `sqlx` crate names
    /// them.
    pub open spec fn url_schemes(self) -> Seq<Seq<char>> {
        match self {
            QueryToTSDriver::MySql => seq!["mysql"@, "mariadb"@],
            QueryToTSDriver::Postgres => seq!["postgres"@, "postgresql"@],
            QueryToTSDriver::Sqlite => seq!["sqlite"@],
        }
    }

    /// The URL schemes that the driver serves.
    pub fn schemes(&self) -> (schemes: Vec<String>)
        ensures
            texts(schemes@) == self.url_schemes(),
    {
        match self {
            QueryToTSDriver::MySql => mysql_url_schemes(),
            QueryToTSDriver::Postgres => postgres_url_schemes(),
            QueryToTSDriver::Sqlite => sqlite_url_schemes(),
        }
    }

    /// Whether the driver serves `scheme`.
    pub fn serves(&self, scheme: &String) -> (found: bool)
        ensures
            found == self.url_schemes().contains(scheme@),
    {
        let schemes = self.schemes();
        let mut i: usize = 0;
        while i < schemes.len()
            invariant
                i <= schemes.len(),
                texts(schemes@) == self.url_schemes(),
                forall|k: int| 0 <= k < i ==> texts(schemes@)[k] != scheme@,
            decreases schemes.len() - i,
        {
            if schemes[i] == *scheme {
                assert(texts(schemes@)[i as int] == scheme@);
                return true;
            }
            i += 1;
        }
        false
    }
}

/// Whether `result` is what resolving the driver of `url` gives: the driver
/// that serves the scheme of the URL, or the error that says why there is
/// none, with the URL in it.
pub open spec fn is_driver_for_url(
    result: Result<QueryToTSDriver, ConfigError>,
    url: Seq<char>,
) -> bool {
    match parsed_scheme(url) {
        None => result matches Err(ConfigError::InvalidUrl { url: named }) && named@ == url,
        Some(scheme) => match driver_for_scheme(scheme) {
            Some(driver) => result == Ok::<QueryToTSDriver, ConfigError>(driver),
            None => result matches Err(ConfigError::NoDriver { url: named }) && named@ == url,
        },
    }
}

/// The first driver, in the order MySQL, PostgreSQL, SQLite, that serves
/// `scheme`.
pub fn driver_for(scheme: &String) -> (driver: Option<QueryToTSDriver>)
    ensures
        driver == driver_for_scheme(scheme@),
{
    if QueryToTSDriver::MySql.serves(scheme) {
        Some(QueryToTSDriver::MySql)
    } else if QueryToTSDriver::Postgres.serves(scheme) {
        Some(QueryToTSDriver::Postgres)
    } else if QueryToTSDriver::Sqlite.serves(scheme) {
        Some(QueryToTSDriver::Sqlite)
    } else {
        None
    }
}

/// The driver that serves a database URL: the first of MySQL, PostgreSQL
/// and SQLite that names the scheme of the URL.
pub fn get_foss_driver_for_database_url(database_url: &str) -> (driver: Result<
    QueryToTSDriver,
    ConfigError,
>)
    ensures
        is_driver_for_url(driver, database_url@),
{
    match url_scheme(database_url) {
        None => Err(ConfigError::InvalidUrl { url: database_url.to_owned() }),
        Some(scheme) => match driver_for(&scheme) {
            Some(driver) => Ok(driver),
            None => Err(ConfigError::NoDriver { url: database_url.to_owned() }),
        },
    }
}

} // verus!
