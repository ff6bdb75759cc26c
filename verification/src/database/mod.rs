//! What a database reports of a query, and how its native types are
//! matched with the rows of a driver's table.

use vstd::prelude::*;

pub mod mysql;
pub mod postgres;
pub mod sqlite;

verus! {

/// A native type of a database, as its driver compares it with the rows of
/// the driver's table: `exact[row]` says that it is the very type that the
/// row binds, `compatible[row]` that the row's binding accepts it.
/// A row beyond the end of a list counts as not matching.
#[derive(Debug, Clone, PartialEq, Eq)]
pub struct NativeType {
    pub exact: Vec<bool>,
    pub compatible: Vec<bool>,
}

/// One column of the result of a query.
#[derive(Debug, Clone, PartialEq, Eq)]
pub struct Column {
    pub name: String,
    pub type_info: NativeType,
}

/// What a driver tells of the parameters of a query: their types, or only
/// how many there are.
#[derive(Debug, Clone, PartialEq, Eq)]
pub enum Parameters {
    Types(Vec<NativeType>),
    Count(usize),
}

/// The shape of a query as a database describes it, without running it.
#[derive(Debug, Clone, PartialEq, Eq)]
pub struct Describe {
    pub columns: Vec<Column>,
    pub parameters: Option<Parameters>,
}

/// The first row at or after `from`, and before `rows`, whose flag is set.
pub open spec fn first_set(flags: Seq<bool>, rows: nat, from: nat) -> Option<nat>
    decreases rows - from,
{
    if from >= rows || from >= flags.len() {
        None
    } else if flags[from as int] {
        Some(from)
    } else {
        first_set(flags, rows, from + 1)
    }
}

/// The row that a native type resolves to in a table of `rows` rows: the
/// first row that it is exactly, else the first row that accepts it.
pub open spec fn matched_row(info: NativeType, rows: nat) -> Option<nat> {
    match first_set(info.exact@, rows, 0) {
        Some(row) => Some(row),
        None => first_set(info.compatible@, rows, 0),
    }
}

/// Whether no row of a table of `rows` rows matches a native type.
pub open spec fn unmatched(info: NativeType, rows: nat) -> bool {
    &&& forall|row: int| 0 <= row < rows && row < info.exact@.len() ==> !info.exact@[row]
    &&& forall|row: int|
        0 <= row < rows && row < info.compatible@.len() ==> !info.compatible@[row]
}

/// `first_set` gives the lowest set row, and none exactly where no row
/// below `rows` is set.
pub proof fn lemma_first_set(flags: Seq<bool>, rows: nat, from: nat)
    ensures
        match first_set(flags, rows, from) {
            Some(row) => {
                &&& from <= row < rows
                &&& row < flags.len()
                &&& flags[row as int]
                &&& forall|earlier: int| from <= earlier < row ==> !flags[earlier]
            },
            None => forall|row: int| from <= row < rows && row < flags.len() ==> !flags[row],
        },
    decreases rows - from,
{
    if from >= rows || from >= flags.len() {
    } else if flags[from as int] {
    } else {
        lemma_first_set(flags, rows, from + 1);
    }
}

/// The first row below `rows` whose flag is set.
pub fn find_first_set(flags: &Vec<bool>, rows: usize) -> (found: Option<usize>)
    ensures
        match found {
            Some(row) => first_set(flags@, rows as nat, 0) == Some(row as nat),
            None => first_set(flags@, rows as nat, 0) is None,
        },
{
    let limit = if rows < flags.len() {
        rows
    } else {
        flags.len()
    };
    let mut row: usize = 0;
    while row < limit
        invariant
            row <= limit,
            limit <= rows,
            limit <= flags.len(),
            limit == rows || limit == flags.len(),
            first_set(flags@, rows as nat, 0) == first_set(flags@, rows as nat, row as nat),
        decreases limit - row,
    {
        if flags[row] {
            return Some(row);
        }
        row += 1;
    }
    None
}

/// The live connections of a cache: for each database URL the handle under
/// which the caller keeps the connection. The entries lie in a
/// `hashbrown::HashMap`, which the verifier does not look into: what the
/// map holds is known only through the functions below, each of which is
/// taken on trust.
#[verifier::external_body]
pub struct ConnectionMap {
    map: hashbrown::HashMap<String, u64>,
}

/// The entries of a connection map: the URLs it holds, each with its handle.
pub uninterp spec fn connection_entries(map: ConnectionMap) -> Map<Seq<char>, u64>;

/// The connections of an empty cache.
pub open spec fn no_connections() -> Map<Seq<char>, u64> {
    Map::empty()
}

/// `hashbrown::HashMap::new`. Taken on trust: the new map has no entries.
#[verifier::external_body]
fn connections_new() -> (map: ConnectionMap)
    ensures
        connection_entries(map) == no_connections(),
{
    ConnectionMap { map: hashbrown::HashMap::new() }
}

/// `hashbrown::HashMap::get`. Taken on trust: the result is the handle
/// stored under `url`, and `None` exactly where the map has no such entry.
#[verifier::external_body]
fn connections_get(map: &ConnectionMap, url: &str) -> (handle: Option<u64>)
    ensures
        handle == if connection_entries(*map).contains_key(url@) {
            Some(connection_entries(*map)[url@])
        } else {
            None
        },
{
    map.map.get(url).copied()
}

/// `hashbrown::HashMap::insert`. Taken on trust: `handle` is stored under
/// `url`, in place of what was stored there, and the other entries stay as
/// they were.
#[verifier::external_body]
fn connections_insert(map: &mut ConnectionMap, url: String, handle: u64)
    ensures
        connection_entries(*final(map)) == connection_entries(*old(map)).insert(url@, handle),
{
    map.map.insert(url, handle);
}

/// `hashbrown::HashMap::remove`. Taken on trust: the entry under `url`, if
/// there is one, is dropped, and the other entries stay as they were.
#[verifier::external_body]
fn connections_remove(map: &mut ConnectionMap, url: &str)
    ensures
        connection_entries(*final(map)) == connection_entries(*old(map)).remove(url@),
{
    map.map.remove(url);
}

/// What happened since the cache was last asked about a describe call.
#[derive(Debug, Clone, Copy, PartialEq, Eq)]
pub enum DescribeEvent {
    /// The call begins.
    Start,
    /// A new connection was made and is kept under `handle`.
    Connected { handle: u64 },
    /// No connection could be made.
    ConnectFailed,
    /// The connection was pinged.
    Pinged { alive: bool },
    /// The database was asked to describe the query.
    Described { ok: bool },
}

/// What the caller does next for a describe call.
#[derive(Debug, Clone, Copy, PartialEq, Eq)]
pub enum DescribeAction {
    /// Make a new connection to the URL.
    Connect,
    /// Ping the connection under the handle.
    Ping(u64),
    /// Ask the database behind the handle to describe the query.
    Describe(u64),
    /// Hand the description to the caller.
    Finish,
    /// Hand the failure to the caller, after closing the connection under
    /// `discard` if there is one. Nothing is tried again within the call.
    Fail { discard: Option<u64> },
}

/// The connections that a cache holds after an event of a describe call for
/// `url`: a new connection is stored, a connection whose ping or whose
/// describe failed is dropped, and nothing else changes.
pub open spec fn next_connections(
    before: Map<Seq<char>, u64>,
    url: Seq<char>,
    event: DescribeEvent,
) -> Map<Seq<char>, u64> {
    match event {
        DescribeEvent::Start => before,
        DescribeEvent::Connected { handle } => before.insert(url, handle),
        DescribeEvent::ConnectFailed => before,
        DescribeEvent::Pinged { alive } => if alive {
            before
        } else {
            before.remove(url)
        },
        DescribeEvent::Described { ok } => if ok {
            before
        } else {
            before.remove(url)
        },
    }
}

/// What the caller does after an event of a describe call for `url`.
///
/// A call begins with a ping of the cached connection, or with a new
/// connection where none is cached. A new connection is pinged as well. A
/// live connection is asked to describe; a failure of the connection, of the
/// ping or of the describe ends the call.
pub open spec fn next_action(
    before: Map<Seq<char>, u64>,
    url: Seq<char>,
    event: DescribeEvent,
) -> DescribeAction {
    match event {
        DescribeEvent::Start => if before.contains_key(url) {
            DescribeAction::Ping(before[url])
        } else {
            DescribeAction::Connect
        },
        DescribeEvent::Connected { handle } => DescribeAction::Ping(handle),
        DescribeEvent::ConnectFailed => DescribeAction::Fail { discard: None },
        DescribeEvent::Pinged { alive } => if !before.contains_key(url) {
            if alive {
                DescribeAction::Connect
            } else {
                DescribeAction::Fail { discard: None }
            }
        } else if alive {
            DescribeAction::Describe(before[url])
        } else {
            DescribeAction::Fail { discard: Some(before[url]) }
        },
        DescribeEvent::Described { ok } => if ok {
            DescribeAction::Finish
        } else if before.contains_key(url) {
            DescribeAction::Fail { discard: Some(before[url]) }
        } else {
            DescribeAction::Fail { discard: None }
        },
    }
}

/// The cache of live connections, one for each database URL.
pub struct CachingDescribeBlocking {
    connections: ConnectionMap,
}

impl View for CachingDescribeBlocking {
    type V = Map<Seq<char>, u64>;

    closed spec fn view(&self) -> Map<Seq<char>, u64> {
        connection_entries(self.connections)
    }
}

impl CachingDescribeBlocking {
    /// A cache without connections.
    pub fn new() -> (cache: CachingDescribeBlocking)
        ensures
            cache@ == no_connections(),
    {
        CachingDescribeBlocking { connections: connections_new() }
    }

    /// The handle of the connection cached for `database_url`, if there is
    /// one.
    pub fn cached(&self, database_url: &str) -> (handle: Option<u64>)
        ensures
            handle == if self@.contains_key(database_url@) {
                Some(self@[database_url@])
            } else {
                None
            },
    {
        connections_get(&self.connections, database_url)
    }

    /// Takes in one event of a describe call for `database_url`, and tells
    /// what the caller does next.
    pub fn describe_blocking(&mut self, database_url: &str, event: DescribeEvent) -> (action:
        DescribeAction)
        ensures
            final(self)@ == next_connections(old(self)@, database_url@, event),
            action == next_action(old(self)@, database_url@, event),
    {
        let cached = connections_get(&self.connections, database_url);
        match event {
            DescribeEvent::Start => match cached {
                Some(handle) => DescribeAction::Ping(handle),
                None => DescribeAction::Connect,
            },
            DescribeEvent::Connected { handle } => {
                connections_insert(&mut self.connections, database_url.to_owned(), handle);
                DescribeAction::Ping(handle)
            },
            DescribeEvent::ConnectFailed => DescribeAction::Fail { discard: None },
            DescribeEvent::Pinged { alive } => {
                if alive {
                    match cached {
                        Some(handle) => DescribeAction::Describe(handle),
                        None => DescribeAction::Connect,
                    }
                } else {
                    connections_remove(&mut self.connections, database_url);
                    DescribeAction::Fail { discard: cached }
                }
            },
            DescribeEvent::Described { ok } => {
                if ok {
                    DescribeAction::Finish
                } else {
                    connections_remove(&mut self.connections, database_url);
                    DescribeAction::Fail { discard: cached }
                }
            },
        }
    }
}

/// A connection whose ping fails leaves the cache, the failure ends the
/// call without another try, the other connections stay, and the next call
/// for the same URL makes a new connection.
pub proof fn lemma_failed_ping_evicts(before: Map<Seq<char>, u64>, url: Seq<char>)
    requires
        before.contains_key(url),
    ensures
        ({
            let failed = DescribeEvent::Pinged { alive: false };
            let after = next_connections(before, url, failed);
            &&& !after.contains_key(url)
            &&& next_action(before, url, failed) == (DescribeAction::Fail {
                discard: Some(before[url]),
            })
            &&& next_action(after, url, DescribeEvent::Start) == DescribeAction::Connect
            &&& forall|other: Seq<char>|
                other != url ==> (after.contains_key(other) <==> before.contains_key(other))
            &&& forall|other: Seq<char>|
                other != url && before.contains_key(other) ==> after[other] == before[other]
        }),
{
}

/// A connection is used for a describe only after a ping of it succeeded
/// within the same call: no event but a successful ping leads to a
/// describe.
pub proof fn lemma_describe_follows_live_ping(
    before: Map<Seq<char>, u64>,
    url: Seq<char>,
    event: DescribeEvent,
)
    requires
        next_action(before, url, event) is Describe,
    ensures
        event == (DescribeEvent::Pinged { alive: true }),
        before.contains_key(url),
        next_action(before, url, event) == DescribeAction::Describe(before[url]),
{
}

} // verus!
