//! The storage adapter: two tables of one embedded `sled` database, keyed
//! by the same strings. `config` holds each value's bytes, `checksum` the
//! eight big-endian bytes of the value's hash.
//!
//! What the engine returns depends on what is on disk and on what other
//! sessions write, so the calls into it promise nothing about their results:
//! the functions that use them are verified for every outcome.

use sled::Db as Engine;
use sled::Transactional;
use vstd::prelude::*;

verus! {

/// A table of the engine, opaque to the verifier.
#[verifier::external_type_specification]
#[verifier::external_body]
pub struct ExTree(sled::Tree);

/// The engine's database handle, opaque to the verifier.
#[verifier::external_type_specification]
#[verifier::external_body]
pub struct ExEngine(Engine);

/// The engine's error, opaque to the verifier.
#[verifier::external_type_specification]
#[verifier::external_body]
pub struct ExEngineError(sled::Error);

/// The error of a failed transaction, opaque to the verifier.
#[verifier::external_type_specification]
#[verifier::external_body]
#[verifier::reject_recursive_types(T)]
pub struct ExTransactionError<T>(sled::transaction::TransactionError<T>);

/// `sled::Tree` is a counted reference to the table, and cloning it copies
/// the reference: the clone is a handle to the same table.
pub assume_specification[ <sled::Tree as Clone>::clone ](tree: &sled::Tree) -> (r: sled::Tree)
    ensures
        r == *tree,
;

/// How the engine trades space for speed.
#[derive(Clone, Copy, Debug, PartialEq, Eq, Structural)]
pub enum Mode {
    /// Favour a small database over fast writes.
    LowSpace,
    /// Favour fast writes over a small database.
    HighThroughput,
}

/// Name of the table of values.
pub const CONFIG_TABLE: &'static str = "config";

/// Name of the table of checksums.
pub const CHECKSUM_TABLE: &'static str = "checksum";

/// Size of the engine's page cache, in bytes.
pub const CACHE_CAPACITY: u64 = 128_000;

/// Smallest page cache, in bytes, that the engine starts with.
pub const MIN_CACHE_CAPACITY: u64 = 256;

/// Interval at which the engine flushes to disk, in milliseconds.
pub const FLUSH_EVERY_MS: u64 = 60_000;

/// The engine keeps the database small rather than fast to write.
pub const MODE: Mode = Mode::LowSpace;

/// The engine compresses what it writes.
pub const USE_COMPRESSION: bool = true;

/// Path of the database when none is given.
pub const DEFAULT_PATH: &'static str = "dou_store_db";

/// The two tables that the handlers work on.
pub struct DbView {
    /// Key to value bytes.
    pub config: sled::Tree,
    /// Key to the eight big-endian bytes of the value's hash.
    pub checksum: sled::Tree,
}

impl Clone for DbView {
    /// Further handles to the same two tables.
    fn clone(&self) -> (r: Self)
        ensures
            r == *self,
    {
        DbView { config: self.config.clone(), checksum: self.checksum.clone() }
    }
}

/// An open database. The engine's handle is held for as long as the tables
/// are in use.
pub struct Db {
    #[allow(unused)]
    db: Engine,
    view: DbView,
}

/// One write of the store: a value and its checksum, to be committed
/// together under one key.
#[derive(Debug, PartialEq, Eq)]
pub struct Update {
    /// The key, in both tables.
    pub key: Vec<u8>,
    /// The bytes for the table of values.
    pub value: Vec<u8>,
    /// The bytes for the table of checksums.
    pub checksum: Vec<u8>,
}

/// Mathematical value of an [`Update`].
pub struct UpdateView {
    pub key: Seq<u8>,
    pub value: Seq<u8>,
    pub checksum: Seq<u8>,
}

impl View for Update {
    type V = UpdateView;

    open spec fn view(&self) -> UpdateView {
        UpdateView { key: self.key@, value: self.value@, checksum: self.checksum@ }
    }
}

/// `sled::Config::open` on a configuration built from the arguments: the
/// database at `path`, or the engine's error. The engine refuses to start
/// with a page cache of less than [`MIN_CACHE_CAPACITY`] bytes.
#[verifier::external_body]
fn open_engine(path: &str, cache_capacity: u64, mode: Mode, compression: bool, flush_every_ms: u64)
    -> (r: Result<Engine, sled::Error>)
    requires
        cache_capacity >= MIN_CACHE_CAPACITY,
{
    let mode = match mode {
        Mode::LowSpace => sled::Mode::LowSpace,
        Mode::HighThroughput => sled::Mode::HighThroughput,
    };
    sled::Config::new()
        .path(path)
        .cache_capacity(cache_capacity)
        .mode(mode)
        .use_compression(compression)
        .flush_every_ms(Some(flush_every_ms))
        .open()
}

/// The name under which the engine keeps a table.
pub uninterp spec fn table_name(table: sled::Tree) -> Seq<char>;

/// `sled::Db::open_tree`: the table called `name`, created if need be, or the
/// engine's error. The engine finds or creates the table under the name given
/// and the handle keeps that name.
#[verifier::external_body]
fn open_table(engine: &Engine, name: &str) -> (r: Result<sled::Tree, sled::Error>)
    ensures
        r matches Ok(table) ==> table_name(table) == name@,
{
    engine.open_tree(name)
}

/// What a point read of a table came to.
pub enum Read {
    /// The key holds these bytes.
    Found(Seq<u8>),
    /// The key holds nothing.
    Absent,
    /// The engine failed.
    Failed,
}

/// The outcome of a read, as the handlers see it.
pub open spec fn read_of(read: Result<Option<Vec<u8>>, sled::Error>) -> Read {
    match read {
        Ok(Some(bytes)) => Read::Found(bytes@),
        Ok(None) => Read::Absent,
        Err(_) => Read::Failed,
    }
}

/// True when `outcome` is what a point read of `table` under `key` came to
/// at some moment. What a table holds changes, so one key may be read with
/// many outcomes; the relation only tells which table and which key an
/// outcome belongs to.
pub uninterp spec fn table_read(table: sled::Tree, key: Seq<u8>, outcome: Read) -> bool;

/// True when `committed` is how a transaction ended at some moment that
/// puts the checksum bytes of `update` into `checksum` and its value bytes
/// into `config`, both under its key.
pub uninterp spec fn pair_commit(
    checksum: sled::Tree,
    config: sled::Tree,
    update: UpdateView,
    committed: bool,
) -> bool;

/// `sled::Tree::get`: the bytes stored under `key`, `None` where there are
/// none, or the engine's error. Which of these comes back is the engine's
/// affair; it is an outcome of reading this table under this key.
#[verifier::external_body]
fn table_get(table: &sled::Tree, key: &[u8]) -> (r: Result<Option<Vec<u8>>, sled::Error>)
    ensures
        table_read(*table, key@, read_of(r)),
{
    table.get(key).map(|found| found.map(|bytes| bytes.to_vec()))
}

/// `sled::Transactional::transaction` on the pair of tables, with a body
/// that inserts the checksum and then the value of `update` under its key.
/// The engine commits both inserts or neither. How it ends is the engine's
/// affair; it is the end of a transaction on these tables with this update.
#[verifier::external_body]
fn commit_pair(checksum: &sled::Tree, config: &sled::Tree, update: &Update)
    -> (r: Result<(), sled::transaction::TransactionError<bool>>)
    ensures
        pair_commit(*checksum, *config, update@, r is Ok),
{
    (checksum, config).transaction(|(checksum, config)| {
        checksum.insert(update.key.as_slice(), update.checksum.as_slice())?;
        config.insert(update.key.as_slice(), update.value.as_slice())?;
        Ok(())
    })
}

impl DbView {
    /// Reads the value stored under `key`: a point read of the table of
    /// values.
    pub(crate) fn read_config(&self, key: &[u8]) -> (r: Result<Option<Vec<u8>>, sled::Error>)
        ensures
            table_read(self.config, key@, read_of(r)),
    {
        table_get(&self.config, key)
    }

    /// Reads the checksum stored under `key`: a point read of the table of
    /// checksums.
    pub(crate) fn read_checksum(&self, key: &[u8]) -> (r: Result<Option<Vec<u8>>, sled::Error>)
        ensures
            table_read(self.checksum, key@, read_of(r)),
    {
        table_get(&self.checksum, key)
    }

    /// Commits `update` to both tables in one transaction: its checksum to
    /// the table of checksums, its value to the table of values.
    pub(crate) fn apply(&self, update: &Update) -> (r: Result<(), sled::transaction::TransactionError<bool>>)
        ensures
            pair_commit(self.checksum, self.config, update@, r is Ok),
    {
        commit_pair(&self.checksum, &self.config, update)
    }
}

impl Db {
    /// The two tables of the database.
    pub closed spec fn tables(&self) -> DbView {
        self.view
    }

    /// Opens the database at `path`, creating it if need be, and its two
    /// tables: the table of values under [`CONFIG_TABLE`] and the table of
    /// checksums under [`CHECKSUM_TABLE`]. Where the engine fails, its error
    /// is handed back.
    pub fn open(path: &str) -> (r: Result<Db, sled::Error>)
        ensures
            r matches Ok(db) ==> table_name(db.tables().config) == CONFIG_TABLE@ && table_name(
                db.tables().checksum,
            ) == CHECKSUM_TABLE@,
    {
        let db = match open_engine(path, CACHE_CAPACITY, MODE, USE_COMPRESSION, FLUSH_EVERY_MS) {
            Ok(db) => db,
            Err(error) => {
                return Err(error);
            },
        };
        let config = match open_table(&db, CONFIG_TABLE) {
            Ok(table) => table,
            Err(error) => {
                return Err(error);
            },
        };
        let checksum = match open_table(&db, CHECKSUM_TABLE) {
            Ok(table) => table,
            Err(error) => {
                return Err(error);
            },
        };
        Ok(Db { db, view: DbView { config, checksum } })
    }

    /// Handles to the two tables.
    pub fn view(&self) -> (r: DbView)
        ensures
            r == self.tables(),
    {
        self.view.clone()
    }
}

} // verus!
