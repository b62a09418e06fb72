//! Creation and forward migration of the database schema, and the record of
//! which schema version a database holds.
use vstd::prelude::*;
use crate::sqlite::{
    self, begun_with, in_transaction, schema_rows, stored_sites, BEGIN, COMMIT, CREATE_SCHEMA, INSERT_VERSION,
    LATEST_VERSION, ROLLBACK, VERSION_ROW_EXISTS, VERSION_TABLE_EXISTS,
};
use crate::HostError;

verus! {

/// The version of a database schema.
#[derive(Clone, Copy, Debug, PartialEq, Eq, Structural)]
pub struct SchemaVersion {
    major: u64,
    minor: u64,
    patch: u64,
}

impl View for SchemaVersion {
    type V = (u64, u64, u64);

    closed spec fn view(&self) -> (u64, u64, u64) {
        (self.major, self.minor, self.patch)
    }
}

/// The schema version that this library creates: 0.1.0.
pub open spec fn current_version() -> (u64, u64, u64) {
    (0, 1, 0)
}

/// Whether version `a` comes before version `b`.
pub open spec fn version_before(a: (u64, u64, u64), b: (u64, u64, u64)) -> bool {
    a.0 < b.0 || (a.0 == b.0 && a.1 < b.1) || (a.0 == b.0 && a.1 == b.1 && a.2 < b.2)
}

impl SchemaVersion {
    pub fn new(major: u64, minor: u64, patch: u64) -> (r: SchemaVersion)
        ensures
            r@ == (major, minor, patch),
    {
        SchemaVersion { major, minor, patch }
    }

    /// The version this library creates and migrates to.
    pub fn current() -> (r: SchemaVersion)
        ensures
            r@ == current_version(),
    {
        SchemaVersion::new(0, 1, 0)
    }

    pub fn major(&self) -> (r: u64)
        ensures
            r == self@.0,
    {
        self.major
    }

    pub fn minor(&self) -> (r: u64)
        ensures
            r == self@.1,
    {
        self.minor
    }

    pub fn patch(&self) -> (r: u64)
        ensures
            r == self@.2,
    {
        self.patch
    }

    /// Whether this version comes before `other`.
    pub fn is_before(&self, other: &SchemaVersion) -> (r: bool)
        ensures
            r == version_before(self@, other@),
    {
        self.major < other.major || (self.major == other.major && self.minor < other.minor) || (
        self.major == other.major && self.minor == other.minor && self.patch < other.patch)
    }
}

/// What opening a database does to its schema.
#[derive(Clone, Copy, Debug, PartialEq, Eq, Structural)]
pub enum SchemaStep {
    /// No schema yet: create it and record the current version.
    Create,
    /// An older schema: migrate it from that version and record the current one.
    Migrate(SchemaVersion),
    /// The current schema: nothing to do.
    Keep,
    /// A schema newer than this library knows: refuse the database.
    Refuse,
}

/// Decides what to do with a database whose recorded schema version is
/// `recorded` (`None` where no version is recorded).
pub fn schema_step(recorded: Option<SchemaVersion>) -> (r: SchemaStep)
    ensures
        recorded is None <==> r == SchemaStep::Create,
        (recorded matches Some(v) && v@ == current_version()) <==> r == SchemaStep::Keep,
        (recorded matches Some(v) && version_before(v@, current_version())) <==> r
            == SchemaStep::Migrate(recorded->0),
        (recorded matches Some(v) && version_before(current_version(), v@)) <==> r
            == SchemaStep::Refuse,
{
    let current = SchemaVersion::current();
    match recorded {
        None => SchemaStep::Create,
        Some(v) => {
            if v == current {
                SchemaStep::Keep
            } else if v.is_before(&current) {
                SchemaStep::Migrate(v)
            } else {
                SchemaStep::Refuse
            }
        },
    }
}

/// The recorded version, from what was found: whether the version table
/// exists, whether it has a row, and its latest row. A missing table and an
/// empty one both mean that no version is recorded.
pub fn recorded_version(
    table_exists: bool,
    row_exists: bool,
    latest: Option<SchemaVersion>,
) -> (r: Option<SchemaVersion>)
    ensures
        r == (if table_exists && row_exists {
            latest
        } else {
            None
        }),
{
    if table_exists && row_exists {
        latest
    } else {
        None
    }
}

/// A version row of the database, as stored.
pub type VersionRow = (i64, i64, i64);

/// The row that records the current version.
pub open spec fn current_row() -> VersionRow {
    (0, 1, 0)
}

/// The version that the version rows record: the most recently applied row, where the table
/// exists and has one.
pub open spec fn recorded_row(rows: Option<Seq<VersionRow>>) -> Option<VersionRow> {
    match rows {
        Some(s) => if s.len() > 0 {
            Some(s[0])
        } else {
            None
        },
        None => None,
    }
}

/// The version a row stands for; `None` where a column is negative.
pub open spec fn row_version(row: VersionRow) -> Option<(u64, u64, u64)> {
    if row.0 >= 0 && row.1 >= 0 && row.2 >= 0 {
        Some((row.0 as u64, row.1 as u64, row.2 as u64))
    } else {
        None
    }
}

/// Whether a database with these version rows is refused: its recorded version
/// cannot be read, or is newer than the current one.
pub open spec fn refused(rows: Option<Seq<VersionRow>>) -> bool {
    recorded_row(rows) is Some && (row_version(recorded_row(rows)->0) matches Some(v)
        ==> version_before(current_version(), v))
}

/// The version rows after a successful initialisation: one row for the current
/// version on a database without a recorded version, a new row on top of an
/// older version, and the same rows where the current version is recorded.
pub open spec fn rows_after_init(rows: Option<Seq<VersionRow>>) -> Option<Seq<VersionRow>> {
    match recorded_row(rows) {
        None => Some(seq![current_row()]),
        Some(row) => if row == current_row() {
            rows
        } else {
            Some(seq![current_row()] + rows->0)
        },
    }
}

/// A version read back from the store, whose columns are signed; `None` where
/// one of them is negative.
pub fn version_from_columns(major: i64, minor: i64, patch: i64) -> (r: Option<SchemaVersion>)
    ensures
        (major >= 0 && minor >= 0 && patch >= 0) <==> r is Some,
        r matches Some(v) ==> v@ == (major as u64, minor as u64, patch as u64),
        r matches Some(v) ==> row_version((major, minor, patch)) == Some(v@),
        r is None ==> row_version((major, minor, patch)) is None,
{
    if major >= 0 && minor >= 0 && patch >= 0 {
        Some(SchemaVersion::new(major as u64, minor as u64, patch as u64))
    } else {
        None
    }
}

/// Reads the recorded schema version. The rows are only read where the table
/// exists; a missing table and an empty one both mean that no version is
/// recorded.
pub fn get_version(connection: &rusqlite::Connection) -> (r: Result<Option<SchemaVersion>, HostError>)
    ensures
        r matches Ok(v) ==> (v is None <==> recorded_row(schema_rows(*connection)) is None),
        r matches Ok(v) ==> (v matches Some(x) ==> row_version(recorded_row(schema_rows(*connection))->0)
            == Some(x@)),
        r matches Err(e) ==> (e is Storage || (e is InvalidSchemaVersion && recorded_row(
            schema_rows(*connection),
        ) is Some && row_version(recorded_row(schema_rows(*connection))->0) is None)),
{
    let table_exists = match sqlite::query_flag(connection, VERSION_TABLE_EXISTS) {
        Ok(b) => b,
        Err(e) => return Err(HostError::Storage(e)),
    };
    if !table_exists {
        return Ok(recorded_version(false, false, None));
    }
    let row_exists = match sqlite::query_flag(connection, VERSION_ROW_EXISTS) {
        Ok(b) => b,
        Err(e) => return Err(HostError::Storage(e)),
    };
    if !row_exists {
        return Ok(recorded_version(true, false, None));
    }
    let latest = match sqlite::query_first_triple(connection, LATEST_VERSION) {
        Ok(Some((major, minor, patch))) => match version_from_columns(major, minor, patch) {
            Some(v) => Some(v),
            None => return Err(HostError::InvalidSchemaVersion),
        },
        Ok(None) => None,
        Err(e) => return Err(HostError::Storage(e)),
    };
    Ok(recorded_version(true, true, latest))
}

fn insert_version(connection: &mut rusqlite::Connection, version: SchemaVersion) -> (r: Result<(), rusqlite::Error>)
    requires
        version@ == current_version(),
    ensures
        r is Ok ==> {
            &&& schema_rows(*old(connection)) is Some
            &&& schema_rows(*final(connection)) == Some(seq![current_row()] + schema_rows(*old(connection))->0)
            &&& stored_sites(*final(connection)) == stored_sites(*old(connection))
            &&& in_transaction(*final(connection)) == in_transaction(*old(connection))
        },
        begun_with(*final(connection)) == begun_with(*old(connection)),
{
    sqlite::execute_triple(
        connection,
        INSERT_VERSION,
        [version.major as i64, version.minor as i64, version.patch as i64],
    )?;
    Ok(())
}

/// Gives up the open transaction after `e`: `e` where the rollback succeeds,
/// and then the store is as the transaction found it; `RollbackFailed` where
/// it does not.
fn abandon(connection: &mut rusqlite::Connection, e: HostError) -> (r: HostError)
    requires
        e is Storage || e is InvalidSchemaVersion,
    ensures
        r is Storage || r is InvalidSchemaVersion || r is RollbackFailed,
        r is RollbackFailed || r == e,
        !(r is RollbackFailed) ==> {
            &&& stored_sites(*final(connection)) == begun_with(*old(connection)).0
            &&& schema_rows(*final(connection)) == begun_with(*old(connection)).1
            &&& !in_transaction(*final(connection))
        },
{
    match sqlite::execute_batch(connection, ROLLBACK) {
        Ok(()) => {
            proof {
                reveal_strlit("ROLLBACK");
                reveal_strlit("BEGIN");
                reveal_strlit("COMMIT");
            }
            e
        },
        Err(rollback) => HostError::RollbackFailed(rollback),
    }
}

/// Brings the schema of the database up to the current version, in one
/// transaction: creates it where no version is recorded, migrates an older one
/// (no version so far changes any table) and records the current version,
/// leaves the current one alone, and refuses one that is newer than this
/// library or cannot be read. Saved pages are kept. Where it fails, the store
/// is as it was, unless undoing the transaction failed too (`RollbackFailed`).
pub fn init_tables(connection: &mut rusqlite::Connection) -> (r: Result<(), HostError>)
    ensures
        r matches Err(e) ==> (e is Storage || e is InvalidSchemaVersion || e is RollbackFailed),
        r is Ok ==> {
            &&& !refused(schema_rows(*old(connection)))
            &&& schema_rows(*final(connection)) == rows_after_init(schema_rows(*old(connection)))
            &&& recorded_row(schema_rows(*final(connection))) == Some(current_row())
            &&& stored_sites(*final(connection)) == stored_sites(*old(connection))
            &&& !in_transaction(*final(connection))
        },
        r matches Err(HostError::InvalidSchemaVersion) ==> refused(schema_rows(*old(connection))),
        r matches Err(e) ==> (!(e is RollbackFailed) ==> {
            &&& schema_rows(*final(connection)) == schema_rows(*old(connection))
            &&& stored_sites(*final(connection)) == stored_sites(*old(connection))
            &&& in_transaction(*final(connection)) == in_transaction(*old(connection))
        }),
{
    proof {
        reveal_strlit("ROLLBACK");
        reveal_strlit("BEGIN");
        reveal_strlit("COMMIT");
    }
    if let Err(e) = sqlite::execute_batch(connection, BEGIN) {
        return Err(HostError::Storage(e));
    }
    let ghost start_rows = schema_rows(*connection);
    let ghost start_sites = stored_sites(*connection);
    let recorded = match get_version(connection) {
        Ok(v) => v,
        Err(e) => return Err(abandon(connection, e)),
    };
    let done = match schema_step(recorded) {
        SchemaStep::Keep => Ok(()),
        SchemaStep::Migrate(_from) => insert_version(connection, SchemaVersion::current()),
        SchemaStep::Refuse => return Err(abandon(connection, HostError::InvalidSchemaVersion)),
        SchemaStep::Create => match sqlite::execute_batch(connection, CREATE_SCHEMA) {
            Ok(()) => insert_version(connection, SchemaVersion::current()),
            Err(e) => Err(e),
        },
    };
    if let Err(e) = done {
        return Err(abandon(connection, HostError::Storage(e)));
    }
    assert(schema_rows(*connection) == rows_after_init(start_rows));
    match sqlite::execute_batch(connection, COMMIT) {
        Ok(()) => Ok(()),
        Err(e) => Err(abandon(connection, HostError::Storage(e))),
    }
}

} // verus!
