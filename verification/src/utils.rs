//! What each command decides between its database queries.
//!
//! A command runs as a session: it starts with a first query, and each
//! answer of the database leads to the next query, until the session
//! finishes with the command's outcome. The program performs the queries
//! (`DbAction`) and hands back the database's answers (`DbReply`).
use vstd::prelude::*;

use crate::assetdef::{
    copy_int,
    copy_text,
    int_or_zero,
    status_code,
    text_or_empty,
    SqlRow,
    Status,
};
use crate::errors::{CliOutput, ErrorView, TigerSharkError};
use crate::frame_num::{find_replace_frame_num, is_digit, mask_frame_numbers};
use crate::parse_args::{AssetJson, AssetJsonView};
use crate::text::{
    debug_str,
    debug_text,
    decimal_i64,
    decimal_text,
    nonempty_pieces,
    lemma_split_pieces_avoid_separator,
    split_nonempty,
    split_pieces,
    texts,
};

verus! {

/// The queries of the program, as it sends them to the database.
pub const SQL_CREATE_ASSET: &'static str = "INSERT INTO assets ('name','location') VALUES (?,?);";

pub const SQL_FIND_ASSET: &'static str = "SELECT * FROM assets WHERE name=? AND location=?;";

pub const SQL_INSERT_VERSION: &'static str = "INSERT INTO versions\n            ('asset_id','version','source','datapath','depend','approved','status','ctime','atime')\n            VALUES (?,?,?,?,?,?,?,?,?);";

pub const SQL_READ_VERSIONS: &'static str = "SELECT version FROM versions WHERE asset_id=?;";

pub const SQL_READ_SOURCE: &'static str = "SELECT source FROM versions WHERE asset_id=? AND version=?;";

pub const SQL_READ_SOURCE_OF_DATAPATH: &'static str = "SELECT source FROM versions WHERE datapath=? ;";

pub const SQL_SET_STATUS: &'static str = "UPDATE versions\n             SET status = ?\n             WHERE asset_id = ? AND version = ?;";

pub const SQL_APPROVE: &'static str = "UPDATE versions\n            SET approved = 1\n            WHERE asset_id = ? AND version = ?;";

pub const SQL_READ_DEPENDS: &'static str = "SELECT depend FROM versions WHERE asset_id=? AND version=?;";

pub const SQL_APPROVE_DEPENDENCY: &'static str = "UPDATE versions\n             SET approved = 1\n             WHERE version_id = ?;";

pub const SQL_FIND_ASSET_ID: &'static str = "SELECT asset_id FROM assets WHERE name=? AND location=?;";

pub const SQL_FIND_VERSION: &'static str = "SELECT asset_id,version FROM versions WHERE version_id=?;";

pub const SQL_LIST_WITH_STATUS: &'static str = "SELECT * FROM versions\n             WHERE status=?;";

/// The command that waits for an asset's id (and version) to be looked up.
#[derive(Clone, Copy, Debug, PartialEq, Eq)]
pub enum Lookup {
    Source,
    Delete,
    Latest,
    Approve,
}

/// Where a session stands: which answer it waits for.
#[derive(Clone, Copy, Debug, PartialEq, Eq)]
pub enum Stage {
    /// insert: the asset looked up by name and location.
    FirstAssetLookup,
    /// insert: the asset being created.
    CreatingAsset,
    /// insert: the asset looked up again after it was found or created.
    SecondAssetLookup,
    /// create_version: the versions of the asset.
    ReadingVersions,
    /// create_version: the new version being inserted.
    InsertingVersion,
    /// source, delete, latest, approve: the asset id (and version) looked up.
    Resolving(Lookup),
    /// source: the source of a version.
    ReadingSource,
    /// source_from_file: the source of the version with a data path.
    ReadingSourceOfFile,
    /// delete: the version being marked for purge.
    MarkingForPurge,
    /// latest: the versions of the asset.
    ReadingLatest,
    /// approve: the version being approved.
    Approving,
    /// approve: what the version depends on.
    ReadingDepends,
    /// approve: the dependencies being approved.
    ApprovingDependencies,
    /// purge: the versions marked for purge.
    ListingPurge,
    /// The session has its outcome.
    Finished,
}

/// A command under way: the asset it works on and where it stands.
#[derive(Debug)]
pub struct Session {
    pub json: AssetJson,
    pub stage: Stage,
}

/// A `Session` with its texts taken as character sequences.
pub struct SessionView {
    pub json: AssetJsonView,
    pub stage: Stage,
}

impl View for Session {
    type V = SessionView;

    open spec fn view(&self) -> SessionView {
        SessionView { json: self.json@, stage: self.stage }
    }
}

/// The values of a new version's row.
#[derive(Debug)]
pub struct NewVersion {
    pub asset_id: i64,
    pub version: i64,
    pub source: String,
    pub datapath: String,
    pub depend: String,
    pub approved: u8,
    pub status: u8,
    pub ctime: String,
    pub atime: String,
}

/// A `NewVersion` with its texts taken as character sequences.
pub struct NewVersionView {
    pub asset_id: i64,
    pub version: i64,
    pub source: Seq<char>,
    pub datapath: Seq<char>,
    pub depend: Seq<char>,
    pub approved: u8,
    pub status: u8,
    pub ctime: Seq<char>,
    pub atime: Seq<char>,
}

impl View for NewVersion {
    type V = NewVersionView;

    open spec fn view(&self) -> NewVersionView {
        NewVersionView {
            asset_id: self.asset_id,
            version: self.version,
            source: self.source@,
            datapath: self.datapath@,
            depend: self.depend@,
            approved: self.approved,
            status: self.status,
            ctime: self.ctime@,
            atime: self.atime@,
        }
    }
}

/// What a session asks of the database next, or its outcome.
#[derive(Debug)]
pub enum DbAction {
    /// Fetch one row of `SQL_FIND_ASSET` for the name and location.
    FindAsset { name: String, location: String },
    /// Execute `SQL_CREATE_ASSET` with the name and location.
    CreateAsset { name: String, location: String },
    /// Fetch all rows of `SQL_READ_VERSIONS` for the asset.
    ReadVersions { asset_id: i64 },
    /// Execute `SQL_INSERT_VERSION` with the values of the new version.
    InsertVersion(NewVersion),
    /// Fetch one row of `SQL_FIND_ASSET_ID` for the name and location.
    FindAssetId { name: String, location: String },
    /// Fetch one row of `SQL_FIND_VERSION` for the version id.
    FindVersion { version_id: i64 },
    /// Fetch one row of `SQL_READ_SOURCE` for the asset and version.
    ReadSource { asset_id: i64, version: i64 },
    /// Fetch one row of `SQL_READ_SOURCE_OF_DATAPATH` for the data path.
    ReadSourceOfDatapath { datapath: String },
    /// Execute `SQL_SET_STATUS` with the status, asset and version.
    SetStatus { status: u8, asset_id: i64, version: i64 },
    /// Execute `SQL_APPROVE` with the asset and version.
    Approve { asset_id: i64, version: i64 },
    /// Fetch one row of `SQL_READ_DEPENDS` for the asset and version.
    ReadDepends { asset_id: i64, version: i64 },
    /// In one transaction, execute `SQL_APPROVE_DEPENDENCY` for each version id.
    ApproveDependencies { version_ids: Vec<String> },
    /// Fetch all rows of `SQL_LIST_WITH_STATUS` for the status.
    ListWithStatus { status: u8 },
    /// The session is over, with this outcome.
    Finish(CliOutput),
}

/// A `DbAction` with its texts taken as character sequences.
pub enum ActionView {
    FindAsset { name: Seq<char>, location: Seq<char> },
    CreateAsset { name: Seq<char>, location: Seq<char> },
    ReadVersions { asset_id: i64 },
    InsertVersion(NewVersionView),
    FindAssetId { name: Seq<char>, location: Seq<char> },
    FindVersion { version_id: i64 },
    ReadSource { asset_id: i64, version: i64 },
    ReadSourceOfDatapath { datapath: Seq<char> },
    SetStatus { status: u8, asset_id: i64, version: i64 },
    Approve { asset_id: i64, version: i64 },
    ReadDepends { asset_id: i64, version: i64 },
    ApproveDependencies { version_ids: Seq<Seq<char>> },
    ListWithStatus { status: u8 },
    Finish(Result<Seq<char>, ErrorView>),
}

impl View for DbAction {
    type V = ActionView;

    open spec fn view(&self) -> ActionView {
        match self {
            DbAction::FindAsset { name, location } => ActionView::FindAsset {
                name: name@,
                location: location@,
            },
            DbAction::CreateAsset { name, location } => ActionView::CreateAsset {
                name: name@,
                location: location@,
            },
            DbAction::ReadVersions { asset_id } => ActionView::ReadVersions { asset_id: *asset_id },
            DbAction::InsertVersion(v) => ActionView::InsertVersion(v@),
            DbAction::FindAssetId { name, location } => ActionView::FindAssetId {
                name: name@,
                location: location@,
            },
            DbAction::FindVersion { version_id } => ActionView::FindVersion {
                version_id: *version_id,
            },
            DbAction::ReadSource { asset_id, version } => ActionView::ReadSource {
                asset_id: *asset_id,
                version: *version,
            },
            DbAction::ReadSourceOfDatapath { datapath } => ActionView::ReadSourceOfDatapath {
                datapath: datapath@,
            },
            DbAction::SetStatus { status, asset_id, version } => ActionView::SetStatus {
                status: *status,
                asset_id: *asset_id,
                version: *version,
            },
            DbAction::Approve { asset_id, version } => ActionView::Approve {
                asset_id: *asset_id,
                version: *version,
            },
            DbAction::ReadDepends { asset_id, version } => ActionView::ReadDepends {
                asset_id: *asset_id,
                version: *version,
            },
            DbAction::ApproveDependencies { version_ids } => ActionView::ApproveDependencies {
                version_ids: texts(version_ids@),
            },
            DbAction::ListWithStatus { status } => ActionView::ListWithStatus { status: *status },
            DbAction::Finish(o) => ActionView::Finish(o@),
        }
    }
}

/// The database's answer to an action. An error is given by its text: the
/// text that `to_string` writes for the answer to `CreateAsset`, the text that
/// `{:?}` writes for every other answer.
#[derive(Debug)]
pub enum DbReply {
    /// The row that a fetch of one row gave, or the error.
    Row(Result<SqlRow, String>),
    /// The rows that a fetch of all rows gave, or the error.
    Rows(Result<Vec<SqlRow>, String>),
    /// The id of the last row inserted by an execution, or the error.
    Executed(Result<i64, String>),
    /// Whether a transaction was committed, or the error.
    Committed(Result<(), String>),
}

/// A `DbReply` with its texts taken as character sequences.
pub enum ReplyView {
    Row(Result<SqlRow, Seq<char>>),
    Rows(Result<Seq<SqlRow>, Seq<char>>),
    Executed(Result<i64, Seq<char>>),
    Committed(Result<(), Seq<char>>),
}

pub open spec fn row_view(r: Result<SqlRow, String>) -> Result<SqlRow, Seq<char>> {
    match r {
        Ok(row) => Ok(row),
        Err(e) => Err(e@),
    }
}

pub open spec fn rows_view(r: Result<Vec<SqlRow>, String>) -> Result<Seq<SqlRow>, Seq<char>> {
    match r {
        Ok(rows) => Ok(rows@),
        Err(e) => Err(e@),
    }
}

pub open spec fn int_result_view(r: Result<i64, String>) -> Result<i64, Seq<char>> {
    match r {
        Ok(v) => Ok(v),
        Err(e) => Err(e@),
    }
}

impl View for DbReply {
    type V = ReplyView;

    open spec fn view(&self) -> ReplyView {
        match self {
            DbReply::Row(r) => ReplyView::Row(row_view(*r)),
            DbReply::Rows(r) => ReplyView::Rows(rows_view(*r)),
            DbReply::Executed(r) => ReplyView::Executed(int_result_view(*r)),
            DbReply::Committed(r) => ReplyView::Committed(
                match r {
                    Ok(()) => Ok(()),
                    Err(e) => Err(e@),
                },
            ),
        }
    }
}

// ---------------------------------------------------------------------------
// What the answers mean
// ---------------------------------------------------------------------------
/// The id of the asset that a lookup by name and location found: none where
/// the query failed or the row's id reads as 0.
pub open spec fn lookup_id(row: Result<SqlRow, Seq<char>>) -> Option<i64> {
    match row {
        Ok(r) => if int_or_zero(r.asset_id) == 0 {
            None
        } else {
            Some(int_or_zero(r.asset_id))
        },
        Err(_) => None,
    }
}

/// The version numbers of rows.
pub open spec fn versions_of(rows: Seq<SqlRow>) -> Seq<i64> {
    rows.map_values(|r: SqlRow| int_or_zero(r.version))
}

/// The greatest of a non-empty sequence of numbers.
pub open spec fn seq_max(vs: Seq<i64>) -> i64
    decreases vs.len(),
{
    if vs.len() <= 1 {
        vs[0]
    } else if seq_max(vs.drop_last()) >= vs.last() {
        seq_max(vs.drop_last())
    } else {
        vs.last()
    }
}

/// The latest of some version numbers: the greatest, or 0 where there is none.
pub open spec fn latest_of(vs: Seq<i64>) -> i64 {
    if vs.len() == 0 {
        0
    } else {
        seq_max(vs)
    }
}

/// The latest version that the rows of the versions of an asset show, or the
/// error "Error:" and the query's error.
pub open spec fn latest_version_result(rows: Result<Seq<SqlRow>, Seq<char>>) -> Result<
    i64,
    Seq<char>,
> {
    match rows {
        Ok(rs) => Ok(latest_of(versions_of(rs))),
        Err(e) => Err("Error:"@ + e),
    }
}

/// The data paths of rows.
pub open spec fn datapaths_of(rows: Seq<SqlRow>) -> Seq<Seq<char>> {
    rows.map_values(|r: SqlRow| text_or_empty(r.datapath))
}

/// The data paths, each followed by `#`.
pub open spec fn purge_listing(paths: Seq<Seq<char>>) -> Seq<char>
    decreases paths.len(),
{
    if paths.len() == 0 {
        Seq::empty()
    } else {
        purge_listing(paths.drop_last()) + paths.last() + seq!['#']
    }
}

/// The version ids in a version's `depend` text: its non-empty
/// comma-separated pieces.
pub open spec fn dependency_ids(depend: Seq<char>) -> Seq<Seq<char>> {
    nonempty_pieces(depend, ',')
}

// ---------------------------------------------------------------------------
// The transitions
// ---------------------------------------------------------------------------
pub open spec fn at(json: AssetJsonView, stage: Stage) -> SessionView {
    SessionView { json, stage }
}

pub open spec fn finish(json: AssetJsonView, out: Result<Seq<char>, ErrorView>) -> (
    SessionView,
    ActionView,
) {
    (at(json, Stage::Finished), ActionView::Finish(out))
}

/// The asset of a session that works on no asset of its own.
pub open spec fn empty_json() -> AssetJsonView {
    AssetJsonView {
        asset_id: 0,
        name: Seq::empty(),
        location: Seq::empty(),
        version_id: 0,
        version: 0,
        source: Seq::empty(),
        datapath: Seq::empty(),
        depend: Seq::empty(),
        approved: 0,
        status: 0,
    }
}

pub open spec fn with_asset_id(j: AssetJsonView, id: i64) -> AssetJsonView {
    AssetJsonView {
        asset_id: id,
        name: j.name,
        location: j.location,
        version_id: j.version_id,
        version: j.version,
        source: j.source,
        datapath: j.datapath,
        depend: j.depend,
        approved: j.approved,
        status: j.status,
    }
}

pub open spec fn with_datapath(j: AssetJsonView, datapath: Seq<char>) -> AssetJsonView {
    AssetJsonView {
        asset_id: j.asset_id,
        name: j.name,
        location: j.location,
        version_id: j.version_id,
        version: j.version,
        source: j.source,
        datapath: datapath,
        depend: j.depend,
        approved: j.approved,
        status: j.status,
    }
}

pub open spec fn with_version(j: AssetJsonView, version: i64) -> AssetJsonView {
    AssetJsonView {
        asset_id: j.asset_id,
        name: j.name,
        location: j.location,
        version_id: j.version_id,
        version: version,
        source: j.source,
        datapath: j.datapath,
        depend: j.depend,
        approved: j.approved,
        status: j.status,
    }
}

/// insert: look the asset up by name and location where its id is not given,
/// else go on with the new version.
pub open spec fn insert_start(json: AssetJsonView) -> (SessionView, ActionView) {
    if json.asset_id == 0 {
        (
            at(json, Stage::FirstAssetLookup),
            ActionView::FindAsset { name: json.name, location: json.location },
        )
    } else {
        version_start(json)
    }
}

/// create_version: read the versions of the asset.
pub open spec fn version_start(json: AssetJsonView) -> (SessionView, ActionView) {
    (at(json, Stage::ReadingVersions), ActionView::ReadVersions { asset_id: json.asset_id })
}

/// source, delete, latest, approve: where the asset id is not given, look it
/// up by name and location, or, where a version id is given, look the asset
/// id and version up by the version id; else go on at once.
pub open spec fn lookup_start(lookup: Lookup, json: AssetJsonView) -> (SessionView, ActionView) {
    if json.asset_id == 0 {
        if json.version_id == 0 {
            (
                at(json, Stage::Resolving(lookup)),
                ActionView::FindAssetId { name: json.name, location: json.location },
            )
        } else {
            (
                at(json, Stage::Resolving(lookup)),
                ActionView::FindVersion { version_id: json.version_id },
            )
        }
    } else {
        after_lookup(lookup, json)
    }
}

/// The asset once the lookup answered: the row's asset id (and version, for a
/// lookup by version id); unchanged where the query failed.
pub open spec fn resolved(json: AssetJsonView, row: Result<SqlRow, Seq<char>>) -> AssetJsonView {
    match row {
        Err(_) => json,
        Ok(r) => if json.version_id == 0 {
            with_asset_id(json, int_or_zero(r.asset_id))
        } else {
            with_version(with_asset_id(json, int_or_zero(r.asset_id)), int_or_zero(r.version))
        },
    }
}

/// What each command does once its asset's id (and version) are known: it
/// stops where they are still 0, else it sends its query.
pub open spec fn after_lookup(lookup: Lookup, json: AssetJsonView) -> (SessionView, ActionView) {
    let missing = json.asset_id == 0 || json.version == 0;
    match lookup {
        Lookup::Source => if missing {
            finish(json, Err(ErrorView::NotFound("could not find asset_id and version"@)))
        } else {
            (
                at(json, Stage::ReadingSource),
                ActionView::ReadSource { asset_id: json.asset_id, version: json.version },
            )
        },
        Lookup::Delete => if missing {
            finish(json, Err(ErrorView::NotFound("could not find asset_id and version"@)))
        } else {
            (
                at(json, Stage::MarkingForPurge),
                ActionView::SetStatus {
                    status: status_code(Status::Purge),
                    asset_id: json.asset_id,
                    version: json.version,
                },
            )
        },
        Lookup::Latest => if json.asset_id == 0 {
            finish(json, Err(ErrorView::NotFound("Error, could not find asset_id"@)))
        } else {
            (at(json, Stage::ReadingLatest), ActionView::ReadVersions { asset_id: json.asset_id })
        },
        Lookup::Approve => if missing {
            finish(json, Err(ErrorView::NotFound("Error, could not find asset_id and version"@)))
        } else {
            (
                at(json, Stage::Approving),
                ActionView::Approve { asset_id: json.asset_id, version: json.version },
            )
        },
    }
}

/// source_from_file: read the source of the version whose data path is the
/// file's path with its frame numbers masked.
pub open spec fn source_from_file_start(file: Seq<char>) -> (SessionView, ActionView) {
    (
        at(empty_json(), Stage::ReadingSourceOfFile),
        ActionView::ReadSourceOfDatapath { datapath: mask_frame_numbers(file) },
    )
}

/// purge: list the versions marked for purge.
pub open spec fn purge_start() -> (SessionView, ActionView) {
    (
        at(empty_json(), Stage::ListingPurge),
        ActionView::ListWithStatus { status: status_code(Status::Purge) },
    )
}

/// The next version number after the versions that the rows show: one more
/// than the latest, where the rows could be read; 1 where they could not.
pub open spec fn next_version_number(rows: Result<Seq<SqlRow>, Seq<char>>) -> int {
    match latest_version_result(rows) {
        Ok(v) => v + 1,
        Err(_) => 1,
    }
}

/// Which answer a session can take in each stage; where the versions of an
/// asset are read for a new version, the latest must leave room for one more.
pub open spec fn accepts(s: SessionView, r: ReplyView) -> bool {
    match s.stage {
        Stage::FirstAssetLookup => r is Row,
        Stage::CreatingAsset => r is Executed,
        Stage::SecondAssetLookup => r is Row,
        Stage::ReadingVersions => r matches ReplyView::Rows(rows) && next_version_number(rows)
            <= i64::MAX,
        Stage::InsertingVersion => r is Executed,
        Stage::Resolving(_) => r is Row,
        Stage::ReadingSource => r is Row,
        Stage::ReadingSourceOfFile => r is Row,
        Stage::MarkingForPurge => r is Executed,
        Stage::ReadingLatest => r is Rows,
        Stage::Approving => r is Executed,
        Stage::ReadingDepends => r is Row,
        Stage::ApprovingDependencies => r is Committed,
        Stage::ListingPurge => r is Rows,
        Stage::Finished => false,
    }
}

/// The next stage and action of a session after an answer; `ctime` and
/// `atime` are the times recorded with a new version.
pub open spec fn next_step(s: SessionView, r: ReplyView, ctime: Seq<char>, atime: Seq<char>) -> (
    SessionView,
    ActionView,
) {
    let json = s.json;
    match (s.stage, r) {
        (Stage::FirstAssetLookup, ReplyView::Row(row)) => match lookup_id(row) {
            None => (
                at(json, Stage::CreatingAsset),
                ActionView::CreateAsset { name: json.name, location: json.location },
            ),
            Some(_) => (
                at(json, Stage::SecondAssetLookup),
                ActionView::FindAsset { name: json.name, location: json.location },
            ),
        },
        (Stage::CreatingAsset, ReplyView::Executed(res)) => match res {
            Err(e) => finish(
                json,
                Err(ErrorView::DbError("Error Creating Asset Err("@ + debug_text(e) + ")"@)),
            ),
            Ok(_) => (
                at(json, Stage::SecondAssetLookup),
                ActionView::FindAsset { name: json.name, location: json.location },
            ),
        },
        (Stage::SecondAssetLookup, ReplyView::Row(row)) => match lookup_id(row) {
            None => finish(json, Err(ErrorView::DbError("Error Finding Asset Version"@))),
            Some(id) => version_start(with_asset_id(json, id)),
        },
        (Stage::ReadingVersions, ReplyView::Rows(rows)) => {
            let datapath = mask_frame_numbers(json.datapath);
            (
                at(with_datapath(json, datapath), Stage::InsertingVersion),
                ActionView::InsertVersion(
                    NewVersionView {
                        asset_id: json.asset_id,
                        version: next_version_number(rows) as i64,
                        source: json.source,
                        datapath: datapath,
                        depend: json.depend,
                        approved: 0,
                        status: status_code(Status::Online),
                        ctime: ctime,
                        atime: atime,
                    },
                ),
            )
        },
        (Stage::InsertingVersion, ReplyView::Executed(res)) => match res {
            Ok(id) => finish(json, Ok(decimal_text(id as int))),
            Err(e) => finish(
                json,
                Err(
                    ErrorView::DbError(
                        "Error creating Asset Version : "@ + e + " "@ + SQL_INSERT_VERSION@,
                    ),
                ),
            ),
        },
        (Stage::Resolving(lookup), ReplyView::Row(row)) => after_lookup(lookup, resolved(json, row)),
        (Stage::ReadingSource, ReplyView::Row(row)) => match row {
            Ok(r) => finish(json, Ok("source : "@ + text_or_empty(r.source))),
            Err(e) => finish(
                json,
                Err(ErrorView::NotFound("Source not found: "@ + e + " "@ + SQL_READ_SOURCE@)),
            ),
        },
        (Stage::ReadingSourceOfFile, ReplyView::Row(row)) => match row {
            Ok(r) => finish(json, Ok(text_or_empty(r.source))),
            Err(e) => finish(
                json,
                Err(
                    ErrorView::NotFound(
                        "Source not found: "@ + e + " "@ + SQL_READ_SOURCE_OF_DATAPATH@,
                    ),
                ),
            ),
        },
        (Stage::MarkingForPurge, ReplyView::Executed(res)) => match res {
            Ok(_) => finish(json, Ok("version marked for purge"@)),
            Err(e) => finish(
                json,
                Err(ErrorView::DbError("Error, could not mark asset for purge:"@ + e)),
            ),
        },
        (Stage::ReadingLatest, ReplyView::Rows(rows)) => match latest_version_result(rows) {
            Ok(v) => finish(json, Ok(decimal_text(v as int))),
            Err(e) => finish(json, Err(ErrorView::NotFound("no version found: "@ + debug_text(e)))),
        },
        (Stage::Approving, ReplyView::Executed(res)) => match res {
            Ok(_) => (
                at(json, Stage::ReadingDepends),
                ActionView::ReadDepends { asset_id: json.asset_id, version: json.version },
            ),
            Err(e) => finish(
                json,
                Err(ErrorView::DbError("Error, could not approve version: "@ + e)),
            ),
        },
        (Stage::ReadingDepends, ReplyView::Row(row)) => {
            let depend = match row {
                Ok(r) => text_or_empty(r.depend),
                Err(_) => Seq::empty(),
            };
            let ids = dependency_ids(depend);
            if ids.len() == 0 {
                finish(json, Ok("Asset approved, no dependencies"@))
            } else {
                (
                    at(json, Stage::ApprovingDependencies),
                    ActionView::ApproveDependencies { version_ids: ids },
                )
            }
        },
        (Stage::ApprovingDependencies, ReplyView::Committed(res)) => match res {
            Ok(_) => finish(json, Ok("Asset and Dependencies approved"@)),
            Err(e) => finish(json, Err(ErrorView::DbError("Error approving dependencies: "@ + e))),
        },
        (Stage::ListingPurge, ReplyView::Rows(rows)) => match rows {
            Ok(rs) => finish(json, Ok(debug_text(purge_listing(datapaths_of(rs))))),
            Err(e) => finish(json, Err(ErrorView::NotFound("Cannot access versions to purge "@ + e))),
        },
        _ => arbitrary(),
    }
}

// ---------------------------------------------------------------------------
// Executable parts
// ---------------------------------------------------------------------------
/// `a` then `b`.
fn cat(a: &str, b: &str) -> (t: String)
    ensures
        t@ == a@ + b@,
{
    let mut t = a.to_owned();
    t.append(b);
    t
}

/// `a`, `b`, `c` then `d`.
fn cat4(a: &str, b: &str, c: &str, d: &str) -> (t: String)
    ensures
        t@ == a@ + b@ + c@ + d@,
{
    let mut t = a.to_owned();
    t.append(b);
    t.append(c);
    t.append(d);
    t
}

fn finished(json: AssetJson, out: CliOutput) -> (res: (Session, DbAction))
    ensures
        (res.0@, res.1@) == finish(json@, out@),
{
    (Session { json, stage: Stage::Finished }, DbAction::Finish(out))
}

fn succeed(json: AssetJson, text: String) -> (res: (Session, DbAction))
    ensures
        (res.0@, res.1@) == finish(json@, Ok(text@)),
{
    finished(json, CliOutput(Ok(text)))
}

fn fail(json: AssetJson, e: TigerSharkError) -> (res: (Session, DbAction))
    ensures
        (res.0@, res.1@) == finish(json@, Err(e@)),
{
    finished(json, CliOutput(Err(e)))
}

/// The id of the asset that a lookup by name and location found: none where
/// the query failed or the id reads as 0.
pub fn find_asset_id(row: &Result<SqlRow, String>) -> (id: Option<i64>)
    ensures
        id == lookup_id(row_view(*row)),
{
    match row {
        Ok(r) => {
            let id = copy_int(&r.asset_id);
            if id == 0 {
                None
            } else {
                Some(id)
            }
        },
        Err(_) => None,
    }
}

proof fn lemma_latest_of_take(vs: Seq<i64>, i: int)
    requires
        0 <= i < vs.len(),
    ensures
        latest_of(vs.take(i + 1)) == if i == 0 {
            vs[0]
        } else if latest_of(vs.take(i)) >= vs[i] {
            latest_of(vs.take(i))
        } else {
            vs[i]
        },
{
    assert(vs.take(i + 1).drop_last() =~= vs.take(i));
}

/// The latest of the versions that the rows show, 0 where there are none;
/// "Error:" and the query's error where the rows could not be read.
pub fn latest_version(rows: &Result<Vec<SqlRow>, String>) -> (latest: Result<i64, String>)
    ensures
        int_result_view(latest) == latest_version_result(rows_view(*rows)),
{
    match rows {
        Err(e) => Err(cat("Error:", e.as_str())),
        Ok(rs) => {
            let ghost vs = versions_of(rs@);
            let mut m: i64 = 0;
            let mut i: usize = 0;
            while i < rs.len()
                invariant
                    i <= rs.len(),
                    vs == versions_of(rs@),
                    m == latest_of(vs.take(i as int)),
                decreases rs.len() - i,
            {
                let v = copy_int(&rs[i].version);
                proof {
                    lemma_latest_of_take(vs, i as int);
                }
                if i == 0 || v > m {
                    m = v;
                }
                i = i + 1;
            }
            assert(vs.take(rs.len() as int) =~= vs);
            Ok(m)
        },
    }
}

/// The listing of the versions marked for purge: each data path followed by `#`.
fn purge_text(rows: &Vec<SqlRow>) -> (text: String)
    ensures
        text@ == purge_listing(datapaths_of(rows@)),
{
    let ghost paths = datapaths_of(rows@);
    let mut text = String::new();
    let mut i: usize = 0;
    proof {
        reveal_strlit("#");
    }
    while i < rows.len()
        invariant
            i <= rows.len(),
            paths == datapaths_of(rows@),
            text@ == purge_listing(paths.take(i as int)),
            "#"@ == seq!['#'],
        decreases rows.len() - i,
    {
        let path = copy_text(&rows[i].datapath);
        text.append(path.as_str());
        text.append("#");
        assert(paths.take(i + 1).drop_last() =~= paths.take(i as int));
        assert(text@ =~= purge_listing(paths.take(i + 1)));
        i = i + 1;
    }
    assert(paths.take(rows.len() as int) =~= paths);
    text
}

/// The layout of a time written as `%Y-%m-%d %H:%M:%S`: a year of at least
/// four digits (with a sign before year 0 or after 9999), then `-MM-DD
/// HH:MM:SS` with two digits each.
pub open spec fn is_clock_text(t: Seq<char>) -> bool {
    let n = t.len() as int;
    let year = t.take(n - 15);
    let year_digits = if year.len() > 0 && (year[0] == '+' || year[0] == '-') {
        year.drop_first()
    } else {
        year
    };
    &&& n >= 19
    &&& year_digits.len() >= 4
    &&& forall|k: int| 0 <= k < year_digits.len() ==> is_digit(#[trigger] year_digits[k])
    &&& t[n - 15] == '-' && t[n - 12] == '-' && t[n - 9] == ' ' && t[n - 6] == ':' && t[n - 3]
        == ':'
    &&& is_digit(t[n - 14]) && is_digit(t[n - 13]) && is_digit(t[n - 11]) && is_digit(t[n - 10])
    &&& is_digit(t[n - 8]) && is_digit(t[n - 7]) && is_digit(t[n - 5]) && is_digit(t[n - 4])
    &&& is_digit(t[n - 2]) && is_digit(t[n - 1])
}

/// Reads the local clock with chrono's `Local::now` and writes it with
/// chrono's `format("%Y-%m-%d %H:%M:%S")`. Which time it writes depends on the
/// clock and the machine's time zone and is not stated; the layout is stated
/// as chrono's format documentation gives it (`%Y` zero-padded to four digits,
/// with a sign outside years 0 to 9999; the others zero-padded to two digits).
#[verifier::external_body]
fn now() -> (stamp: String)
    ensures
        is_clock_text(stamp@),
{
    chrono::Local::now().format("%Y-%m-%d %H:%M:%S").to_string()
}

/// Starts `insert` on an asset: with no asset id, the asset is looked up by
/// name and location (and created where it is not found); then a new version
/// of it is created.
pub fn insert(json: AssetJson) -> (res: (Session, DbAction))
    ensures
        (res.0@, res.1@) == insert_start(json@),
{
    if json.asset_id == 0 {
        let name = json.name.clone();
        let location = json.location.clone();
        (Session { json, stage: Stage::FirstAssetLookup }, DbAction::FindAsset { name, location })
    } else {
        create_version(json)
    }
}

/// Starts `create_version` on an asset with a known id: the versions of the
/// asset are read, and the new version is one more than the latest.
pub fn create_version(json: AssetJson) -> (res: (Session, DbAction))
    ensures
        (res.0@, res.1@) == version_start(json@),
{
    let asset_id = json.asset_id;
    (Session { json, stage: Stage::ReadingVersions }, DbAction::ReadVersions { asset_id })
}

fn start_lookup(lookup: Lookup, json: AssetJson) -> (res: (Session, DbAction))
    ensures
        (res.0@, res.1@) == lookup_start(lookup, json@),
{
    if json.asset_id == 0 {
        if json.version_id == 0 {
            let name = json.name.clone();
            let location = json.location.clone();
            (
                Session { json, stage: Stage::Resolving(lookup) },
                DbAction::FindAssetId { name, location },
            )
        } else {
            let version_id = json.version_id;
            (Session { json, stage: Stage::Resolving(lookup) }, DbAction::FindVersion { version_id })
        }
    } else {
        continue_after_lookup(lookup, json)
    }
}

fn continue_after_lookup(lookup: Lookup, json: AssetJson) -> (res: (Session, DbAction))
    ensures
        (res.0@, res.1@) == after_lookup(lookup, json@),
{
    let asset_id = json.asset_id;
    let version = json.version;
    let missing = asset_id == 0 || version == 0;
    match lookup {
        Lookup::Source => if missing {
            fail(json, TigerSharkError::NotFound("could not find asset_id and version".to_owned()))
        } else {
            (Session { json, stage: Stage::ReadingSource }, DbAction::ReadSource { asset_id, version })
        },
        Lookup::Delete => if missing {
            fail(json, TigerSharkError::NotFound("could not find asset_id and version".to_owned()))
        } else {
            (
                Session { json, stage: Stage::MarkingForPurge },
                DbAction::SetStatus { status: Status::Purge.code(), asset_id, version },
            )
        },
        Lookup::Latest => if asset_id == 0 {
            fail(json, TigerSharkError::NotFound("Error, could not find asset_id".to_owned()))
        } else {
            (Session { json, stage: Stage::ReadingLatest }, DbAction::ReadVersions { asset_id })
        },
        Lookup::Approve => if missing {
            fail(
                json,
                TigerSharkError::NotFound("Error, could not find asset_id and version".to_owned()),
            )
        } else {
            (Session { json, stage: Stage::Approving }, DbAction::Approve { asset_id, version })
        },
    }
}

/// Starts `source`: the asset id and version are looked up where missing,
/// then the source of that version is read.
pub fn source(json: AssetJson) -> (res: (Session, DbAction))
    ensures
        (res.0@, res.1@) == lookup_start(Lookup::Source, json@),
{
    start_lookup(Lookup::Source, json)
}

/// Starts `delete`: the asset id and version are looked up where missing,
/// then that version is marked for purge.
pub fn delete(json: AssetJson) -> (res: (Session, DbAction))
    ensures
        (res.0@, res.1@) == lookup_start(Lookup::Delete, json@),
{
    start_lookup(Lookup::Delete, json)
}

/// Starts `latest`: the asset id is looked up where missing, then the latest
/// version of the asset is read.
pub fn latest(json: AssetJson) -> (res: (Session, DbAction))
    ensures
        (res.0@, res.1@) == lookup_start(Lookup::Latest, json@),
{
    start_lookup(Lookup::Latest, json)
}

/// Starts `approve`: the asset id and version are looked up where missing,
/// then that version and the versions it depends on are approved.
pub fn approve(json: AssetJson) -> (res: (Session, DbAction))
    ensures
        (res.0@, res.1@) == lookup_start(Lookup::Approve, json@),
{
    start_lookup(Lookup::Approve, json)
}

/// Starts `source_from_file`: the source of the version whose data path is the
/// file's path with its frame numbers masked is read.
pub fn source_from_file(file: &str) -> (res: (Session, DbAction))
    ensures
        (res.0@, res.1@) == source_from_file_start(file@),
{
    let datapath = find_replace_frame_num(file);
    (
        Session { json: AssetJson::default(), stage: Stage::ReadingSourceOfFile },
        DbAction::ReadSourceOfDatapath { datapath },
    )
}

/// Starts `purge`: the versions marked for purge are listed.
pub fn purge() -> (res: (Session, DbAction))
    ensures
        (res.0@, res.1@) == purge_start(),
{
    (
        Session { json: AssetJson::default(), stage: Stage::ListingPurge },
        DbAction::ListWithStatus { status: Status::Purge.code() },
    )
}

impl Session {
    /// Whether the session can take this answer now.
    pub fn accepts_reply(&self, reply: &DbReply) -> (ok: bool)
        ensures
            ok == accepts(self@, reply@),
    {
        match self.stage {
            Stage::FirstAssetLookup | Stage::SecondAssetLookup | Stage::Resolving(_)
            | Stage::ReadingSource | Stage::ReadingSourceOfFile | Stage::ReadingDepends => {
                matches!(reply, DbReply::Row(_))
            },
            Stage::CreatingAsset | Stage::InsertingVersion | Stage::MarkingForPurge
            | Stage::Approving => matches!(reply, DbReply::Executed(_)),
            Stage::ReadingLatest | Stage::ListingPurge => matches!(reply, DbReply::Rows(_)),
            Stage::ApprovingDependencies => matches!(reply, DbReply::Committed(_)),
            Stage::ReadingVersions => match reply {
                DbReply::Rows(rows) => match latest_version(rows) {
                    Ok(v) => v < i64::MAX,
                    Err(_) => true,
                },
                _ => false,
            },
            Stage::Finished => false,
        }
    }

    /// Takes the database's answer and gives the next action, reading the
    /// clock for the times of a new version.
    pub fn resume(self, reply: DbReply) -> (res: (Session, DbAction))
        requires
            accepts(self@, reply@),
        ensures
            exists|ctime: Seq<char>, atime: Seq<char>|
                (res.0@, res.1@) == next_step(self@, reply@, ctime, atime) && (self@.stage
                    == Stage::ReadingVersions ==> is_clock_text(ctime) && is_clock_text(atime)),
    {
        let (ctime, atime) = match self.stage {
            Stage::ReadingVersions => (now(), now()),
            _ => (String::new(), String::new()),
        };
        let ghost (c, a) = (ctime@, atime@);
        let ghost reading_versions = self@.stage == Stage::ReadingVersions;
        let res = self.resume_at(reply, ctime, atime);
        assert((res.0@, res.1@) == next_step(self@, reply@, c, a) && (reading_versions
            ==> is_clock_text(c) && is_clock_text(a)));
        res
    }

    /// Takes the database's answer and gives the next action; a new version
    /// is recorded with the times `ctime` and `atime`.
    pub fn resume_at(self, reply: DbReply, ctime: String, atime: String) -> (res: (
        Session,
        DbAction,
    ))
        requires
            accepts(self@, reply@),
        ensures
            (res.0@, res.1@) == next_step(self@, reply@, ctime@, atime@),
    {
        let Session { json, stage } = self;
        match stage {
            Stage::FirstAssetLookup => {
                let row = match reply {
                    DbReply::Row(row) => row,
                    _ => unreached(),
                };
                let name = json.name.clone();
                let location = json.location.clone();
                match find_asset_id(&row) {
                    None => (
                        Session { json, stage: Stage::CreatingAsset },
                        DbAction::CreateAsset { name, location },
                    ),
                    Some(_) => (
                        Session { json, stage: Stage::SecondAssetLookup },
                        DbAction::FindAsset { name, location },
                    ),
                }
            },
            Stage::CreatingAsset => {
                let res = match reply {
                    DbReply::Executed(res) => res,
                    _ => unreached(),
                };
                match res {
                    Err(e) => {
                        let shown = debug_str(e.as_str());
                        let mut text = cat("Error Creating Asset Err(", shown.as_str());
                        text.append(")");
                        fail(json, TigerSharkError::DbError(text))
                    },
                    Ok(_) => {
                        let name = json.name.clone();
                        let location = json.location.clone();
                        (
                            Session { json, stage: Stage::SecondAssetLookup },
                            DbAction::FindAsset { name, location },
                        )
                    },
                }
            },
            Stage::SecondAssetLookup => {
                let row = match reply {
                    DbReply::Row(row) => row,
                    _ => unreached(),
                };
                match find_asset_id(&row) {
                    None => fail(
                        json,
                        TigerSharkError::DbError("Error Finding Asset Version".to_owned()),
                    ),
                    Some(id) => {
                        let mut json = json;
                        json.asset_id = id;
                        create_version(json)
                    },
                }
            },
            Stage::ReadingVersions => {
                let rows = match reply {
                    DbReply::Rows(rows) => rows,
                    _ => unreached(),
                };
                let last = match latest_version(&rows) {
                    Ok(v) => v,
                    Err(_) => 0,
                };
                let mut json = json;
                let datapath = find_replace_frame_num(json.datapath.as_str());
                json.datapath = datapath.clone();
                let row = NewVersion {
                    asset_id: json.asset_id,
                    version: last + 1,
                    source: json.source.clone(),
                    datapath,
                    depend: json.depend.clone(),
                    approved: 0,
                    status: Status::Online.code(),
                    ctime,
                    atime,
                };
                (Session { json, stage: Stage::InsertingVersion }, DbAction::InsertVersion(row))
            },
            Stage::InsertingVersion => {
                let res = match reply {
                    DbReply::Executed(res) => res,
                    _ => unreached(),
                };
                match res {
                    Ok(id) => succeed(json, decimal_i64(id)),
                    Err(e) => {
                        let text = cat4(
                            "Error creating Asset Version : ",
                            e.as_str(),
                            " ",
                            SQL_INSERT_VERSION,
                        );
                        fail(json, TigerSharkError::DbError(text))
                    },
                }
            },
            Stage::Resolving(lookup) => {
                let row = match reply {
                    DbReply::Row(row) => row,
                    _ => unreached(),
                };
                let mut json = json;
                match &row {
                    Ok(r) => {
                        json.asset_id = copy_int(&r.asset_id);
                        if json.version_id != 0 {
                            json.version = copy_int(&r.version);
                        }
                    },
                    Err(_) => {},
                }
                continue_after_lookup(lookup, json)
            },
            Stage::ReadingSource => {
                let row = match reply {
                    DbReply::Row(row) => row,
                    _ => unreached(),
                };
                match row {
                    Ok(r) => {
                        let src = copy_text(&r.source);
                        succeed(json, cat("source : ", src.as_str()))
                    },
                    Err(e) => {
                        let text = cat4("Source not found: ", e.as_str(), " ", SQL_READ_SOURCE);
                        fail(json, TigerSharkError::NotFound(text))
                    },
                }
            },
            Stage::ReadingSourceOfFile => {
                let row = match reply {
                    DbReply::Row(row) => row,
                    _ => unreached(),
                };
                match row {
                    Ok(r) => succeed(json, copy_text(&r.source)),
                    Err(e) => {
                        let text = cat4(
                            "Source not found: ",
                            e.as_str(),
                            " ",
                            SQL_READ_SOURCE_OF_DATAPATH,
                        );
                        fail(json, TigerSharkError::NotFound(text))
                    },
                }
            },
            Stage::MarkingForPurge => {
                let res = match reply {
                    DbReply::Executed(res) => res,
                    _ => unreached(),
                };
                match res {
                    Ok(_) => succeed(json, "version marked for purge".to_owned()),
                    Err(e) => {
                        let text = cat("Error, could not mark asset for purge:", e.as_str());
                        fail(json, TigerSharkError::DbError(text))
                    },
                }
            },
            Stage::ReadingLatest => {
                let rows = match reply {
                    DbReply::Rows(rows) => rows,
                    _ => unreached(),
                };
                match latest_version(&rows) {
                    Ok(v) => succeed(json, decimal_i64(v)),
                    Err(e) => {
                        let shown = debug_str(e.as_str());
                        let text = cat("no version found: ", shown.as_str());
                        fail(json, TigerSharkError::NotFound(text))
                    },
                }
            },
            Stage::Approving => {
                let res = match reply {
                    DbReply::Executed(res) => res,
                    _ => unreached(),
                };
                match res {
                    Ok(_) => {
                        let asset_id = json.asset_id;
                        let version = json.version;
                        (
                            Session { json, stage: Stage::ReadingDepends },
                            DbAction::ReadDepends { asset_id, version },
                        )
                    },
                    Err(e) => {
                        let text = cat("Error, could not approve version: ", e.as_str());
                        fail(json, TigerSharkError::DbError(text))
                    },
                }
            },
            Stage::ReadingDepends => {
                let row = match reply {
                    DbReply::Row(row) => row,
                    _ => unreached(),
                };
                let depend = match &row {
                    Ok(r) => copy_text(&r.depend),
                    Err(_) => String::new(),
                };
                let version_ids = split_nonempty(depend.as_str(), ',');
                if version_ids.len() == 0 {
                    succeed(json, "Asset approved, no dependencies".to_owned())
                } else {
                    (
                        Session { json, stage: Stage::ApprovingDependencies },
                        DbAction::ApproveDependencies { version_ids },
                    )
                }
            },
            Stage::ApprovingDependencies => {
                let res = match reply {
                    DbReply::Committed(res) => res,
                    _ => unreached(),
                };
                match res {
                    Ok(_) => succeed(json, "Asset and Dependencies approved".to_owned()),
                    Err(e) => {
                        let text = cat("Error approving dependencies: ", e.as_str());
                        fail(json, TigerSharkError::DbError(text))
                    },
                }
            },
            Stage::ListingPurge => {
                let rows = match reply {
                    DbReply::Rows(rows) => rows,
                    _ => unreached(),
                };
                match rows {
                    Ok(rs) => {
                        let listing = purge_text(&rs);
                        succeed(json, debug_str(listing.as_str()))
                    },
                    Err(e) => {
                        let text = cat("Cannot access versions to purge ", e.as_str());
                        fail(json, TigerSharkError::NotFound(text))
                    },
                }
            },
            Stage::Finished => unreached(),
        }
    }
}

impl DbAction {
    /// The query that the action sends; empty for `Finish`.
    pub fn sql(&self) -> (q: &'static str)
        ensures
            q@ == action_sql(self@),
    {
        match self {
            DbAction::FindAsset { .. } => SQL_FIND_ASSET,
            DbAction::CreateAsset { .. } => SQL_CREATE_ASSET,
            DbAction::ReadVersions { .. } => SQL_READ_VERSIONS,
            DbAction::InsertVersion(_) => SQL_INSERT_VERSION,
            DbAction::FindAssetId { .. } => SQL_FIND_ASSET_ID,
            DbAction::FindVersion { .. } => SQL_FIND_VERSION,
            DbAction::ReadSource { .. } => SQL_READ_SOURCE,
            DbAction::ReadSourceOfDatapath { .. } => SQL_READ_SOURCE_OF_DATAPATH,
            DbAction::SetStatus { .. } => SQL_SET_STATUS,
            DbAction::Approve { .. } => SQL_APPROVE,
            DbAction::ReadDepends { .. } => SQL_READ_DEPENDS,
            DbAction::ApproveDependencies { .. } => SQL_APPROVE_DEPENDENCY,
            DbAction::ListWithStatus { .. } => SQL_LIST_WITH_STATUS,
            DbAction::Finish(_) => "",
        }
    }
}

/// The query that each action sends.
pub open spec fn action_sql(a: ActionView) -> Seq<char> {
    match a {
        ActionView::FindAsset { .. } => SQL_FIND_ASSET@,
        ActionView::CreateAsset { .. } => SQL_CREATE_ASSET@,
        ActionView::ReadVersions { .. } => SQL_READ_VERSIONS@,
        ActionView::InsertVersion(_) => SQL_INSERT_VERSION@,
        ActionView::FindAssetId { .. } => SQL_FIND_ASSET_ID@,
        ActionView::FindVersion { .. } => SQL_FIND_VERSION@,
        ActionView::ReadSource { .. } => SQL_READ_SOURCE@,
        ActionView::ReadSourceOfDatapath { .. } => SQL_READ_SOURCE_OF_DATAPATH@,
        ActionView::SetStatus { .. } => SQL_SET_STATUS@,
        ActionView::Approve { .. } => SQL_APPROVE@,
        ActionView::ReadDepends { .. } => SQL_READ_DEPENDS@,
        ActionView::ApproveDependencies { .. } => SQL_APPROVE_DEPENDENCY@,
        ActionView::ListWithStatus { .. } => SQL_LIST_WITH_STATUS@,
        ActionView::Finish(_) => ""@,
    }
}

// ---------------------------------------------------------------------------
// Laws
// ---------------------------------------------------------------------------
/// How many answers a session in this stage waits for at most.
pub open spec fn stage_rank(stage: Stage) -> nat {
    match stage {
        Stage::FirstAssetLookup => 5,
        Stage::CreatingAsset => 4,
        Stage::SecondAssetLookup => 3,
        Stage::ReadingVersions => 2,
        Stage::InsertingVersion => 1,
        Stage::Resolving(_) => 4,
        Stage::Approving => 3,
        Stage::ReadingDepends => 2,
        Stage::ApprovingDependencies => 1,
        Stage::ReadingSource => 1,
        Stage::ReadingSourceOfFile => 1,
        Stage::MarkingForPurge => 1,
        Stage::ReadingLatest => 1,
        Stage::ListingPurge => 1,
        Stage::Finished => 0,
    }
}

/// A session has its outcome exactly when it is finished.
pub open spec fn outcome_iff_finished(p: (SessionView, ActionView)) -> bool {
    (p.1 is Finish) <==> p.0.stage == Stage::Finished
}

proof fn lemma_seq_max_is_greatest(vs: Seq<i64>)
    requires
        vs.len() > 0,
    ensures
        forall|k: int| 0 <= k < vs.len() ==> vs[k] <= seq_max(vs),
    decreases vs.len(),
{
    if vs.len() > 1 {
        lemma_seq_max_is_greatest(vs.drop_last());
        assert forall|k: int| 0 <= k < vs.len() implies vs[k] <= seq_max(vs) by {
            if k < vs.len() - 1 {
                assert(vs[k] == vs.drop_last()[k]);
            }
        }
    }
}

/// The latest version of an asset with versions is one of its versions, and
/// no version is greater.
pub proof fn lemma_latest_is_greatest_version(vs: Seq<i64>)
    requires
        vs.len() > 0,
    ensures
        exists|k: int| 0 <= k < vs.len() && vs[k] == latest_of(vs),
        forall|k: int| 0 <= k < vs.len() ==> vs[k] <= latest_of(vs),
    decreases vs.len(),
{
    lemma_seq_max_is_greatest(vs);
    if vs.len() > 1 {
        lemma_latest_is_greatest_version(vs.drop_last());
        if seq_max(vs.drop_last()) >= vs.last() {
            let k = choose|k: int| 0 <= k < vs.drop_last().len() && vs.drop_last()[k] == latest_of(
                vs.drop_last(),
            );
            assert(vs[k] == latest_of(vs));
        } else {
            assert(vs[vs.len() - 1] == latest_of(vs));
        }
    } else {
        assert(vs[0] == latest_of(vs));
    }
}

/// Where the latest version that the database shows is `k`, the new version
/// is `k + 1`: versions 1 to k are followed by version k + 1.
pub proof fn lemma_new_version_follows_latest(
    s: SessionView,
    rows: Seq<SqlRow>,
    k: i64,
    ctime: Seq<char>,
    atime: Seq<char>,
)
    requires
        s.stage == Stage::ReadingVersions,
        accepts(s, ReplyView::Rows(Ok(rows))),
        exists|i: int| 0 <= i < rows.len() && int_or_zero(#[trigger] rows[i].version) == k,
        forall|i: int| 0 <= i < rows.len() ==> int_or_zero(#[trigger] rows[i].version) <= k,
    ensures
        next_step(s, ReplyView::Rows(Ok(rows)), ctime, atime).1 matches ActionView::InsertVersion(
            v,
        ) && v.version == k + 1,
{
    let vs = versions_of(rows);
    let i = choose|i: int| 0 <= i < rows.len() && int_or_zero(#[trigger] rows[i].version) == k;
    assert(vs[i] == k);
    lemma_latest_is_greatest_version(vs);
    let j = choose|j: int| 0 <= j < vs.len() && vs[j] == latest_of(vs);
    assert(vs[j] == int_or_zero(rows[j].version));
}

/// The status with which delete marks a version is the status whose
/// versions purge lists.
pub proof fn lemma_delete_marks_what_purge_lists(
    s: SessionView,
    r: ReplyView,
    lookup: Lookup,
    json: AssetJsonView,
    ctime: Seq<char>,
    atime: Seq<char>,
)
    requires
        accepts(s, r),
    ensures
        next_step(s, r, ctime, atime).1 matches ActionView::SetStatus { status, .. }
            ==> purge_start().1 == (ActionView::ListWithStatus { status }),
        lookup_start(lookup, json).1 matches ActionView::SetStatus { status, .. }
            ==> purge_start().1 == (ActionView::ListWithStatus { status }),
{
}

/// A new version records its source and its data path with the frame numbers
/// masked, and source_from_file looks a path up with its frame numbers
/// masked: any frame of the same sequence asks for the data path that was
/// recorded, and where the database answers with the row recorded, the
/// outcome is the recorded source.
pub proof fn lemma_any_frame_finds_recorded_source(
    s: SessionView,
    rows: Result<Seq<SqlRow>, Seq<char>>,
    q: Seq<char>,
    found: SqlRow,
    ctime: Seq<char>,
    atime: Seq<char>,
)
    requires
        s.stage == Stage::ReadingVersions,
        mask_frame_numbers(q) == mask_frame_numbers(s.json.datapath),
    ensures
        next_step(s, ReplyView::Rows(rows), ctime, atime).1 matches ActionView::InsertVersion(v)
            && v.source == s.json.source && source_from_file_start(q).1
            == (ActionView::ReadSourceOfDatapath { datapath: v.datapath }) && (text_or_empty(
            found.source,
        ) == v.source ==> next_step(
            source_from_file_start(q).0,
            ReplyView::Row(Ok(found)),
            ctime,
            atime,
        ).1 == ActionView::Finish(Ok(v.source))),
{
}

/// insert with an asset id goes straight to that asset's versions; without
/// one it first looks the asset up by its name and location; once the asset
/// is found, its versions are read under the id found.
pub proof fn lemma_insert_records_under_the_right_asset(
    json: AssetJsonView,
    s: SessionView,
    row: SqlRow,
    ctime: Seq<char>,
    atime: Seq<char>,
)
    ensures
        json.asset_id != 0 ==> insert_start(json).0.stage == Stage::ReadingVersions
            && insert_start(json).1 == (ActionView::ReadVersions { asset_id: json.asset_id }),
        json.asset_id == 0 ==> insert_start(json).0.stage == Stage::FirstAssetLookup
            && insert_start(json).1 == (ActionView::FindAsset {
            name: json.name,
            location: json.location,
        }),
        s.stage == Stage::SecondAssetLookup && int_or_zero(row.asset_id) != 0 ==> next_step(
            s,
            ReplyView::Row(Ok(row)),
            ctime,
            atime,
        ).1 == (ActionView::ReadVersions { asset_id: int_or_zero(row.asset_id) }) && next_step(
            s,
            ReplyView::Row(Ok(row)),
            ctime,
            atime,
        ).0.json.asset_id == int_or_zero(row.asset_id),
{
}

/// A command on one version whose asset id is given sends its query for
/// exactly the asset and version given (latest for the asset), and stops with
/// "not found" where the version is missing.
pub proof fn lemma_given_version_is_queried(lookup: Lookup, json: AssetJsonView)
    requires
        json.asset_id != 0,
    ensures
        json.version != 0 && lookup == Lookup::Source ==> lookup_start(lookup, json).1 == (
        ActionView::ReadSource { asset_id: json.asset_id, version: json.version }),
        json.version != 0 && lookup == Lookup::Delete ==> lookup_start(lookup, json).1 == (
        ActionView::SetStatus { status: 2, asset_id: json.asset_id, version: json.version }),
        json.version != 0 && lookup == Lookup::Approve ==> lookup_start(lookup, json).1 == (
        ActionView::Approve { asset_id: json.asset_id, version: json.version }),
        lookup == Lookup::Latest ==> lookup_start(lookup, json).1 == (ActionView::ReadVersions {
            asset_id: json.asset_id,
        }),
        json.version == 0 && lookup != Lookup::Latest ==> lookup_start(lookup, json).1 matches ActionView::Finish(
            Err(ErrorView::NotFound(_)),
        ),
{
}

/// Where the asset id was looked up, a command on one version works on the
/// asset id found and on the version that the user gave (a lookup by name and
/// location) or the version found (a lookup by version id).
pub proof fn lemma_looked_up_version_is_queried(
    s: SessionView,
    lookup: Lookup,
    row: SqlRow,
    ctime: Seq<char>,
    atime: Seq<char>,
)
    requires
        s.stage == Stage::Resolving(lookup),
    ensures
        ({
            let id = int_or_zero(row.asset_id);
            let version = if s.json.version_id == 0 {
                s.json.version
            } else {
                int_or_zero(row.version)
            };
            let n = next_step(s, ReplyView::Row(Ok(row)), ctime, atime);
            &&& n.0.json.asset_id == id
            &&& n.0.json.version == version
            &&& n.0.json.version_id == s.json.version_id
            &&& n.0.json.name == s.json.name && n.0.json.location == s.json.location
            &&& id != 0 && version != 0 && lookup == Lookup::Source ==> n.1 == (
            ActionView::ReadSource { asset_id: id, version: version })
            &&& id != 0 && version != 0 && lookup == Lookup::Delete ==> n.1 == (
            ActionView::SetStatus { status: 2, asset_id: id, version: version })
            &&& id != 0 && version != 0 && lookup == Lookup::Approve ==> n.1 == (
            ActionView::Approve { asset_id: id, version: version })
            &&& id != 0 && lookup == Lookup::Latest ==> n.1 == (ActionView::ReadVersions {
                asset_id: id,
            })
            &&& (id == 0 || (version == 0 && lookup != Lookup::Latest)) ==> n.1 matches ActionView::Finish(
                Err(ErrorView::NotFound(_)),
            )
        }),
{
}

/// latest prints the greatest version number of the asset's rows: no row
/// has a greater one and some row has it; with no rows it prints 0.
pub proof fn lemma_latest_prints_greatest_version(
    s: SessionView,
    rows: Seq<SqlRow>,
    ctime: Seq<char>,
    atime: Seq<char>,
)
    requires
        s.stage == Stage::ReadingLatest,
    ensures
        rows.len() == 0 ==> next_step(s, ReplyView::Rows(Ok(rows)), ctime, atime).1
            == ActionView::Finish(Ok(decimal_text(0))),
        rows.len() > 0 ==> exists|m: i64|
            #![trigger decimal_text(m as int)]
            next_step(s, ReplyView::Rows(Ok(rows)), ctime, atime).1 == ActionView::Finish(
                Ok(decimal_text(m as int)),
            ) && (forall|i: int|
                0 <= i < rows.len() ==> int_or_zero(#[trigger] rows[i].version) <= m) && (exists|
                i: int,
            |
                0 <= i < rows.len() && int_or_zero(#[trigger] rows[i].version) == m),
{
    let vs = versions_of(rows);
    if rows.len() > 0 {
        let m = latest_of(vs);
        lemma_latest_is_greatest_version(vs);
        assert forall|i: int| 0 <= i < rows.len() implies int_or_zero(#[trigger] rows[i].version)
            <= m by {
            assert(vs[i] == int_or_zero(rows[i].version));
        }
        let j = choose|j: int| 0 <= j < vs.len() && vs[j] == latest_of(vs);
        assert(vs[j] == int_or_zero(rows[j].version));
        assert(decimal_text(m as int) == decimal_text(m as int));
    }
}

/// A new version's number is greater than the number of every version of
/// the asset that the database showed.
pub proof fn lemma_new_version_exceeds_existing(
    s: SessionView,
    rows: Seq<SqlRow>,
    ctime: Seq<char>,
    atime: Seq<char>,
)
    requires
        s.stage == Stage::ReadingVersions,
        accepts(s, ReplyView::Rows(Ok(rows))),
    ensures
        next_step(s, ReplyView::Rows(Ok(rows)), ctime, atime).1 matches ActionView::InsertVersion(
            v,
        ) && forall|k: int| 0 <= k < rows.len() ==> int_or_zero(#[trigger] rows[k].version) < v.version,
{
    let vs = versions_of(rows);
    if vs.len() > 0 {
        lemma_seq_max_is_greatest(vs);
    }
    assert forall|k: int| 0 <= k < rows.len() implies int_or_zero(#[trigger] rows[k].version)
        <= latest_of(vs) by {
        assert(vs[k] == int_or_zero(rows[k].version));
    }
}

/// Every command starts either with its outcome or with a query, and then
/// waits for at most five answers of the database.
pub proof fn lemma_commands_start_bounded(json: AssetJsonView, lookup: Lookup, file: Seq<char>)
    ensures
        outcome_iff_finished(insert_start(json)),
        stage_rank(insert_start(json).0.stage) <= 5,
        outcome_iff_finished(version_start(json)),
        stage_rank(version_start(json).0.stage) <= 5,
        outcome_iff_finished(lookup_start(lookup, json)),
        stage_rank(lookup_start(lookup, json).0.stage) <= 5,
        outcome_iff_finished(source_from_file_start(file)),
        stage_rank(source_from_file_start(file).0.stage) <= 5,
        outcome_iff_finished(purge_start()),
        stage_rank(purge_start().0.stage) <= 5,
{
}

/// Each answer brings a session closer to its outcome, and the session has
/// its outcome exactly when it is finished: no command waits for more
/// answers than its stage's rank.
pub proof fn lemma_each_answer_progresses(
    s: SessionView,
    r: ReplyView,
    ctime: Seq<char>,
    atime: Seq<char>,
)
    requires
        accepts(s, r),
    ensures
        stage_rank(next_step(s, r, ctime, atime).0.stage) < stage_rank(s.stage),
        outcome_iff_finished(next_step(s, r, ctime, atime)),
{
}

/// The version ids that approving a version also approves are the non-empty
/// pieces of its `depend` text: none is empty, and none holds a comma.
pub proof fn lemma_dependency_ids_are_clean(depend: Seq<char>)
    ensures
        forall|i: int|
            0 <= i < dependency_ids(depend).len() ==> #[trigger] dependency_ids(depend)[i].len()
                > 0,
        forall|i: int, k: int|
            0 <= i < dependency_ids(depend).len() && 0 <= k < dependency_ids(depend)[i].len()
                ==> dependency_ids(depend)[i][k] != ',',
{
    let pieces = split_pieces(depend, ',');
    let nonempty = |p: Seq<char>| p.len() > 0;
    lemma_split_pieces_avoid_separator(depend, ',');
    let ids = dependency_ids(depend);
    assert forall|i: int| 0 <= i < ids.len() implies #[trigger] ids[i].len() > 0 by {
        pieces.lemma_filter_pred(nonempty, i);
    }
    assert forall|i: int, k: int| 0 <= i < ids.len() && 0 <= k < ids[i].len() implies ids[i][k]
        != ',' by {
        assert(ids.contains(ids[i]));
        pieces.lemma_filter_contains_rev(nonempty, ids[i]);
        let j = choose|j: int| 0 <= j < pieces.len() && pieces[j] == ids[i];
        assert(pieces[j][k] != ',');
    }
}

} // verus!
