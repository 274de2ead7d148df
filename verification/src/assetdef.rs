//! Assets, their versions, and how a database row is read into them.
use vstd::prelude::*;

verus! {

/// An asset: a name at a location, with its database id.
#[derive(Debug, Clone)]
pub struct Asset {
    pub asset_id: i64,
    pub name: String,
    pub location: String,
}

/// The life stage of a version.
#[derive(Debug, Clone, Copy, PartialEq, Eq)]
pub enum Status {
    NotSet,
    Online,
    Purge,
    Deleted,
}

/// A version of an asset: where its data and its source are, what it depends
/// on, whether it is approved, and its life stage.
#[derive(Debug, Clone)]
pub struct Version {
    pub asset_id: i64,
    pub version_id: i64,
    pub version: i64,
    pub source: String,
    pub datapath: String,
    pub depend: String,
    pub approved: u8,
    pub status: u8,
    pub ctime: String,
    pub atime: String,
}

/// The columns of one row that a query gave back, each as it was read:
/// `None` where the row has no such column or its value could not be read as
/// the type asked for.
#[derive(Debug, Clone)]
pub struct SqlRow {
    pub asset_id: Option<i64>,
    pub version: Option<i64>,
    pub name: Option<String>,
    pub location: Option<String>,
    pub source: Option<String>,
    pub datapath: Option<String>,
    pub depend: Option<String>,
    pub approved: Option<u8>,
    pub status: Option<u8>,
    pub ctime: Option<String>,
    pub atime: Option<String>,
}

/// The integer read from a column, 0 where none could be read.
pub open spec fn int_or_zero(o: Option<i64>) -> i64 {
    match o {
        Some(v) => v,
        None => 0,
    }
}

/// The byte read from a column, 0 where none could be read.
pub open spec fn byte_or_zero(o: Option<u8>) -> u8 {
    match o {
        Some(v) => v,
        None => 0,
    }
}

/// The text read from a column, empty where none could be read.
pub open spec fn text_or_empty(o: Option<String>) -> Seq<char> {
    match o {
        Some(s) => s@,
        None => Seq::empty(),
    }
}

/// The status code stored in the database for each life stage.
pub open spec fn status_code(s: Status) -> u8 {
    match s {
        Status::NotSet => 0,
        Status::Online => 1,
        Status::Purge => 2,
        Status::Deleted => 3,
    }
}

/// A copy of a column's text, or the empty text.
pub(crate) fn copy_text(o: &Option<String>) -> (s: String)
    ensures
        s@ == text_or_empty(*o),
{
    match o {
        Some(t) => t.clone(),
        None => String::new(),
    }
}

/// A column's integer, or 0.
pub(crate) fn copy_int(o: &Option<i64>) -> (v: i64)
    ensures
        v == int_or_zero(*o),
{
    match o {
        Some(v) => *v,
        None => 0,
    }
}

fn copy_byte(o: &Option<u8>) -> (v: u8)
    ensures
        v == byte_or_zero(*o),
{
    match o {
        Some(v) => *v,
        None => 0,
    }
}

impl Status {
    /// The code under which the database stores this life stage.
    pub fn code(&self) -> (c: u8)
        ensures
            c == status_code(*self),
    {
        match self {
            Status::NotSet => 0,
            Status::Online => 1,
            Status::Purge => 2,
            Status::Deleted => 3,
        }
    }
}

impl Default for Status {
    fn default() -> (s: Status)
        ensures
            s == Status::NotSet,
    {
        Status::NotSet
    }
}

impl Default for Asset {
    fn default() -> (a: Asset)
        ensures
            a.asset_id == 0,
            a.name@ == Seq::<char>::empty(),
            a.location@ == Seq::<char>::empty(),
    {
        Asset { asset_id: 0, name: String::new(), location: String::new() }
    }
}

impl Default for Version {
    fn default() -> (v: Version)
        ensures
            v.asset_id == 0,
            v.version_id == 0,
            v.version == 0,
            v.source@ == Seq::<char>::empty(),
            v.datapath@ == Seq::<char>::empty(),
            v.depend@ == Seq::<char>::empty(),
            v.approved == 0,
            v.status == 0,
            v.ctime@ == Seq::<char>::empty(),
            v.atime@ == Seq::<char>::empty(),
    {
        Version {
            asset_id: 0,
            version_id: 0,
            version: 0,
            source: String::new(),
            datapath: String::new(),
            depend: String::new(),
            approved: 0,
            status: 0,
            ctime: String::new(),
            atime: String::new(),
        }
    }
}

impl Asset {
    /// The asset of a row: each field from the column of its name, or the
    /// default where the column could not be read.
    pub fn from_row(row: &SqlRow) -> (a: Asset)
        ensures
            a.asset_id == int_or_zero(row.asset_id),
            a.name@ == text_or_empty(row.name),
            a.location@ == text_or_empty(row.location),
    {
        Asset {
            asset_id: copy_int(&row.asset_id),
            name: copy_text(&row.name),
            location: copy_text(&row.location),
        }
    }
}

impl Version {
    /// The version of a row: each field from the column of its name, or the
    /// default where the column could not be read; the version id is read
    /// from the `asset_id` column.
    pub fn from_row(row: &SqlRow) -> (v: Version)
        ensures
            v.asset_id == int_or_zero(row.asset_id),
            v.version_id == int_or_zero(row.asset_id),
            v.version == int_or_zero(row.version),
            v.source@ == text_or_empty(row.source),
            v.datapath@ == text_or_empty(row.datapath),
            v.depend@ == text_or_empty(row.depend),
            v.approved == byte_or_zero(row.approved),
            v.status == byte_or_zero(row.status),
            v.ctime@ == text_or_empty(row.ctime),
            v.atime@ == text_or_empty(row.atime),
    {
        Version {
            asset_id: copy_int(&row.asset_id),
            version_id: copy_int(&row.asset_id),
            version: copy_int(&row.version),
            source: copy_text(&row.source),
            datapath: copy_text(&row.datapath),
            depend: copy_text(&row.depend),
            approved: copy_byte(&row.approved),
            status: copy_byte(&row.status),
            ctime: copy_text(&row.ctime),
            atime: copy_text(&row.atime),
        }
    }
}

} // verus!
