//! The commands, their arguments, and the JSON keys that each command needs.
use vstd::prelude::*;

use crate::assetdef::{byte_or_zero, int_or_zero, text_or_empty};
use crate::errors::{CliOutput, ErrorView, TigerSharkError};
use crate::text::{debug_str, debug_text, decimal_i64, decimal_text};

verus! {

/// The commands of the program.
#[derive(Clone, Copy, Debug, PartialEq, Eq)]
pub enum CommandType {
    Insert,
    Source,
    Delete,
    Latest,
    Approve,
    Purge,
}

/// A command ready to run, with the asset it works on.
#[derive(Debug)]
pub struct Command {
    pub command: CommandType,
    pub json: Option<AssetJson>,
    pub extra_args: Option<String>,
}

/// The arguments of the command line: the command, the asset as JSON text,
/// and extra arguments.
#[derive(Debug)]
pub struct Args {
    pub command: CommandType,
    pub asset: Option<String>,
    pub extra_args: Option<String>,
}

/// The asset as the JSON text gave it: each key present or missing.
#[derive(Debug)]
pub struct JsonOption {
    pub asset_id: Option<i64>,
    pub name: Option<String>,
    pub location: Option<String>,
    pub version_id: Option<i64>,
    pub version: Option<i64>,
    pub source: Option<String>,
    pub datapath: Option<String>,
    pub depend: Option<String>,
    pub approved: Option<u8>,
    pub status: Option<u8>,
}

/// The asset that a command works on; a missing key reads as 0 or empty.
#[derive(Debug, Clone)]
pub struct AssetJson {
    pub asset_id: i64,
    pub name: String,
    pub location: String,
    pub version_id: i64,
    pub version: i64,
    pub source: String,
    pub datapath: String,
    pub depend: String,
    pub approved: u8,
    pub status: u8,
}

/// An `AssetJson` with its texts taken as character sequences.
pub struct AssetJsonView {
    pub asset_id: i64,
    pub name: Seq<char>,
    pub location: Seq<char>,
    pub version_id: i64,
    pub version: i64,
    pub source: Seq<char>,
    pub datapath: Seq<char>,
    pub depend: Seq<char>,
    pub approved: u8,
    pub status: u8,
}

impl View for AssetJson {
    type V = AssetJsonView;

    open spec fn view(&self) -> AssetJsonView {
        AssetJsonView {
            asset_id: self.asset_id,
            name: self.name@,
            location: self.location@,
            version_id: self.version_id,
            version: self.version,
            source: self.source@,
            datapath: self.datapath@,
            depend: self.depend@,
            approved: self.approved,
            status: self.status,
        }
    }
}

/// The asset of a JSON text: each key's value, or 0 or empty where it is missing.
pub open spec fn asset_of(j: JsonOption) -> AssetJsonView {
    AssetJsonView {
        asset_id: int_or_zero(j.asset_id),
        name: text_or_empty(j.name),
        location: text_or_empty(j.location),
        version_id: int_or_zero(j.version_id),
        version: int_or_zero(j.version),
        source: text_or_empty(j.source),
        datapath: text_or_empty(j.datapath),
        depend: text_or_empty(j.depend),
        approved: byte_or_zero(j.approved),
        status: byte_or_zero(j.status),
    }
}

/// The keys that each command needs:
/// - insert: name and location, or asset_id and datapath and source;
/// - source: name and location and version, or asset_id and version, or version_id;
/// - delete, approve: name and location, or asset_id and version, or version_id;
/// - latest: name and location, or asset_id;
/// - purge: none.
pub open spec fn has_required_keys(command: CommandType, j: JsonOption) -> bool {
    let named = j.name is Some && j.location is Some;
    match command {
        CommandType::Insert => named || (j.asset_id is Some && j.datapath is Some
            && j.source is Some),
        CommandType::Source => (named && j.version is Some) || (j.asset_id is Some
            && j.version is Some) || j.version_id is Some,
        CommandType::Delete => named || (j.asset_id is Some && j.version is Some)
            || j.version_id is Some,
        CommandType::Approve => named || (j.asset_id is Some && j.version is Some)
            || j.version_id is Some,
        CommandType::Latest => named || j.asset_id is Some,
        CommandType::Purge => true,
    }
}

/// The keys that each command needs are those of the README's table: the
/// name and location of an asset always identify it for insert, delete,
/// approve and latest; source needs a version besides; an asset id needs
/// a version for the commands on one version, and a data path and source for
/// insert; a version id alone is enough for the commands on one version.
pub proof fn lemma_required_keys_follow_table(j: JsonOption)
    ensures
        (j.name is Some && j.location is Some) ==> has_required_keys(CommandType::Insert, j)
            && has_required_keys(CommandType::Delete, j) && has_required_keys(
            CommandType::Approve,
            j,
        ) && has_required_keys(CommandType::Latest, j),
        (j.name is Some && j.location is Some && j.version is Some) ==> has_required_keys(
            CommandType::Source,
            j,
        ),
        j.asset_id is Some ==> has_required_keys(CommandType::Latest, j),
        (j.asset_id is Some && j.version is Some) ==> has_required_keys(CommandType::Source, j)
            && has_required_keys(CommandType::Delete, j) && has_required_keys(
            CommandType::Approve,
            j,
        ),
        (j.asset_id is Some && j.datapath is Some && j.source is Some) ==> has_required_keys(
            CommandType::Insert,
            j,
        ),
        j.version_id is Some ==> has_required_keys(CommandType::Source, j) && has_required_keys(
            CommandType::Delete,
            j,
        ) && has_required_keys(CommandType::Approve, j),
        has_required_keys(CommandType::Purge, j),
        (j.name is None || j.location is None) && j.asset_id is None ==> !has_required_keys(
            CommandType::Latest,
            j,
        ) && !has_required_keys(CommandType::Insert, j),
        (j.name is None || j.location is None || j.version is None) && (j.asset_id is None
            || j.version is None) && j.version_id is None ==> !has_required_keys(
            CommandType::Source,
            j,
        ),
        (j.name is None || j.location is None) && (j.asset_id is None || j.version is None)
            && j.version_id is None ==> !has_required_keys(CommandType::Delete, j)
            && !has_required_keys(CommandType::Approve, j),
        (j.name is None || j.location is None) && (j.asset_id is None || j.datapath is None
            || j.source is None) ==> !has_required_keys(CommandType::Insert, j),
{
}

/// How `{:?}` writes a command: its variant's name.
pub open spec fn command_debug_name(c: CommandType) -> Seq<char> {
    match c {
        CommandType::Insert => "Insert"@,
        CommandType::Source => "Source"@,
        CommandType::Delete => "Delete"@,
        CommandType::Latest => "Latest"@,
        CommandType::Approve => "Approve"@,
        CommandType::Purge => "Purge"@,
    }
}

/// The name under which an error about missing keys names a command.
pub open spec fn command_key_name(c: CommandType) -> Seq<char> {
    match c {
        CommandType::Insert => "insert"@,
        CommandType::Source => "source"@,
        CommandType::Delete => "delete"@,
        CommandType::Latest => "latest"@,
        CommandType::Approve => "approve"@,
        CommandType::Purge => "purge"@,
    }
}

/// The text that `{:?}` writes for an asset, in the layout of a derived
/// `Debug`: the type's name, then each field's name and `{:?}` text.
pub open spec fn asset_debug_text(a: AssetJsonView) -> Seq<char> {
    "AssetJson { asset_id: "@ + decimal_text(a.asset_id as int) + ", name: "@ + debug_text(a.name)
        + ", location: "@ + debug_text(a.location) + ", version_id: "@ + decimal_text(
        a.version_id as int,
    ) + ", version: "@ + decimal_text(a.version as int) + ", source: "@ + debug_text(a.source)
        + ", datapath: "@ + debug_text(a.datapath) + ", depend: "@ + debug_text(a.depend)
        + ", approved: "@ + decimal_text(a.approved as int) + ", status: "@ + decimal_text(
        a.status as int,
    ) + " }"@
}

/// The text that `{:?}` writes for the asset `a`.
pub fn asset_debug(a: &AssetJson) -> (text: String)
    ensures
        text@ == asset_debug_text(a@),
{
    let mut t = "AssetJson { asset_id: ".to_owned();
    t.append(decimal_i64(a.asset_id).as_str());
    t.append(", name: ");
    t.append(debug_str(a.name.as_str()).as_str());
    t.append(", location: ");
    t.append(debug_str(a.location.as_str()).as_str());
    t.append(", version_id: ");
    t.append(decimal_i64(a.version_id).as_str());
    t.append(", version: ");
    t.append(decimal_i64(a.version).as_str());
    t.append(", source: ");
    t.append(debug_str(a.source.as_str()).as_str());
    t.append(", datapath: ");
    t.append(debug_str(a.datapath.as_str()).as_str());
    t.append(", depend: ");
    t.append(debug_str(a.depend.as_str()).as_str());
    t.append(", approved: ");
    t.append(decimal_i64(a.approved as i64).as_str());
    t.append(", status: ");
    t.append(decimal_i64(a.status as i64).as_str());
    t.append(" }");
    t
}

/// The outcome of an error.
pub open spec fn failure(e: ErrorView) -> Result<Seq<char>, ErrorView> {
    Err(e)
}

impl CommandType {
    /// How `{:?}` writes the command: `Insert`, `Source`, ...
    pub fn debug_name(&self) -> (name: &'static str)
        ensures
            name@ == command_debug_name(*self),
    {
        match self {
            CommandType::Insert => "Insert",
            CommandType::Source => "Source",
            CommandType::Delete => "Delete",
            CommandType::Latest => "Latest",
            CommandType::Approve => "Approve",
            CommandType::Purge => "Purge",
        }
    }

    /// The name under which an error about missing keys names the command:
    /// `insert`, `source`, ...
    pub fn key_name(&self) -> (name: &'static str)
        ensures
            name@ == command_key_name(*self),
    {
        match self {
            CommandType::Insert => "insert",
            CommandType::Source => "source",
            CommandType::Delete => "delete",
            CommandType::Latest => "latest",
            CommandType::Approve => "approve",
            CommandType::Purge => "purge",
        }
    }
}

/// A copy of an optional text, or the empty text.
fn text_of(o: Option<String>) -> (s: String)
    ensures
        s@ == text_or_empty(o),
{
    match o {
        Some(t) => t,
        None => String::new(),
    }
}

impl Default for AssetJson {
    fn default() -> (a: AssetJson)
        ensures
            a@ == (AssetJsonView {
                asset_id: 0,
                name: Seq::empty(),
                location: Seq::empty(),
                version_id: 0,
                version: 0,
                source: Seq::empty(),
                datapath: Seq::empty(),
                depend: Seq::empty(),
                approved: 0,
                status: 0,
            }),
    {
        AssetJson {
            asset_id: 0,
            name: String::new(),
            location: String::new(),
            version_id: 0,
            version: 0,
            source: String::new(),
            datapath: String::new(),
            depend: String::new(),
            approved: 0,
            status: 0,
        }
    }
}

impl AssetJson {
    /// The asset of a JSON text: each missing key reads as 0 or empty.
    pub fn from_json_option(j: JsonOption) -> (a: AssetJson)
        ensures
            a@ == asset_of(j),
    {
        AssetJson {
            asset_id: match j.asset_id {
                Some(v) => v,
                None => 0,
            },
            name: text_of(j.name),
            location: text_of(j.location),
            version_id: match j.version_id {
                Some(v) => v,
                None => 0,
            },
            version: match j.version {
                Some(v) => v,
                None => 0,
            },
            source: text_of(j.source),
            datapath: text_of(j.datapath),
            depend: text_of(j.depend),
            approved: match j.approved {
                Some(v) => v,
                None => 0,
            },
            status: match j.status {
                Some(v) => v,
                None => 0,
            },
        }
    }
}

/// Every command but purge needs an asset: without one the arguments are
/// refused with "Requires Asset for function: " and the command's name.
pub fn require_asset(args: &Args) -> (res: Result<(), CliOutput>)
    ensures
        res is Ok <==> (args.command is Purge || args.asset is Some),
        res matches Err(o) ==> o@ == failure(
            ErrorView::CliError("Requires Asset for function: "@ + command_debug_name(args.command)),
        ),
{
    match args.command {
        CommandType::Purge => Ok(()),
        _ => {
            if args.asset.is_none() {
                let mut text = "Requires Asset for function: ".to_owned();
                text.append(args.command.debug_name());
                Err(CliOutput(Err(TigerSharkError::CliError(text))))
            } else {
                Ok(())
            }
        },
    }
}

/// The JSON text of the asset argument, `{}` where there is none.
pub fn asset_json_text(asset: Option<String>) -> (text: String)
    ensures
        text@ == match asset {
            Some(s) => s@,
            None => "{}"@,
        },
{
    match asset {
        Some(s) => s,
        None => "{}".to_owned(),
    }
}

/// The refusal of an asset argument that is no valid JSON:
/// "Bad Json format: " and the text, " : " and the decoder's error.
pub fn bad_json_error(asset_text: &str, error_text: &str) -> (o: CliOutput)
    ensures
        o@ == failure(
            ErrorView::CliError("Bad Json format: "@ + asset_text@ + " : "@ + error_text@),
        ),
{
    let mut text = "Bad Json format: ".to_owned();
    text.append(asset_text);
    text.append(" : ");
    text.append(error_text);
    CliOutput(Err(TigerSharkError::CliError(text)))
}

/// Checks that the asset holds the keys that the command needs. With them,
/// the command is ready to run on the asset (purge runs on none); without
/// them it is refused with an `AssetKeysError` that names the command and
/// shows the asset.
pub fn command_from_json(command: CommandType, json: JsonOption) -> (res: Result<
    Command,
    CliOutput,
>)
    ensures
        res is Ok <==> has_required_keys(command, json),
        command is Latest ==> (res is Ok <==> (json.name is Some && json.location is Some)
            || json.asset_id is Some),
        command is Insert ==> (res is Ok <==> (json.name is Some && json.location is Some) || (
        json.asset_id is Some && json.datapath is Some && json.source is Some)),
        command is Source ==> (res is Ok <==> (json.name is Some && json.location is Some
            && json.version is Some) || (json.asset_id is Some && json.version is Some)
            || json.version_id is Some),
        (command is Delete || command is Approve) ==> (res is Ok <==> (json.name is Some
            && json.location is Some) || (json.asset_id is Some && json.version is Some)
            || json.version_id is Some),
        command is Purge ==> res is Ok,
        res matches Ok(c) ==> {
            &&& c.command == command
            &&& c.extra_args is None
            &&& command is Purge ==> c.json is None
            &&& !(command is Purge) ==> (c.json matches Some(a) && a@ == asset_of(json))
        },
        res matches Err(o) ==> o@ == failure(
            ErrorView::AssetKeysError(
                command_key_name(command),
                asset_debug_text(asset_of(json)),
            ),
        ),
{
    let a_name = json.name.is_some();
    let a_location = json.location.is_some();
    let a_asset_id = json.asset_id.is_some();
    let a_version = json.version.is_some();
    let a_version_id = json.version_id.is_some();
    let a_datapath = json.datapath.is_some();
    let a_source = json.source.is_some();
    let ghost j = json;
    let asset = AssetJson::from_json_option(json);
    let named = a_name && a_location;
    let present = match command {
        CommandType::Insert => named || (a_asset_id && a_datapath && a_source),
        CommandType::Source => (named && a_version) || (a_asset_id && a_version) || a_version_id,
        CommandType::Delete | CommandType::Approve => named || (a_asset_id && a_version)
            || a_version_id,
        CommandType::Latest => named || a_asset_id,
        CommandType::Purge => true,
    };
    assert(present == has_required_keys(command, j));
    if !present {
        let shown = asset_debug(&asset);
        let name = command.key_name().to_owned();
        return Err(CliOutput(Err(TigerSharkError::AssetKeysError(name, shown))));
    }
    match command {
        CommandType::Purge => Ok(Command { command, json: None, extra_args: None }),
        _ => Ok(Command { command, json: Some(asset), extra_args: None }),
    }
}

} // verus!
