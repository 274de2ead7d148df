use tigershark3::assetdef::{Asset, SqlRow, Status, Version};
use tigershark3::errors::{CliOutput, TigerSharkError};
use tigershark3::parse_args::{
    asset_json_text, bad_json_error, command_from_json, require_asset, Args, AssetJson,
    CommandType, JsonOption,
};
use tigershark3::text::{decimal_i64, split_nonempty};

fn no_keys() -> JsonOption {
    JsonOption {
        asset_id: None,
        name: None,
        location: None,
        version_id: None,
        version: None,
        source: None,
        datapath: None,
        depend: None,
        approved: None,
        status: None,
    }
}

fn empty_row() -> SqlRow {
    SqlRow {
        asset_id: None,
        version: None,
        name: None,
        location: None,
        source: None,
        datapath: None,
        depend: None,
        approved: None,
        status: None,
        ctime: None,
        atime: None,
    }
}

fn cli_error(o: CliOutput) -> String {
    match o.0 {
        Err(TigerSharkError::CliError(s)) => s,
        other => panic!("expected a CLI error, got {:?}", other),
    }
}

#[test]
fn decimal_text_of_integers() {
    assert_eq!(decimal_i64(0), "0");
    assert_eq!(decimal_i64(1234), "1234");
    assert_eq!(decimal_i64(-5), "-5");
    assert_eq!(decimal_i64(i64::MAX), i64::MAX.to_string());
    assert_eq!(decimal_i64(i64::MIN), i64::MIN.to_string());
}

#[test]
fn split_drops_empty_pieces() {
    assert_eq!(split_nonempty(",12,,7,", ','), vec!["12".to_string(), "7".to_string()]);
    assert_eq!(split_nonempty("", ','), Vec::<String>::new());
    assert_eq!(split_nonempty(",,,", ','), Vec::<String>::new());
    assert_eq!(split_nonempty("a", ','), vec!["a".to_string()]);
}

#[test]
fn error_messages() {
    assert_eq!(TigerSharkError::DbError("x".to_string()).message(), "DB Error: `x`");
    assert_eq!(TigerSharkError::FilePathError("p".to_string()).message(), "FilePath Error: `p`");
    assert_eq!(TigerSharkError::CliError("c".to_string()).message(), "CLI Error: `c`");
    assert_eq!(TigerSharkError::NotFound("n".to_string()).message(), "Not Found: `n`");
    assert_eq!(
        TigerSharkError::AssetKeysError("insert".to_string(), "k".to_string()).message(),
        "Some Asset keys missing for command `insert`: `k`"
    );
    assert_eq!(TigerSharkError::Unknown.message(), "unknown error");
}

#[test]
fn exit_codes() {
    assert_eq!(CliOutput(Ok("done".to_string())).exit_code(), 0);
    assert_eq!(CliOutput(Err(TigerSharkError::Unknown)).exit_code(), 101);
}

#[test]
fn status_codes() {
    assert_eq!(Status::NotSet.code(), 0);
    assert_eq!(Status::Online.code(), 1);
    assert_eq!(Status::Purge.code(), 2);
    assert_eq!(Status::Deleted.code(), 3);
    assert_eq!(Status::default(), Status::NotSet);
}

#[test]
fn rows_read_with_defaults() {
    let mut row = empty_row();
    row.asset_id = Some(9);
    row.version = Some(4);
    row.datapath = Some("/d".to_string());
    let a = Asset::from_row(&row);
    assert_eq!((a.asset_id, a.name.as_str(), a.location.as_str()), (9, "", ""));
    let v = Version::from_row(&row);
    assert_eq!(v.asset_id, 9);
    assert_eq!(v.version_id, 9);
    assert_eq!(v.version, 4);
    assert_eq!(v.datapath, "/d");
    assert_eq!(v.source, "");
    assert_eq!(v.approved, 0);
    let d = Version::default();
    assert_eq!((d.version, d.source.as_str()), (0, ""));
    assert_eq!(Asset::default().asset_id, 0);
}

#[test]
fn asset_is_required_but_for_purge() {
    let args = Args { command: CommandType::Insert, asset: None, extra_args: None };
    let e = require_asset(&args).unwrap_err();
    assert_eq!(cli_error(e), "Requires Asset for function: Insert");
    let args = Args { command: CommandType::Purge, asset: None, extra_args: None };
    assert!(require_asset(&args).is_ok());
    let args = Args { command: CommandType::Latest, asset: Some("{}".to_string()), extra_args: None };
    assert!(require_asset(&args).is_ok());
}

#[test]
fn asset_text_defaults_to_empty_object() {
    assert_eq!(asset_json_text(None), "{}");
    assert_eq!(asset_json_text(Some("{\"a\":1}".to_string())), "{\"a\":1}");
    assert_eq!(cli_error(bad_json_error("{", "EOF")), "Bad Json format: { : EOF");
}

#[test]
fn json_option_fills_defaults() {
    let mut j = no_keys();
    j.name = Some("n".to_string());
    j.version = Some(3);
    let a = AssetJson::from_json_option(j);
    assert_eq!(a.name, "n");
    assert_eq!(a.version, 3);
    assert_eq!(a.asset_id, 0);
    assert_eq!(a.location, "");
    assert_eq!(AssetJson::default().asset_id, 0);
}

#[test]
fn insert_needs_name_and_location_or_asset_id_datapath_source() {
    let mut j = no_keys();
    j.name = Some("my_asset".to_string());
    j.location = Some("myasset_location".to_string());
    let c = command_from_json(CommandType::Insert, j).unwrap();
    assert_eq!(c.command, CommandType::Insert);
    let a = c.json.unwrap();
    assert_eq!((a.name.as_str(), a.location.as_str(), a.datapath.as_str()), ("my_asset", "myasset_location", ""));
    assert!(c.extra_args.is_none());

    let mut j = no_keys();
    j.asset_id = Some(3);
    j.datapath = Some("/d".to_string());
    j.source = Some("/s".to_string());
    assert!(command_from_json(CommandType::Insert, j).is_ok());

    let mut j = no_keys();
    j.asset_id = Some(3);
    j.datapath = Some("/d".to_string());
    match command_from_json(CommandType::Insert, j) {
        Err(CliOutput(Err(TigerSharkError::AssetKeysError(c, shown)))) => {
            assert_eq!(c, "insert");
            assert_eq!(
                shown,
                "AssetJson { asset_id: 3, name: \"\", location: \"\", version_id: 0, version: 0, source: \"\", datapath: \"/d\", depend: \"\", approved: 0, status: 0 }"
            );
        }
        other => panic!("unexpected {:?}", other),
    }

    let mut j = no_keys();
    j.name = Some("n".to_string());
    j.datapath = Some("/d".to_string());
    j.source = Some("/s".to_string());
    assert!(command_from_json(CommandType::Insert, j).is_err());
}

#[test]
fn source_needs_a_version() {
    let mut j = no_keys();
    j.version_id = Some(5);
    assert!(command_from_json(CommandType::Source, j).is_ok());
    let mut j = no_keys();
    j.asset_id = Some(5);
    j.version = Some(1);
    assert!(command_from_json(CommandType::Source, j).is_ok());
    let mut j = no_keys();
    j.name = Some("n".to_string());
    j.location = Some("l".to_string());
    j.version = Some(1);
    assert!(command_from_json(CommandType::Source, j).is_ok());
    let mut j = no_keys();
    j.name = Some("n".to_string());
    j.location = Some("l".to_string());
    match command_from_json(CommandType::Source, j) {
        Err(CliOutput(Err(TigerSharkError::AssetKeysError(c, _)))) => assert_eq!(c, "source"),
        other => panic!("unexpected {:?}", other),
    }
    let mut j = no_keys();
    j.asset_id = Some(5);
    assert!(command_from_json(CommandType::Source, j).is_err());
}

#[test]
fn delete_and_approve_accept_name_and_location() {
    for (cmd, name) in [(CommandType::Delete, "delete"), (CommandType::Approve, "approve")] {
        let mut j = no_keys();
        j.name = Some("n".to_string());
        j.location = Some("l".to_string());
        assert!(command_from_json(cmd, j).is_ok());
        let mut j = no_keys();
        j.version_id = Some(5);
        assert!(command_from_json(cmd, j).is_ok());
        let mut j = no_keys();
        j.asset_id = Some(5);
        j.version = Some(1);
        assert!(command_from_json(cmd, j).is_ok());
        let mut j = no_keys();
        j.asset_id = Some(5);
        match command_from_json(cmd, j) {
            Err(CliOutput(Err(TigerSharkError::AssetKeysError(c, _)))) => assert_eq!(c, name),
            other => panic!("unexpected {:?}", other),
        }
    }
}

#[test]
fn latest_and_purge_keys() {
    let mut j = no_keys();
    j.asset_id = Some(1);
    assert!(command_from_json(CommandType::Latest, j).is_ok());
    let mut j = no_keys();
    j.name = Some("n".to_string());
    assert!(command_from_json(CommandType::Latest, j).is_err());
    let c = command_from_json(CommandType::Purge, no_keys()).unwrap();
    assert!(c.json.is_none());
    assert_eq!(CommandType::Purge.debug_name(), "Purge");
    assert_eq!(CommandType::Approve.key_name(), "approve");
}
