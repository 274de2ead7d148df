use tigershark3::assetdef::SqlRow;
use tigershark3::errors::TigerSharkError;
use tigershark3::parse_args::AssetJson;
use tigershark3::utils::{
    approve, create_version, delete, find_asset_id, insert, latest, latest_version, purge, source,
    source_from_file, DbAction, DbReply, Session, Stage, SQL_INSERT_VERSION, SQL_READ_SOURCE,
    SQL_READ_SOURCE_OF_DATAPATH, SQL_SET_STATUS,
};

fn row() -> SqlRow {
    SqlRow {
        asset_id: None,
        version: None,
        name: None,
        location: None,
        source: None,
        datapath: None,
        depend: None,
        approved: None,
        status: None,
        ctime: None,
        atime: None,
    }
}

fn row_with_version(v: i64) -> SqlRow {
    let mut r = row();
    r.version = Some(v);
    r
}

fn step(s: Session, reply: DbReply) -> (Session, DbAction) {
    assert!(s.accepts_reply(&reply));
    s.resume(reply)
}

fn outcome(a: DbAction) -> Result<String, TigerSharkError> {
    match a {
        DbAction::Finish(o) => o.0,
        other => panic!("expected an outcome, got {:?}", other),
    }
}

fn named_asset() -> AssetJson {
    let mut j = AssetJson::default();
    j.name = "chair".to_string();
    j.location = "props".to_string();
    j.source = "/src/chair.hip".to_string();
    j.datapath = "/data/chair.0101.bgeo".to_string();
    j.depend = "3,,4".to_string();
    j
}

#[test]
fn insert_creates_missing_asset_then_version() {
    let (s, a) = insert(named_asset());
    assert_eq!(s.stage, Stage::FirstAssetLookup);
    assert!(matches!(a, DbAction::FindAsset { ref name, ref location } if name == "chair" && location == "props"));
    let (s, a) = step(s, DbReply::Row(Err("RowNotFound".to_string())));
    assert!(matches!(a, DbAction::CreateAsset { .. }));
    let (s, a) = step(s, DbReply::Executed(Ok(1)));
    assert!(matches!(a, DbAction::FindAsset { .. }));
    let mut found = row();
    found.asset_id = Some(7);
    let (s, a) = step(s, DbReply::Row(Ok(found)));
    assert!(matches!(a, DbAction::ReadVersions { asset_id: 7 }));
    let (s, a) = step(s, DbReply::Rows(Ok(vec![row_with_version(1), row_with_version(3), row_with_version(2)])));
    match &a {
        DbAction::InsertVersion(v) => {
            assert_eq!(v.asset_id, 7);
            assert_eq!(v.version, 4);
            assert_eq!(v.datapath, "/data/chair.####.bgeo");
            assert_eq!(v.source, "/src/chair.hip");
            assert_eq!(v.depend, "3,,4");
            assert_eq!(v.approved, 0);
            assert_eq!(v.status, 1);
            assert_eq!(v.ctime.len(), 19);
        }
        other => panic!("unexpected {:?}", other),
    }
    assert_eq!(a.sql(), SQL_INSERT_VERSION);
    let (s, a) = step(s, DbReply::Executed(Ok(12)));
    assert_eq!(s.stage, Stage::Finished);
    assert_eq!(outcome(a).unwrap(), "12");
}

#[test]
fn insert_reports_creation_failure() {
    let (s, _) = insert(named_asset());
    let (s, _) = step(s, DbReply::Row(Ok(row())));
    let (_, a) = step(s, DbReply::Executed(Err("disk full".to_string())));
    match outcome(a) {
        Err(TigerSharkError::DbError(m)) => assert_eq!(m, "Error Creating Asset Err(\"disk full\")"),
        other => panic!("unexpected {:?}", other),
    }
}

#[test]
fn insert_reports_asset_not_found_after_creation() {
    let (s, _) = insert(named_asset());
    let (s, _) = step(s, DbReply::Row(Ok(row())));
    let (s, _) = step(s, DbReply::Executed(Ok(1)));
    let (_, a) = step(s, DbReply::Row(Err("RowNotFound".to_string())));
    match outcome(a) {
        Err(TigerSharkError::DbError(m)) => assert_eq!(m, "Error Finding Asset Version"),
        other => panic!("unexpected {:?}", other),
    }
}

#[test]
fn first_version_is_one_and_insert_error_names_query() {
    let mut j = named_asset();
    j.asset_id = 5;
    let (s, a) = create_version(j);
    assert!(matches!(a, DbAction::ReadVersions { asset_id: 5 }));
    let (s, a) = s.resume_at(DbReply::Rows(Err("gone".to_string())), "c".to_string(), "t".to_string());
    match &a {
        DbAction::InsertVersion(v) => {
            assert_eq!(v.version, 1);
            assert_eq!((v.ctime.as_str(), v.atime.as_str()), ("c", "t"));
        }
        other => panic!("unexpected {:?}", other),
    }
    let (_, a) = step(s, DbReply::Executed(Err("locked".to_string())));
    match outcome(a) {
        Err(TigerSharkError::DbError(m)) => {
            assert_eq!(m, format!("Error creating Asset Version : locked {}", SQL_INSERT_VERSION))
        }
        other => panic!("unexpected {:?}", other),
    }
}

#[test]
fn version_overflow_is_refused() {
    let mut j = named_asset();
    j.asset_id = 5;
    let (s, _) = create_version(j);
    assert!(!s.accepts_reply(&DbReply::Rows(Ok(vec![row_with_version(i64::MAX)]))));
    assert!(!s.accepts_reply(&DbReply::Row(Ok(row()))));
}

#[test]
fn source_by_version_id() {
    let mut j = AssetJson::default();
    j.version_id = 30;
    let (s, a) = source(j);
    assert!(matches!(a, DbAction::FindVersion { version_id: 30 }));
    let mut r = row();
    r.asset_id = Some(2);
    r.version = Some(6);
    let (s, a) = step(s, DbReply::Row(Ok(r)));
    assert!(matches!(a, DbAction::ReadSource { asset_id: 2, version: 6 }));
    let mut r = row();
    r.source = Some("/src/a.hip".to_string());
    let (_, a) = step(s, DbReply::Row(Ok(r)));
    assert_eq!(outcome(a).unwrap(), "source : /src/a.hip");
}

#[test]
fn source_not_found() {
    let mut j = AssetJson::default();
    j.asset_id = 2;
    j.version = 6;
    let (s, a) = source(j);
    assert!(matches!(a, DbAction::ReadSource { asset_id: 2, version: 6 }));
    let (_, a) = step(s, DbReply::Row(Err("RowNotFound".to_string())));
    match outcome(a) {
        Err(TigerSharkError::NotFound(m)) => {
            assert_eq!(m, format!("Source not found: RowNotFound {}", SQL_READ_SOURCE))
        }
        other => panic!("unexpected {:?}", other),
    }
}

#[test]
fn source_needs_asset_and_version() {
    let (s, a) = source(named_asset());
    assert!(matches!(a, DbAction::FindAssetId { .. }));
    let mut r = row();
    r.asset_id = Some(4);
    let (s, a) = step(s, DbReply::Row(Ok(r)));
    assert_eq!(s.stage, Stage::Finished);
    match outcome(a) {
        Err(TigerSharkError::NotFound(m)) => assert_eq!(m, "could not find asset_id and version"),
        other => panic!("unexpected {:?}", other),
    }
}

#[test]
fn source_from_file_masks_the_path() {
    let (s, a) = source_from_file("/data/chair.0101.bgeo");
    assert!(matches!(a, DbAction::ReadSourceOfDatapath { ref datapath } if datapath == "/data/chair.####.bgeo"));
    let mut r = row();
    r.source = Some("/src/chair.hip".to_string());
    let (_, a) = step(s, DbReply::Row(Ok(r)));
    assert_eq!(outcome(a).unwrap(), "/src/chair.hip");
    let (s, _) = source_from_file("x.1");
    let (_, a) = step(s, DbReply::Row(Err("E".to_string())));
    match outcome(a) {
        Err(TigerSharkError::NotFound(m)) => {
            assert_eq!(m, format!("Source not found: E {}", SQL_READ_SOURCE_OF_DATAPATH))
        }
        other => panic!("unexpected {:?}", other),
    }
}

#[test]
fn delete_marks_for_purge() {
    let mut j = AssetJson::default();
    j.asset_id = 3;
    j.version = 2;
    let (s, a) = delete(j);
    assert!(matches!(a, DbAction::SetStatus { status: 2, asset_id: 3, version: 2 }));
    assert_eq!(a.sql(), SQL_SET_STATUS);
    let (_, a) = step(s, DbReply::Executed(Ok(0)));
    assert_eq!(outcome(a).unwrap(), "version marked for purge");
    let mut j = AssetJson::default();
    j.asset_id = 3;
    j.version = 2;
    let (s, _) = delete(j);
    let (_, a) = step(s, DbReply::Executed(Err("E".to_string())));
    match outcome(a) {
        Err(TigerSharkError::DbError(m)) => assert_eq!(m, "Error, could not mark asset for purge:E"),
        other => panic!("unexpected {:?}", other),
    }
}

#[test]
fn latest_gives_greatest_version() {
    let (s, a) = latest(named_asset());
    assert!(matches!(a, DbAction::FindAssetId { .. }));
    let (_, a) = step(s, DbReply::Row(Err("RowNotFound".to_string())));
    match outcome(a) {
        Err(TigerSharkError::NotFound(m)) => assert_eq!(m, "Error, could not find asset_id"),
        other => panic!("unexpected {:?}", other),
    }
    let mut j = AssetJson::default();
    j.asset_id = 8;
    let (s, a) = latest(j);
    assert!(matches!(a, DbAction::ReadVersions { asset_id: 8 }));
    let (_, a) = step(s, DbReply::Rows(Ok(vec![row_with_version(2), row_with_version(9), row()])));
    assert_eq!(outcome(a).unwrap(), "9");
    let mut j = AssetJson::default();
    j.asset_id = 8;
    let (s, _) = latest(j);
    let (_, a) = step(s, DbReply::Rows(Ok(vec![])));
    assert_eq!(outcome(a).unwrap(), "0");
    let mut j = AssetJson::default();
    j.asset_id = 8;
    let (s, _) = latest(j);
    let (_, a) = step(s, DbReply::Rows(Err("E".to_string())));
    match outcome(a) {
        Err(TigerSharkError::NotFound(m)) => assert_eq!(m, "no version found: \"Error:E\""),
        other => panic!("unexpected {:?}", other),
    }
}

#[test]
fn approve_with_and_without_dependencies() {
    let mut j = AssetJson::default();
    j.asset_id = 3;
    j.version = 2;
    let (s, a) = approve(j);
    assert!(matches!(a, DbAction::Approve { asset_id: 3, version: 2 }));
    let (s, a) = step(s, DbReply::Executed(Ok(0)));
    assert!(matches!(a, DbAction::ReadDepends { asset_id: 3, version: 2 }));
    let mut r = row();
    r.depend = Some(",11,,12".to_string());
    let (s, a) = step(s, DbReply::Row(Ok(r)));
    match &a {
        DbAction::ApproveDependencies { version_ids } => {
            assert_eq!(version_ids, &vec!["11".to_string(), "12".to_string()])
        }
        other => panic!("unexpected {:?}", other),
    }
    let (_, a) = step(s, DbReply::Committed(Ok(())));
    assert_eq!(outcome(a).unwrap(), "Asset and Dependencies approved");

    let mut j = AssetJson::default();
    j.asset_id = 3;
    j.version = 2;
    let (s, _) = approve(j);
    let (s, _) = step(s, DbReply::Executed(Ok(0)));
    let (_, a) = step(s, DbReply::Row(Err("RowNotFound".to_string())));
    assert_eq!(outcome(a).unwrap(), "Asset approved, no dependencies");
}

#[test]
fn approve_errors() {
    let (_, a) = approve(AssetJson { asset_id: 1, ..AssetJson::default() });
    match outcome(a) {
        Err(TigerSharkError::NotFound(m)) => assert_eq!(m, "Error, could not find asset_id and version"),
        other => panic!("unexpected {:?}", other),
    }
    let mut j = AssetJson::default();
    j.asset_id = 3;
    j.version = 2;
    let (s, _) = approve(j);
    let (_, a) = step(s, DbReply::Executed(Err("E".to_string())));
    match outcome(a) {
        Err(TigerSharkError::DbError(m)) => assert_eq!(m, "Error, could not approve version: E"),
        other => panic!("unexpected {:?}", other),
    }
    let mut j = AssetJson::default();
    j.asset_id = 3;
    j.version = 2;
    let (s, _) = approve(j);
    let (s, _) = step(s, DbReply::Executed(Ok(0)));
    let mut r = row();
    r.depend = Some("5".to_string());
    let (s, _) = step(s, DbReply::Row(Ok(r)));
    let (_, a) = step(s, DbReply::Committed(Err("E".to_string())));
    match outcome(a) {
        Err(TigerSharkError::DbError(m)) => assert_eq!(m, "Error approving dependencies: E"),
        other => panic!("unexpected {:?}", other),
    }
}

#[test]
fn purge_lists_datapaths_quoted() {
    let (s, a) = purge();
    assert!(matches!(a, DbAction::ListWithStatus { status: 2 }));
    let mut r1 = row();
    r1.datapath = Some("/d/a.####.exr".to_string());
    let mut r2 = row();
    r2.datapath = Some("b\"c".to_string());
    let (_, a) = step(s, DbReply::Rows(Ok(vec![r1, r2])));
    assert_eq!(outcome(a).unwrap(), "\"/d/a.####.exr#b\\\"c#\"");
    let (s, _) = purge();
    let (_, a) = step(s, DbReply::Rows(Err("E".to_string())));
    match outcome(a) {
        Err(TigerSharkError::NotFound(m)) => assert_eq!(m, "Cannot access versions to purge E"),
        other => panic!("unexpected {:?}", other),
    }
}

#[test]
fn lookups_and_latest_version() {
    let mut r = row();
    r.asset_id = Some(0);
    assert_eq!(find_asset_id(&Ok(r)), None);
    let mut r = row();
    r.asset_id = Some(6);
    assert_eq!(find_asset_id(&Ok(r)), Some(6));
    assert_eq!(find_asset_id(&Err("E".to_string())), None);
    assert_eq!(latest_version(&Ok(vec![row_with_version(-4), row_with_version(-2)])), Ok(-2));
    assert_eq!(latest_version(&Ok(vec![])), Ok(0));
    assert_eq!(latest_version(&Err("E".to_string())), Err("Error:E".to_string()));
}

#[test]
fn delete_by_name_and_location_needs_a_version() {
    let (s, a) = delete(named_asset());
    assert!(matches!(a, DbAction::FindAssetId { .. }));
    let mut r = row();
    r.asset_id = Some(4);
    let (_, a) = step(s, DbReply::Row(Ok(r)));
    match outcome(a) {
        Err(TigerSharkError::NotFound(m)) => assert_eq!(m, "could not find asset_id and version"),
        other => panic!("unexpected {:?}", other),
    }
}

#[test]
fn delete_marks_the_status_that_purge_lists() {
    let mut j = AssetJson::default();
    j.asset_id = 3;
    j.version = 2;
    let (_, marked) = delete(j);
    let (_, listed) = purge();
    match (marked, listed) {
        (DbAction::SetStatus { status: a, .. }, DbAction::ListWithStatus { status: b }) => assert_eq!(a, b),
        other => panic!("unexpected {:?}", other),
    }
}

#[test]
fn another_frame_asks_for_the_recorded_path() {
    let mut j = named_asset();
    j.asset_id = 5;
    j.datapath = "/r/shot.0001.exr".to_string();
    let (s, _) = create_version(j);
    let (_, a) = step(s, DbReply::Rows(Ok(vec![])));
    let recorded = match a {
        DbAction::InsertVersion(v) => v.datapath,
        other => panic!("unexpected {:?}", other),
    };
    let (s, q) = source_from_file("/r/shot.0042.exr");
    assert!(matches!(q, DbAction::ReadSourceOfDatapath { ref datapath } if *datapath == recorded));
    let mut r = row();
    r.datapath = Some(recorded);
    r.source = Some("/src/chair.hip".to_string());
    let (_, a) = step(s, DbReply::Row(Ok(r)));
    assert_eq!(outcome(a).unwrap(), "/src/chair.hip");
}

#[test]
fn new_version_times_have_the_clock_layout() {
    let mut j = named_asset();
    j.asset_id = 5;
    let (s, _) = create_version(j);
    let (_, a) = step(s, DbReply::Rows(Ok(vec![])));
    match a {
        DbAction::InsertVersion(v) => {
            for t in [v.ctime, v.atime] {
                let b = t.as_bytes();
                let n = b.len();
                assert!(n >= 19);
                assert_eq!((b[n - 15], b[n - 12], b[n - 9], b[n - 6], b[n - 3]), (b'-', b'-', b' ', b':', b':'));
                assert!(t.chars().filter(|c| c.is_ascii_digit()).count() >= 14);
            }
        }
        other => panic!("unexpected {:?}", other),
    }
}

#[test]
fn versions_one_to_k_are_followed_by_k_plus_one() {
    let mut j = named_asset();
    j.asset_id = 5;
    let (s, _) = create_version(j);
    let rows = (1..=5).map(row_with_version).collect();
    let (_, a) = step(s, DbReply::Rows(Ok(rows)));
    assert!(matches!(a, DbAction::InsertVersion(ref v) if v.version == 6));
}
