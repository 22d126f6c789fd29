use wimdy::model::{StoreRow, Target, TargetKind};
use wimdy::query::Query;
use wimdy::store::{FieldError, MemoryStore, StoreOutcome, StoreQuery};

fn row(id: &str, name: &str, season: i64, kind: &str, votes: i64) -> StoreRow {
    StoreRow {
        id: id.to_string(),
        name: name.to_string(),
        season,
        kind: kind.to_string(),
        votes,
    }
}

fn scenario_store() -> MemoryStore {
    MemoryStore::new(vec![
        row("t1", "Spring Rite", 1, "Blessing", 3),
        row("t2", "Autumn Ban", 2, "Decree", 0),
    ])
}

fn list(store: &MemoryStore, season: Option<i32>) -> Result<Vec<Target>, FieldError> {
    let q = Query::targets_query(season);
    Query::targets(season, store.fetch(&q))
}

fn lookup(store: &MemoryStore, id: &str) -> Result<Option<Target>, FieldError> {
    let q = Query::target_query(id);
    Query::target(id, store.fetch(&q))
}

fn ids(ts: &[Target]) -> Vec<String> {
    ts.iter().map(|t| t.id.clone()).collect()
}

#[test]
fn scenario_targets_of_season_one() {
    let store = scenario_store();
    let ts = list(&store, Some(1)).unwrap();
    assert_eq!(ids(&ts), vec!["t1".to_string()]);
    assert_eq!(ts[0].name, "Spring Rite");
    assert_eq!(ts[0].season, 1);
    assert_eq!(ts[0].kind, TargetKind::Blessing);
    assert_eq!(ts[0].votes, 3);
}

#[test]
fn scenario_all_targets() {
    let store = scenario_store();
    let ts = list(&store, None).unwrap();
    let mut got = ids(&ts);
    got.sort();
    assert_eq!(got, vec!["t1".to_string(), "t2".to_string()]);
}

#[test]
fn scenario_target_t2() {
    let store = scenario_store();
    let t = lookup(&store, "t2").unwrap().unwrap();
    assert_eq!(t.id, "t2");
    assert_eq!(t.name, "Autumn Ban");
    assert_eq!(t.season, 2);
    assert_eq!(t.kind, TargetKind::Decree);
    assert_eq!(t.votes, 0);
}

#[test]
fn scenario_target_missing() {
    let store = scenario_store();
    assert!(matches!(lookup(&store, "missing"), Ok(None)));
}

#[test]
fn scenario_current_user() {
    let u = Query::currentUser().unwrap();
    assert_eq!(u.name, "Test");
}

#[test]
fn scenario_api_version() {
    assert_eq!(Query::apiVersion(), "1.0");
    assert_eq!(Query::apiVersion(), Query::apiVersion());
}

#[test]
fn season_filter_keeps_only_that_season() {
    let store = MemoryStore::new(vec![
        row("a", "A", 1, "Will", 1),
        row("b", "B", 2, "Will", 2),
        row("c", "C", 1, "Decree", 3),
    ]);
    let some = list(&store, Some(1)).unwrap();
    assert_eq!(ids(&some), vec!["a".to_string(), "c".to_string()]);
    assert!(some.iter().all(|t| t.season == 1));
    let all = ids(&list(&store, None).unwrap());
    for id in ids(&some) {
        assert!(all.contains(&id));
    }
    assert!(list(&store, Some(7)).unwrap().is_empty());
}

#[test]
fn lookup_agrees_with_list() {
    let store = scenario_store();
    for t in list(&store, None).unwrap() {
        let u = lookup(&store, &t.id).unwrap().unwrap();
        assert_eq!(u.id, t.id);
        assert_eq!(u.name, t.name);
        assert_eq!(u.season, t.season);
        assert_eq!(u.kind, t.kind);
        assert_eq!(u.votes, t.votes);
    }
}

#[test]
fn every_kind_reads_back() {
    for k in [TargetKind::Blessing, TargetKind::Decree, TargetKind::Will] {
        let store = MemoryStore::new(vec![row("x", "X", 4, k.store_tag(), 9)]);
        assert_eq!(list(&store, None).unwrap()[0].kind, k);
        assert_eq!(lookup(&store, "x").unwrap().unwrap().kind, k);
        assert_eq!(TargetKind::from_store_tag(k.store_tag()), Some(k));
    }
    assert_eq!(TargetKind::Blessing.store_tag(), "Blessing");
    assert_eq!(TargetKind::Decree.store_tag(), "Decree");
    assert_eq!(TargetKind::Will.store_tag(), "Will");
}

#[test]
fn unknown_tag_is_rejected() {
    assert_eq!(TargetKind::from_store_tag("BLESSING"), None);
    assert_eq!(TargetKind::from_store_tag(""), None);
    let store = MemoryStore::new(vec![row("x", "X", 1, "Curse", 0)]);
    assert_eq!(list(&store, None).err(), Some(FieldError::StoreError));
    assert!(matches!(lookup(&store, "x"), Err(FieldError::StoreError)));
}

#[test]
fn pool_exhausted_gives_store_unavailable() {
    let r = Query::targets(Some(1), StoreOutcome::NoConnection);
    assert_eq!(r.err(), Some(FieldError::StoreUnavailable));
    let r = Query::targets(None, StoreOutcome::NoConnection);
    assert_eq!(r.err(), Some(FieldError::StoreUnavailable));
    assert!(matches!(
        Query::target("t1", StoreOutcome::NoConnection),
        Err(FieldError::StoreUnavailable)
    ));
    assert_eq!(Query::apiVersion(), "1.0");
}

#[test]
fn failed_query_gives_store_error() {
    assert_eq!(
        Query::targets(None, StoreOutcome::QueryFailed).err(),
        Some(FieldError::StoreError)
    );
    assert!(matches!(
        Query::target("t1", StoreOutcome::QueryFailed),
        Err(FieldError::StoreError)
    ));
}

#[test]
fn several_rows_for_one_id_is_an_error() {
    let rows = vec![row("t1", "A", 1, "Will", 0), row("t1", "B", 1, "Will", 0)];
    assert!(matches!(
        Query::target("t1", StoreOutcome::Rows(rows)),
        Err(FieldError::StoreError)
    ));
}

#[test]
fn row_of_another_query_is_an_error() {
    let rows = vec![row("t2", "B", 2, "Will", 0)];
    assert!(matches!(
        Query::target("t1", StoreOutcome::Rows(rows)),
        Err(FieldError::StoreError)
    ));
    let rows = vec![row("t2", "B", 2, "Will", 0)];
    assert_eq!(
        Query::targets(Some(1), StoreOutcome::Rows(rows)).err(),
        Some(FieldError::StoreError)
    );
}

#[test]
fn numbers_beyond_i32_are_an_error() {
    let big = i32::MAX as i64 + 1;
    let store = MemoryStore::new(vec![row("x", "X", big, "Will", 0)]);
    assert_eq!(list(&store, None).err(), Some(FieldError::StoreError));
    let store = MemoryStore::new(vec![row("y", "Y", 1, "Will", i32::MIN as i64 - 1)]);
    assert_eq!(list(&store, None).err(), Some(FieldError::StoreError));
    let store = MemoryStore::new(vec![row("z", "Z", i32::MIN as i64, "Will", i32::MAX as i64)]);
    let t = list(&store, None).unwrap();
    assert_eq!(t[0].season, i32::MIN);
    assert_eq!(t[0].votes, i32::MAX);
}

#[test]
fn empty_store() {
    let store = MemoryStore::new(Vec::new());
    assert!(list(&store, None).unwrap().is_empty());
    assert!(matches!(lookup(&store, "t1"), Ok(None)));
}

#[test]
fn store_queries_select_rows() {
    let store = scenario_store();
    match store.fetch(&StoreQuery::BySeason(2)) {
        StoreOutcome::Rows(rows) => {
            assert_eq!(rows.len(), 1);
            assert_eq!(rows[0].id, "t2");
        }
        _ => panic!("in-memory fetch failed"),
    }
    match store.fetch(&StoreQuery::ById("t1".to_string())) {
        StoreOutcome::Rows(rows) => assert_eq!(rows[0].name, "Spring Rite"),
        _ => panic!("in-memory fetch failed"),
    }
    assert!(StoreQuery::All.answers(&row("q", "Q", 5, "Will", 0)));
    assert!(!StoreQuery::BySeason(4).answers(&row("q", "Q", 5, "Will", 0)));
}

#[test]
fn row_decodes_field_by_field() {
    let t = row("k", "Harvest", 3, "Will", 12).decode().unwrap();
    assert_eq!(t.id, "k");
    assert_eq!(t.name, "Harvest");
    assert_eq!(t.season, 3);
    assert_eq!(t.kind, TargetKind::Will);
    assert_eq!(t.votes, 12);
    assert!(row("k", "Harvest", 3, "will", 12).decode().is_none());
}
