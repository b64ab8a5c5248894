use sled_es::{
    fold_events, CommitError, GenericQueryRepository, Projection, QueryError, Record,
};

#[derive(Debug, PartialEq)]
struct Trail(String);

impl Projection for Trail {
    type Event = char;

    fn default_view() -> Self {
        Trail(String::new())
    }

    fn update(&mut self, event: &char) {
        self.0.push(*event);
    }

    fn to_bytes(&self) -> Result<Vec<u8>, String> {
        serde_json::to_vec(&self.0).map_err(|error| error.to_string())
    }

    fn from_bytes(bytes: &[u8]) -> Result<Self, String> {
        serde_json::from_slice::<String>(bytes).map(Trail).map_err(|error| error.to_string())
    }
}

fn temporary_db() -> sled::Db {
    sled::Config::new().temporary(true).open().unwrap()
}

fn raw_record(db: &sled::Db, namespace: &str, key: &str) -> Option<Vec<u8>> {
    db.open_tree(namespace).unwrap().get(key).unwrap().map(|value| value.to_vec())
}

#[test]
fn fold_events_keeps_the_order_given() {
    let mut view = Trail("x".to_string());
    fold_events(&mut view, &['a', 'b', 'a', 'c']);
    assert_eq!(view, Trail("xabac".to_string()));
}

#[test]
fn fold_events_of_nothing_changes_nothing() {
    let mut view = Trail("x".to_string());
    fold_events(&mut view, &[]);
    assert_eq!(view, Trail("x".to_string()));
}

#[test]
fn fold_in_two_steps_is_fold_in_one() {
    let mut stepwise = Trail::default_view();
    fold_events(&mut stepwise, &['a', 'b']);
    fold_events(&mut stepwise, &['c']);
    let mut at_once = Trail::default_view();
    fold_events(&mut at_once, &['a', 'b', 'c']);
    assert_eq!(stepwise, at_once);
}

#[test]
fn events_are_folded_in_order_across_updates() {
    let db = temporary_db();
    let repository = GenericQueryRepository::<Trail>::new("trail", db.clone());
    repository.apply_events("t-1", &['a', 'b']).unwrap();
    repository.apply_events("t-1", &['b', 'a']).unwrap();
    assert_eq!(repository.load("t-1".to_string()), Some(Trail("abba".to_string())));
    assert_eq!(raw_record(&db, "trail", "t-1"), Some(b"\"abba\"".to_vec()));
}

#[test]
fn read_view_of_a_missing_record_is_no_error() {
    assert_eq!(sled_es::queries::read_view::<Trail>(Ok(None)), Ok(None));
}

#[test]
fn read_view_deserializes_the_record() {
    assert_eq!(
        sled_es::queries::read_view::<Trail>(Ok(Some(b"\"ab\"".to_vec()))),
        Ok(Some(Trail("ab".to_string())))
    );
}

#[test]
fn read_view_of_bytes_that_stand_for_no_view_is_a_deserialization_error() {
    let view = sled_es::queries::read_view::<Trail>(Ok(Some(b"ab".to_vec())));
    assert!(matches!(view, Err(QueryError::Deserialization { .. })));
}

#[test]
fn read_view_of_a_failed_read_carries_the_cause() {
    assert_eq!(
        sled_es::queries::read_view::<Trail>(Err("corruption".to_string())),
        Err(QueryError::StorageRead { cause: "corruption".to_string() })
    );
}

#[test]
fn load_mut_from_a_missing_record_starts_from_the_default_view() {
    let repository = GenericQueryRepository::<Trail>::new("trail", temporary_db());
    let (view, context) = repository.load_mut_from("t-1".to_string(), Ok(None)).unwrap();
    assert_eq!(view, Trail(String::new()));
    let record = context.record(&Trail("z".to_string())).unwrap();
    assert_eq!(record.namespace, "trail");
    assert_eq!(record.key, "t-1");
}

#[test]
fn load_mut_from_a_stored_record_starts_from_its_view() {
    let repository = GenericQueryRepository::<Trail>::new("trail", temporary_db());
    let (view, _context) =
        repository.load_mut_from("t-1".to_string(), Ok(Some(b"\"ab\"".to_vec()))).unwrap();
    assert_eq!(view, Trail("ab".to_string()));
}

#[test]
fn load_mut_from_a_corrupt_record_is_an_error() {
    let repository = GenericQueryRepository::<Trail>::new("trail", temporary_db());
    let loaded = repository.load_mut_from("t-1".to_string(), Ok(Some(b"\"ab".to_vec())));
    assert!(matches!(loaded, Err(QueryError::Deserialization { .. })));
}

#[test]
fn load_mut_from_a_failed_read_is_an_error() {
    let repository = GenericQueryRepository::<Trail>::new("trail", temporary_db());
    let loaded = repository.load_mut_from("t-1".to_string(), Err("corruption".to_string()));
    assert!(matches!(
        loaded,
        Err(QueryError::StorageRead { cause }) if cause == "corruption"
    ));
}

#[test]
fn load_mut_reads_the_stored_view() {
    let db = temporary_db();
    let repository = GenericQueryRepository::<Trail>::new("trail", db);
    repository.apply_events("t-1", &['q']).unwrap();
    let (view, _context) = repository.load_mut("t-1".to_string()).unwrap();
    assert_eq!(view, Trail("q".to_string()));
    let (other, _context) = repository.load_mut("t-2".to_string()).unwrap();
    assert_eq!(other, Trail(String::new()));
}

#[test]
fn record_holds_the_key_of_the_context_and_the_bytes_of_the_view() {
    let repository = GenericQueryRepository::<Trail>::new("trail", temporary_db());
    let (_view, context) = repository.load_mut("t-9".to_string()).unwrap();
    let Record { namespace, key, bytes } = context.record(&Trail("hi".to_string())).unwrap();
    assert_eq!(namespace, "trail");
    assert_eq!(key, "t-9");
    assert_eq!(bytes, b"\"hi\"".to_vec());
}

#[test]
fn commit_writes_under_the_key_of_the_context() {
    let db = temporary_db();
    let repository = GenericQueryRepository::<Trail>::new("trail", db.clone());
    let (_view, context) = repository.load_mut("t-1".to_string()).unwrap();
    assert_eq!(context.commit(&db, Trail("first".to_string())), Ok(()));
    assert_eq!(raw_record(&db, "trail", "t-1"), Some(b"\"first\"".to_vec()));
    assert_eq!(raw_record(&db, "trail", "trail"), None);
    assert_eq!(raw_record(&db, "t-1", "trail"), None);
    assert_eq!(db.get("t-1").unwrap(), None);
}

#[test]
fn commit_overwrites_the_record() {
    let db = temporary_db();
    let repository = GenericQueryRepository::<Trail>::new("trail", db.clone());
    let (_view, context) = repository.load_mut("t-1".to_string()).unwrap();
    context.commit(&db, Trail("first".to_string())).unwrap();
    let (_view, context) = repository.load_mut("t-1".to_string()).unwrap();
    context.commit(&db, Trail("second".to_string())).unwrap();
    assert_eq!(raw_record(&db, "trail", "t-1"), Some(b"\"second\"".to_vec()));
    assert_eq!(repository.load("t-1".to_string()), Some(Trail("second".to_string())));
}

#[test]
fn settle_of_a_write_that_went_through_is_ok() {
    let repository = GenericQueryRepository::<Trail>::new("trail", temporary_db());
    let (_view, context) = repository.load_mut("t-1".to_string()).unwrap();
    assert_eq!(context.settle(Ok(())), Ok(()));
}

#[test]
fn settle_of_a_failed_write_names_the_key_and_the_cause() {
    let repository = GenericQueryRepository::<Trail>::new("trail", temporary_db());
    let (_view, context) = repository.load_mut("t-1".to_string()).unwrap();
    assert_eq!(
        context.settle(Err("IO error: disk full".to_string())),
        Err(CommitError::StorageWrite {
            query_name: "trail".to_string(),
            query_instance_id: "t-1".to_string(),
            cause: "IO error: disk full".to_string(),
        })
    );
}
