use exe_registry::{Executable, Integration, RegistryError};

fn memory_store() -> Integration {
    let store = Integration::new(":memory:".to_string()).unwrap();
    store.create_table().unwrap();
    store
}

fn add(store: &Integration, name: &str, path: &str) {
    store
        .add_exe(Executable::unsaved(name.to_string(), path.to_string()))
        .unwrap();
}

fn triples(records: &[Executable]) -> Vec<(String, String, String)> {
    records
        .iter()
        .map(|record| {
            (
                record.id.clone().unwrap(),
                record.name.clone(),
                record.path.clone(),
            )
        })
        .collect()
}

fn triple(id: &str, name: &str, path: &str) -> (String, String, String) {
    (id.to_string(), name.to_string(), path.to_string())
}

#[test]
fn insert_then_list_yields_the_record() {
    let store = memory_store();
    add(&store, "Notepad", "/usr/bin/notepad");
    let records = store.list_all().unwrap();
    assert_eq!(records.len(), 1);
    assert!(records[0].id.is_some());
    assert_eq!(records[0].id, Some("1".to_string()));
    assert_eq!(records[0].name, "Notepad");
    assert_eq!(records[0].path, "/usr/bin/notepad");
}

#[test]
fn empty_table_lists_nothing() {
    let store = memory_store();
    assert_eq!(store.list_all().unwrap().len(), 0);
}

#[test]
fn records_are_listed_in_insertion_order_with_rising_ids() {
    let store = memory_store();
    add(&store, "first", "/bin/a");
    add(&store, "second", "/bin/b");
    add(&store, "third", "/bin/c");
    let records = store.list_all().unwrap();
    assert_eq!(
        triples(&records),
        vec![
            triple("1", "first", "/bin/a"),
            triple("2", "second", "/bin/b"),
            triple("3", "third", "/bin/c"),
        ]
    );
}

#[test]
fn duplicate_names_and_paths_are_kept_apart() {
    let store = memory_store();
    add(&store, "same", "/bin/same");
    add(&store, "same", "/bin/same");
    let records = store.list_all().unwrap();
    assert_eq!(
        triples(&records),
        vec![triple("1", "same", "/bin/same"), triple("2", "same", "/bin/same")]
    );
}

#[test]
fn the_identifier_of_the_argument_is_not_used() {
    let store = memory_store();
    let record = Executable::stored("77".to_string(), "tool".to_string(), "/bin/tool".to_string());
    store.add_exe(record).unwrap();
    let records = store.list_all().unwrap();
    assert_eq!(triples(&records), vec![triple("1", "tool", "/bin/tool")]);
}

#[test]
fn creating_the_table_twice_is_harmless() {
    let store = Integration::new(":memory:".to_string()).unwrap();
    assert_eq!(store.create_table(), Ok(()));
    assert_eq!(store.create_table(), Ok(()));
    add(&store, "kept", "/bin/kept");
    assert_eq!(store.create_table(), Ok(()));
    let records = store.list_all().unwrap();
    assert_eq!(triples(&records), vec![triple("1", "kept", "/bin/kept")]);
}

#[test]
fn creating_the_table_twice_leaves_one_table() {
    let location = "/tmp/exe_registry_one_table.db";
    let raw = sqlite::open(location).unwrap();
    raw.execute("drop table if exists executables").unwrap();
    let store = Integration::new(location.to_string()).unwrap();
    assert_eq!(store.create_table(), Ok(()));
    assert_eq!(store.create_table(), Ok(()));
    let mut count = raw
        .prepare("select count(*) from sqlite_master where name = 'executables'")
        .unwrap();
    assert_eq!(count.next().unwrap(), sqlite::State::Row);
    assert_eq!(count.read::<i64, _>(0).unwrap(), 1);
}

#[test]
fn deleting_an_unknown_id_changes_nothing() {
    let store = memory_store();
    add(&store, "first", "/bin/a");
    add(&store, "second", "/bin/b");
    assert_eq!(store.delete_exe("99".to_string()), Ok(()));
    assert_eq!(store.delete_exe("no number".to_string()), Ok(()));
    assert_eq!(store.delete_exe("".to_string()), Ok(()));
    let records = store.list_all().unwrap();
    assert_eq!(
        triples(&records),
        vec![triple("1", "first", "/bin/a"), triple("2", "second", "/bin/b")]
    );
}

#[test]
fn deleting_from_an_empty_table_succeeds() {
    let store = memory_store();
    assert_eq!(store.delete_exe("1".to_string()), Ok(()));
    assert_eq!(store.list_all().unwrap().len(), 0);
}

#[test]
fn deleting_removes_that_record_and_no_other() {
    let store = memory_store();
    add(&store, "first", "/bin/a");
    add(&store, "second", "/bin/b");
    add(&store, "third", "/bin/c");
    assert_eq!(store.delete_exe("2".to_string()), Ok(()));
    let records = store.list_all().unwrap();
    assert_eq!(
        triples(&records),
        vec![triple("1", "first", "/bin/a"), triple("3", "third", "/bin/c")]
    );
}

#[test]
fn deleting_by_a_listed_id_empties_the_table() {
    let store = memory_store();
    add(&store, "only", "/bin/only");
    let listed = store.list_all().unwrap();
    store.delete_exe(listed[0].id.clone().unwrap()).unwrap();
    assert_eq!(store.list_all().unwrap().len(), 0);
}

#[test]
fn a_quote_in_the_name_is_stored_as_it_is() {
    let store = memory_store();
    add(&store, "O'Brien", "/home/o'brien/tool");
    let records = store.list_all().unwrap();
    assert_eq!(triples(&records), vec![triple("1", "O'Brien", "/home/o'brien/tool")]);
}

#[test]
fn a_hostile_name_is_stored_and_runs_nothing() {
    let store = memory_store();
    add(&store, "first", "/bin/a");
    let hostile = "x', 'y'); drop table executables; --";
    add(&store, hostile, "/bin/b");
    let records = store.list_all().unwrap();
    assert_eq!(
        triples(&records),
        vec![triple("1", "first", "/bin/a"), triple("2", hostile, "/bin/b")]
    );
}

#[test]
fn a_hostile_id_deletes_nothing() {
    let store = memory_store();
    add(&store, "first", "/bin/a");
    add(&store, "second", "/bin/b");
    assert_eq!(store.delete_exe("1' or '1'='1".to_string()), Ok(()));
    assert_eq!(store.delete_exe("1 or 1=1".to_string()), Ok(()));
    assert_eq!(store.list_all().unwrap().len(), 2);
}

#[test]
fn unicode_and_empty_texts_are_stored_as_they_are() {
    let store = memory_store();
    add(&store, "Schach ♞ 将棋", "/opt/jeux/échecs");
    add(&store, "", "");
    let records = store.list_all().unwrap();
    assert_eq!(
        triples(&records),
        vec![triple("1", "Schach ♞ 将棋", "/opt/jeux/échecs"), triple("2", "", "")]
    );
}

#[test]
fn a_location_with_a_nul_character_is_refused() {
    let opened = Integration::new("regis\0try.db".to_string());
    assert_eq!(opened.err(), Some(RegistryError::ConnectionFailure));
}

#[test]
fn a_location_in_a_missing_directory_cannot_be_opened() {
    let opened = Integration::new("/exe_registry_no_such_directory/registry.db".to_string());
    assert_eq!(opened.err(), Some(RegistryError::ConnectionFailure));
}

#[test]
fn listing_without_the_table_is_a_query_failure() {
    let store = Integration::new(":memory:".to_string()).unwrap();
    assert_eq!(store.list_all().err(), Some(RegistryError::QueryFailure));
}

#[test]
fn adding_without_the_table_is_a_query_failure() {
    let store = Integration::new(":memory:".to_string()).unwrap();
    let record = Executable::unsaved("tool".to_string(), "/bin/tool".to_string());
    assert_eq!(store.add_exe(record), Err(RegistryError::QueryFailure));
}

#[test]
fn deleting_without_the_table_is_a_query_failure() {
    let store = Integration::new(":memory:".to_string()).unwrap();
    assert_eq!(store.delete_exe("1".to_string()), Err(RegistryError::QueryFailure));
}

#[test]
fn a_name_taken_by_an_index_is_a_schema_failure() {
    let location = "/tmp/exe_registry_index.db";
    let raw = sqlite::open(location).unwrap();
    raw.execute("drop table if exists executables; drop table if exists other")
        .unwrap();
    raw.execute("create table other (x integer); create index executables on other (x)")
        .unwrap();
    let store = Integration::new(location.to_string()).unwrap();
    assert_eq!(store.create_table(), Err(RegistryError::SchemaFailure));
}

#[test]
fn a_row_without_a_name_is_a_query_failure() {
    let location = "/tmp/exe_registry_null_name.db";
    let raw = sqlite::open(location).unwrap();
    raw.execute("drop table if exists executables").unwrap();
    let store = Integration::new(location.to_string()).unwrap();
    store.create_table().unwrap();
    raw.execute("insert into executables(name, path) values(null, '/bin/a')")
        .unwrap();
    assert_eq!(store.list_all().err(), Some(RegistryError::QueryFailure));
}

#[test]
fn a_nul_character_in_a_text_is_stored_and_listed() {
    let store = memory_store();
    add(&store, "a\0b", "/bin/a\0/b");
    add(&store, "\0", "\0\0");
    let records = store.list_all().unwrap();
    assert_eq!(
        triples(&records),
        vec![triple("1", "a\0b", "/bin/a\0/b"), triple("2", "\0", "\0\0")]
    );
}

#[test]
fn bytes_that_are_no_text_are_a_query_failure() {
    let location = "/tmp/exe_registry_blob_name.db";
    let raw = sqlite::open(location).unwrap();
    raw.execute("drop table if exists executables").unwrap();
    let store = Integration::new(location.to_string()).unwrap();
    store.create_table().unwrap();
    raw.execute("insert into executables(name, path) values(x'ff', '/bin/a')")
        .unwrap();
    assert_eq!(store.list_all().err(), Some(RegistryError::QueryFailure));
}

#[test]
fn columns_under_other_names_are_a_query_failure() {
    let location = "/tmp/exe_registry_other_columns.db";
    let raw = sqlite::open(location).unwrap();
    raw.execute("drop table if exists executables").unwrap();
    raw.execute("create table executables (id integer primary key, label text)")
        .unwrap();
    let store = Integration::new(location.to_string()).unwrap();
    assert_eq!(store.create_table(), Ok(()));
    assert_eq!(store.list_all().err(), Some(RegistryError::QueryFailure));
}

#[test]
fn more_columns_than_the_three_do_not_disturb_the_listing() {
    let location = "/tmp/exe_registry_more_columns.db";
    let raw = sqlite::open(location).unwrap();
    raw.execute("drop table if exists executables").unwrap();
    raw.execute(
        "create table executables (note text, path text, name text, id integer primary key)",
    )
    .unwrap();
    let store = Integration::new(location.to_string()).unwrap();
    add(&store, "tool", "/bin/tool");
    let records = store.list_all().unwrap();
    assert_eq!(triples(&records), vec![triple("1", "tool", "/bin/tool")]);
}

#[test]
fn an_identifier_written_otherwise_deletes_nothing() {
    let store = memory_store();
    add(&store, "first", "/bin/a");
    assert_eq!(store.delete_exe("01".to_string()), Ok(()));
    assert_eq!(store.delete_exe("1.0".to_string()), Ok(()));
    assert_eq!(store.delete_exe("+1".to_string()), Ok(()));
    assert_eq!(store.delete_exe(" 1".to_string()), Ok(()));
    assert_eq!(store.delete_exe("1 ".to_string()), Ok(()));
    assert_eq!(store.delete_exe("1e0".to_string()), Ok(()));
    let records = store.list_all().unwrap();
    assert_eq!(triples(&records), vec![triple("1", "first", "/bin/a")]);
    assert_eq!(store.delete_exe("1".to_string()), Ok(()));
    assert_eq!(store.list_all().unwrap().len(), 0);
}
