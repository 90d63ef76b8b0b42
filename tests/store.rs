use meta_store::define::{metadata_steps, Action, DefineType, Event, Pool, Step};
use meta_store::error::StoreError;
use meta_store::load::{assemble_type_system, FieldRecord, TypeRecord};
use meta_store::schema::{backing_table, create_table_statement, metadata_tables, Dialect};
use meta_store::stmt::{Arg, Query, Stmt};
use meta_store::store::Store;
use meta_store::types::{Field, ObjectType, TypeSystem, TypeSystemError};

fn s(x: &str) -> String {
    x.to_string()
}

fn user() -> ObjectType {
    ObjectType {
        name: s("User"),
        fields: vec![Field { name: s("name"), field_type: s("string"), labels: vec![s("pii"), s("index")] }],
        backing_table: s("user_1"),
    }
}

fn texts(stmt: &Stmt) -> Vec<String> {
    stmt.args
        .iter()
        .map(|a| match a {
            Arg::Int(i) => format!("#{}", i),
            Arg::Text(t) => t.clone(),
        })
        .collect()
}

fn expect_execute(a: Action, q: Query, args: &[&str]) {
    match a {
        Action::Execute(st) => {
            assert_eq!(st.sql, q.sql());
            assert_eq!(texts(&st), args.iter().map(|x| s(x)).collect::<Vec<_>>());
        }
        _ => panic!("expected a statement"),
    }
}

fn expect_fetch(a: Action, q: Query, args: &[&str], column: &str) {
    match a {
        Action::FetchId(st, c) => {
            assert_eq!(st.sql, q.sql());
            assert_eq!(texts(&st), args.iter().map(|x| s(x)).collect::<Vec<_>>());
            assert_eq!(c, column);
        }
        _ => panic!("expected a statement returning an id"),
    }
}

fn failure() -> sqlx::Error {
    sqlx::Error::PoolTimedOut
}

#[test]
fn scalars_are_known_and_unknown_names_are_not() {
    let ts = TypeSystem::new();
    assert_eq!(ts.lookup_type(&s("string")).unwrap(), "string");
    assert_eq!(ts.lookup_type(&s("number")).unwrap(), "number");
    assert_eq!(ts.lookup_type(&s("boolean")).unwrap(), "boolean");
    assert!(matches!(ts.lookup_type(&s("User")), Err(TypeSystemError::NoSuchType(n)) if n == "User"));
    assert_eq!(ts.len(), 0);
}

#[test]
fn define_type_rejects_taken_names() {
    let mut ts = TypeSystem::new();
    assert!(ts.define_type(user()).is_ok());
    assert_eq!(ts.len(), 1);
    assert_eq!(ts.get(0).name, "User");
    assert!(ts.lookup_type(&s("User")).is_ok());
    assert!(matches!(ts.define_type(user()), Err(TypeSystemError::TypeAlreadyExists(n)) if n == "User"));
    let scalar = ObjectType { name: s("string"), fields: vec![], backing_table: s("t") };
    assert!(matches!(ts.define_type(scalar), Err(TypeSystemError::TypeAlreadyExists(n)) if n == "string"));
    assert_eq!(ts.len(), 1);
}

#[test]
fn metadata_rows_follow_the_type() {
    let steps = metadata_steps(&user());
    let names: Vec<String> = steps
        .iter()
        .map(|st| match st {
            Step::Type(x) => format!("type {}", x),
            Step::TypeName(x) => format!("name {}", x),
            Step::Field(x) => format!("field {}", x),
            Step::FieldName(x) => format!("field_name {}", x),
            Step::Label(x) => format!("label {}", x),
        })
        .collect();
    assert_eq!(
        names,
        vec!["type user_1", "name User", "field string", "field_name name", "label pii", "label index"]
    );
    let empty = ObjectType { name: s("Empty"), fields: vec![], backing_table: s("empty_1") };
    assert_eq!(metadata_steps(&empty).len(), 2);
}

#[test]
fn define_workflow_writes_metadata_then_backing_table() {
    let store = Store::new(Dialect::Postgres, Dialect::Sqlite);
    let mut flow: DefineType = store.insert(&user());
    assert!(matches!(flow.next(Event::Done), Action::Begin(Pool::Meta)));
    expect_fetch(flow.next(Event::Done), Query::InsertType, &["user_1"], "type_id");
    expect_execute(flow.next(Event::Id(7)), Query::InsertTypeName, &["#7", "User"]);
    expect_fetch(flow.next(Event::Done), Query::InsertField, &["string", "#7"], "field_id");
    expect_execute(flow.next(Event::Id(11)), Query::InsertFieldName, &["name", "#11"]);
    expect_execute(flow.next(Event::Done), Query::InsertLabel, &["pii", "#11"]);
    expect_execute(flow.next(Event::Done), Query::InsertLabel, &["index", "#11"]);
    assert!(matches!(flow.next(Event::Done), Action::Commit));
    assert!(matches!(flow.next(Event::Done), Action::Begin(Pool::Data)));
    match flow.next(Event::Done) {
        Action::ExecuteSql(sql) => assert_eq!(
            sql,
            "CREATE TABLE IF NOT EXISTS `user_1` ( `id` integer PRIMARY KEY AUTOINCREMENT, `fields` text )"
        ),
        _ => panic!("expected the backing table"),
    }
    assert!(matches!(flow.next(Event::Done), Action::Commit));
    assert!(!flow.is_finished());
    assert!(matches!(flow.next(Event::Done), Action::Finish(Ok(()))));
    assert!(flow.is_finished());
}

#[test]
fn backing_table_failure_leaves_metadata_committed() {
    let store = Store::new(Dialect::Sqlite, Dialect::Sqlite);
    let ty = ObjectType { name: s("Empty"), fields: vec![], backing_table: s("empty_1") };
    let mut flow = store.insert(&ty);
    assert!(matches!(flow.next(Event::Done), Action::Begin(Pool::Meta)));
    expect_fetch(flow.next(Event::Done), Query::InsertType, &["empty_1"], "type_id");
    expect_execute(flow.next(Event::Id(1)), Query::InsertTypeName, &["#1", "Empty"]);
    assert!(matches!(flow.next(Event::Done), Action::Commit));
    assert!(matches!(flow.next(Event::Done), Action::Begin(Pool::Data)));
    assert!(matches!(flow.next(Event::Done), Action::ExecuteSql(_)));
    assert!(matches!(flow.next(Event::Failed(failure())), Action::Finish(Err(StoreError::ExecuteFailed(_)))));
    assert!(flow.is_finished());
}

#[test]
fn define_failures_map_to_their_phase() {
    let store = Store::new(Dialect::Sqlite, Dialect::Sqlite);
    let mut flow = store.insert(&user());
    flow.next(Event::Done);
    assert!(matches!(flow.next(Event::Failed(failure())), Action::Finish(Err(StoreError::ConnectionFailed(_)))));

    let mut flow = store.insert(&user());
    flow.next(Event::Done);
    flow.next(Event::Done);
    assert!(matches!(flow.next(Event::Failed(failure())), Action::Finish(Err(StoreError::ExecuteFailed(_)))));

    let ty = ObjectType { name: s("Empty"), fields: vec![], backing_table: s("empty_1") };
    let mut flow = store.insert(&ty);
    flow.next(Event::Done);
    flow.next(Event::Done);
    flow.next(Event::Id(3));
    flow.next(Event::Done);
    flow.next(Event::Done);
    assert!(matches!(flow.next(Event::Failed(failure())), Action::Finish(Err(StoreError::ConnectionFailed(_)))));
}

fn record(type_id: i32, name: &str, table: &str, fields: Vec<FieldRecord>) -> TypeRecord {
    TypeRecord { type_id, backing_table: s(table), name: s(name), fields }
}

fn field(field_id: i32, name: &str, ty: &str, labels: &[&str]) -> FieldRecord {
    FieldRecord { field_id, name: s(name), field_type: s(ty), labels: labels.iter().map(|l| s(l)).collect() }
}

#[test]
fn loaded_type_matches_what_was_defined() {
    let recs = vec![
        record(1, "User", "user_1", vec![field(1, "name", "string", &["pii", "index"])]),
        record(2, "Post", "post_2", vec![field(2, "author", "User", &[]), field(3, "likes", "number", &["x"])]),
    ];
    let ts = assemble_type_system(&recs).unwrap();
    assert_eq!(ts.len(), 2);
    let u = ts.get(0);
    let orig = user();
    assert_eq!(u.name, orig.name);
    assert_eq!(u.backing_table, orig.backing_table);
    assert_eq!(u.fields.len(), 1);
    assert_eq!(u.fields[0].name, orig.fields[0].name);
    assert_eq!(u.fields[0].field_type, orig.fields[0].field_type);
    assert_eq!(u.fields[0].labels, orig.fields[0].labels);
    let p = ts.get(1);
    assert_eq!(p.fields[0].field_type, "User");
    assert_eq!(p.fields[1].labels, vec![s("x")]);
    assert_eq!(assemble_type_system(&vec![]).unwrap().len(), 0);
}

#[test]
fn unknown_reference_fails_the_whole_load() {
    let recs = vec![
        record(1, "User", "user_1", vec![field(1, "name", "string", &[])]),
        record(2, "Post", "post_2", vec![field(2, "tag", "Tag", &[])]),
    ];
    assert!(matches!(assemble_type_system(&recs), Err(TypeSystemError::NoSuchType(n)) if n == "Tag"));
    let forward = vec![
        record(1, "Post", "post_1", vec![field(1, "author", "User", &[])]),
        record(2, "User", "user_2", vec![]),
    ];
    assert!(matches!(assemble_type_system(&forward), Err(TypeSystemError::NoSuchType(n)) if n == "User"));
}

#[test]
fn store_load_reports_inconsistency_as_type_error() {
    let store = Store::new(Dialect::Sqlite, Dialect::Sqlite);
    let recs = vec![record(1, "Post", "post_1", vec![field(1, "tag", "Tag", &[])])];
    assert!(matches!(
        store.load_type_system(&recs),
        Err(StoreError::TypeError(TypeSystemError::NoSuchType(n))) if n == "Tag"
    ));
    let ok = vec![record(1, "User", "user_1", vec![field(1, "name", "string", &[])])];
    let ts = store.load_type_system(&ok).unwrap();
    assert_eq!(ts.get(0).backing_table, "user_1");
}

#[test]
fn duplicate_type_fails_the_whole_load() {
    let recs = vec![record(1, "User", "user_1", vec![]), record(2, "User", "user_2", vec![])];
    assert!(matches!(assemble_type_system(&recs), Err(TypeSystemError::TypeAlreadyExists(n)) if n == "User"));
}

#[test]
fn schema_statements_create_only_missing_tables() {
    let store = Store::new(Dialect::Sqlite, Dialect::Postgres);
    let first = store.create_schema();
    let second = store.create_schema();
    assert_eq!(first, second);
    assert_eq!(first.len(), 5);
    for stmt in &first {
        assert!(stmt.starts_with("CREATE TABLE IF NOT EXISTS "));
    }
    assert_eq!(
        first[0],
        "CREATE TABLE IF NOT EXISTS `types` ( `type_id` integer PRIMARY KEY AUTOINCREMENT, `backing_table` text )"
    );
    let names: Vec<String> = metadata_tables().into_iter().map(|t| t.name).collect();
    assert_eq!(names, vec!["types", "type_names", "fields", "field_names", "field_labels"]);
}

#[test]
fn backing_table_in_each_dialect() {
    let t = backing_table(&s("user_1"));
    let lite = create_table_statement(Dialect::Sqlite, &t);
    let pg = create_table_statement(Dialect::Postgres, &t);
    assert!(pg.starts_with("CREATE TABLE IF NOT EXISTS \"user_1\""));
    assert!(lite.starts_with("CREATE TABLE IF NOT EXISTS `user_1`"));
    assert_ne!(lite, pg);
}

#[test]
fn remove_deletes_the_type_row_in_one_transaction() {
    let store = Store::new(Dialect::Sqlite, Dialect::Sqlite);
    let mut flow = store.remove(&s("User"));
    assert!(matches!(flow.next(Event::Done), Action::Begin(Pool::Meta)));
    expect_execute(flow.next(Event::Done), Query::DeleteType, &["User"]);
    assert!(matches!(flow.next(Event::Done), Action::Commit));
    assert!(matches!(flow.next(Event::Done), Action::Finish(Ok(()))));
    assert!(flow.is_finished());

    let mut flow = store.remove(&s("User"));
    flow.next(Event::Done);
    assert!(matches!(flow.next(Event::Failed(failure())), Action::Finish(Err(StoreError::ConnectionFailed(_)))));
    let mut flow = store.remove(&s("User"));
    flow.next(Event::Done);
    flow.next(Event::Done);
    flow.next(Event::Done);
    assert!(matches!(flow.next(Event::Failed(failure())), Action::Finish(Err(StoreError::ExecuteFailed(_)))));
}

#[test]
fn rows_are_inserted_with_a_bound_payload_and_read_back_whole() {
    let store = Store::new(Dialect::Sqlite, Dialect::Sqlite);
    let ty = user();
    let payload = s("{\"name\":\"Alice\"}");
    let mut flow = store.add_row(&ty, payload.clone());
    assert!(matches!(flow.next(Event::Done), Action::Begin(Pool::Data)));
    match flow.next(Event::Done) {
        Action::Execute(st) => {
            assert_eq!(st.sql, "INSERT INTO user_1(fields) VALUES ($1)");
            assert_eq!(texts(&st), vec![payload.clone()]);
        }
        _ => panic!("expected the insert"),
    }
    assert!(matches!(flow.next(Event::Done), Action::Commit));
    assert!(matches!(flow.next(Event::Done), Action::Finish(Ok(()))));
    assert_eq!(store.find_all(&ty), "SELECT * FROM user_1");
    let quoted = s("it's");
    let mut flow = store.add_row(&ty, quoted.clone());
    flow.next(Event::Done);
    match flow.next(Event::Done) {
        Action::Execute(st) => assert_eq!(texts(&st), vec![quoted]),
        _ => panic!("expected the insert"),
    }
}
