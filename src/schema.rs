use sea_query::{Alias, ColumnDef, PostgresQueryBuilder, SchemaStatementBuilder, SqliteQueryBuilder, Table};
use vstd::prelude::*;

verus! {

/// The SQL dialects a store can speak, chosen once when a connection
/// string is parsed.
#[derive(Clone, Copy, Debug, PartialEq, Eq, Structural)]
pub enum Dialect {
    Postgres,
    Sqlite,
}

/// The column shapes that the stored tables use.
#[derive(Clone, Copy, Debug, PartialEq, Eq, Structural)]
pub enum ColumnKind {
    /// An auto-incrementing integer primary key.
    Serial,
    Integer,
    Text,
}

pub struct Column {
    pub name: String,
    pub kind: ColumnKind,
}

/// A table to create if it does not exist yet.
pub struct TableSpec {
    pub name: String,
    pub columns: Vec<Column>,
}

pub struct TableSpecView {
    pub name: Seq<char>,
    pub columns: Seq<(Seq<char>, ColumnKind)>,
}

impl View for TableSpec {
    type V = TableSpecView;

    open spec fn view(&self) -> TableSpecView {
        TableSpecView {
            name: self.name@,
            columns: self.columns@.map_values(|c: Column| (c.name@, c.kind)),
        }
    }
}

/// The `CREATE TABLE IF NOT EXISTS` statement that sea_query renders for a
/// table, in a dialect.
pub uninterp spec fn create_table_sql(d: Dialect, table: TableSpecView) -> Seq<char>;

pub open spec fn create_if_absent_prefix() -> Seq<char> {
    "CREATE TABLE IF NOT EXISTS "@
}

/// Relies on sea_query's `TableCreateStatement` built with `if_not_exists`
/// and rendered by the dialect's query builder: the text depends on the
/// table and the dialect alone, and starts with `CREATE TABLE IF NOT EXISTS `.
#[verifier::external_body]
fn render_create_table(d: Dialect, t: &TableSpec) -> (r: String)
    ensures
        r@ == create_table_sql(d, t@),
        r@.len() >= create_if_absent_prefix().len(),
        r@.subrange(0, create_if_absent_prefix().len() as int) == create_if_absent_prefix(),
{
    let mut stmt = Table::create();
    stmt.table(Alias::new(&t.name)).if_not_exists();
    for c in t.columns.iter() {
        let mut def = ColumnDef::new(Alias::new(&c.name));
        match c.kind {
            ColumnKind::Serial => def.integer().auto_increment().primary_key(),
            ColumnKind::Integer => def.integer(),
            ColumnKind::Text => def.text(),
        };
        stmt.col(&mut def);
    }
    match d {
        Dialect::Postgres => stmt.build(PostgresQueryBuilder),
        Dialect::Sqlite => stmt.build(SqliteQueryBuilder),
    }
}

/// Renders the statement that creates `t` in dialect `d` unless it exists.
pub fn create_table_statement(d: Dialect, t: &TableSpec) -> (r: String)
    ensures
        r@ == create_table_sql(d, t@),
        r@.len() >= create_if_absent_prefix().len(),
        r@.subrange(0, create_if_absent_prefix().len() as int) == create_if_absent_prefix(),
{
    render_create_table(d, t)
}

fn column(name: &str, kind: ColumnKind) -> (r: Column)
    ensures
        r.name@ == name@,
        r.kind == kind,
{
    Column { name: name.to_string(), kind }
}

pub open spec fn col(name: Seq<char>, kind: ColumnKind) -> (Seq<char>, ColumnKind) {
    (name, kind)
}

/// The backing table of a type: a serial `id` and the opaque `fields` payload.
pub open spec fn backing_table_spec(name: Seq<char>) -> TableSpecView {
    TableSpecView {
        name,
        columns: seq![col("id"@, ColumnKind::Serial), col("fields"@, ColumnKind::Text)],
    }
}

/// The five tables of the metadata store.
pub open spec fn metadata_tables_spec() -> Seq<TableSpecView> {
    seq![
        TableSpecView {
            name: "types"@,
            columns: seq![col("type_id"@, ColumnKind::Serial), col("backing_table"@, ColumnKind::Text)],
        },
        TableSpecView {
            name: "type_names"@,
            columns: seq![col("type_id"@, ColumnKind::Integer), col("name"@, ColumnKind::Text)],
        },
        TableSpecView {
            name: "fields"@,
            columns: seq![
                col("field_id"@, ColumnKind::Serial),
                col("field_type"@, ColumnKind::Text),
                col("type_id"@, ColumnKind::Integer),
            ],
        },
        TableSpecView {
            name: "field_names"@,
            columns: seq![col("field_name"@, ColumnKind::Text), col("field_id"@, ColumnKind::Integer)],
        },
        TableSpecView {
            name: "field_labels"@,
            columns: seq![col("label_name"@, ColumnKind::Text), col("field_id"@, ColumnKind::Integer)],
        },
    ]
}

fn table2(name: &str, a: &str, ka: ColumnKind, b: &str, kb: ColumnKind) -> (r: TableSpec)
    ensures
        r@ == (TableSpecView { name: name@, columns: seq![col(a@, ka), col(b@, kb)] }),
{
    let r = TableSpec { name: name.to_string(), columns: vec![column(a, ka), column(b, kb)] };
    assert(r@.columns =~= seq![col(a@, ka), col(b@, kb)]);
    r
}

/// The table that holds the rows of a type whose backing table is `name`.
pub fn backing_table(name: &String) -> (r: TableSpec)
    ensures
        r@ == backing_table_spec(name@),
{
    let r = TableSpec {
        name: name.clone(),
        columns: vec![column("id", ColumnKind::Serial), column("fields", ColumnKind::Text)],
    };
    proof {
        reveal_strlit("id");
        reveal_strlit("fields");
    }
    assert(r@.columns =~= backing_table_spec(name@).columns);
    r
}

/// The tables of the metadata store, in creation order.
pub fn metadata_tables() -> (r: Vec<TableSpec>)
    ensures
        r@.map_values(|t: TableSpec| t@) == metadata_tables_spec(),
{
    let types = table2("types", "type_id", ColumnKind::Serial, "backing_table", ColumnKind::Text);
    let names = table2("type_names", "type_id", ColumnKind::Integer, "name", ColumnKind::Text);
    let fields = TableSpec {
        name: "fields".to_string(),
        columns: vec![
            column("field_id", ColumnKind::Serial),
            column("field_type", ColumnKind::Text),
            column("type_id", ColumnKind::Integer),
        ],
    };
    let field_names = table2("field_names", "field_name", ColumnKind::Text, "field_id", ColumnKind::Integer);
    let labels = table2("field_labels", "label_name", ColumnKind::Text, "field_id", ColumnKind::Integer);
    let r = vec![types, names, fields, field_names, labels];
    proof {
        reveal_strlit("types");
        reveal_strlit("type_id");
        reveal_strlit("backing_table");
        reveal_strlit("type_names");
        reveal_strlit("name");
        reveal_strlit("fields");
        reveal_strlit("field_id");
        reveal_strlit("field_type");
        reveal_strlit("field_names");
        reveal_strlit("field_name");
        reveal_strlit("field_labels");
        reveal_strlit("label_name");
    }
    assert(r@[2]@.columns =~= metadata_tables_spec()[2].columns);
    assert(r@.map_values(|t: TableSpec| t@) =~= metadata_tables_spec());
    r
}

/// The tables of a database by name, each with its rows.
pub type Tables = Map<Seq<char>, Seq<Seq<char>>>;

/// What a `CREATE TABLE IF NOT EXISTS` statement does: an existing table,
/// rows included, is left as it is; a missing one is created empty.
pub open spec fn create_if_absent(db: Tables, t: TableSpecView) -> Tables {
    if db.contains_key(t.name) {
        db
    } else {
        db.insert(t.name, Seq::empty())
    }
}

/// The effect of running the creation statements of `ts` one after another.
pub open spec fn run_creates(db: Tables, ts: Seq<TableSpecView>) -> Tables
    decreases ts.len(),
{
    if ts.len() == 0 {
        db
    } else {
        create_if_absent(run_creates(db, ts.drop_last()), ts.last())
    }
}

proof fn lemma_run_creates(db: Tables, ts: Seq<TableSpecView>)
    ensures
        forall|n: Seq<char>| #[trigger] db.contains_key(n) ==> run_creates(db, ts).contains_key(n)
            && run_creates(db, ts)[n] == db[n],
        forall|i: int| 0 <= i < ts.len() ==> run_creates(db, ts).contains_key(#[trigger] ts[i].name),
        (forall|i: int| 0 <= i < ts.len() ==> db.contains_key(#[trigger] ts[i].name)) ==> run_creates(db, ts)
            == db,
    decreases ts.len(),
{
    if ts.len() > 0 {
        lemma_run_creates(db, ts.drop_last());
        assert forall|i: int| 0 <= i < ts.len() implies run_creates(db, ts).contains_key(
            #[trigger] ts[i].name,
        ) by {
            if i < ts.len() - 1 {
                assert(ts.drop_last()[i] == ts[i]);
            }
        }
        if forall|i: int| 0 <= i < ts.len() ==> db.contains_key(#[trigger] ts[i].name) {
            assert forall|i: int| 0 <= i < ts.drop_last().len() implies db.contains_key(
                #[trigger] ts.drop_last()[i].name,
            ) by {
                assert(ts.drop_last()[i] == ts[i]);
            }
            assert(db.contains_key(ts[ts.len() - 1].name));
        }
    }
}

/// Bootstrapping the metadata store twice has the effect of bootstrapping it
/// once: every metadata table is present afterwards, and no table that
/// existed before, nor any of its rows, is changed.
pub proof fn lemma_bootstrap_idempotent(db: Tables)
    ensures
        run_creates(run_creates(db, metadata_tables_spec()), metadata_tables_spec()) == run_creates(
            db,
            metadata_tables_spec(),
        ),
        forall|i: int|
            0 <= i < metadata_tables_spec().len() ==> run_creates(db, metadata_tables_spec()).contains_key(
                #[trigger] metadata_tables_spec()[i].name,
            ),
        forall|n: Seq<char>|
            db.contains_key(n) ==> #[trigger] run_creates(db, metadata_tables_spec())[n] == db[n],
{
    let once = run_creates(db, metadata_tables_spec());
    lemma_run_creates(db, metadata_tables_spec());
    lemma_run_creates(once, metadata_tables_spec());
}

} // verus!
