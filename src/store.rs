use vstd::prelude::*;
use vstd::string::StringExecFns;

use crate::define::{Action, DefineType, Event, Pool, meta_steps};
use crate::error::StoreError;
use crate::schema::{
    backing_table_spec, create_table_sql, create_table_statement, metadata_tables,
    metadata_tables_spec, Dialect, TableSpec,
};
use crate::stmt::{stmt1, Arg, ArgView, Query, Stmt, StmtView};
use crate::load::{assemble_type_system, records_view, replay, LoadOutcome, TypeRecord};
use crate::types::{ObjectType, TypeSystem, TypeSystemError};

verus! {

/// A store over a metadata database and a data database, each with the SQL
/// dialect chosen when its connection string was parsed.
pub struct Store {
    pub meta: Dialect,
    pub data: Dialect,
}

/// The statement that adds a row, whose payload is bound as `$1`, to a
/// backing table.
pub open spec fn insert_row_sql(table: Seq<char>) -> Seq<char> {
    "INSERT INTO "@ + table + "(fields) VALUES ($1)"@
}

/// The query that reads every row of a backing table.
pub open spec fn select_all_sql(table: Seq<char>) -> Seq<char> {
    "SELECT * FROM "@ + table
}

fn copy_arg(a: &Arg) -> (r: Arg)
    ensures
        r@ == a@,
{
    match a {
        Arg::Int(i) => Arg::Int(*i),
        Arg::Text(s) => Arg::Text(s.clone()),
    }
}

fn copy_stmt(s: &Stmt) -> (r: Stmt)
    ensures
        r@ == s@,
{
    let mut args: Vec<Arg> = Vec::new();
    let mut i: usize = 0;
    while i < s.args.len()
        invariant
            i <= s.args.len(),
            args@.map_values(|a: Arg| a@) == s@.args.take(i as int),
        decreases s.args.len() - i,
    {
        let ghost before = args@.map_values(|a: Arg| a@);
        args.push(copy_arg(&s.args[i]));
        assert(args@.map_values(|a: Arg| a@) =~= before.push(s.args@[i as int]@));
        assert(s@.args.take(i + 1) =~= s@.args.take(i as int).push(s.args@[i as int]@));
        i = i + 1;
    }
    assert(s@.args.take(i as int) =~= s@.args);
    Stmt { sql: s.sql.clone(), args }
}

/// Where a one-statement transaction stands.
#[derive(Clone, Copy, Debug, PartialEq, Eq, Structural)]
pub enum TransactPhase {
    Start,
    Begin,
    Execute,
    Commit,
    Finished,
}

/// The workflow that runs one statement in its own transaction.
pub struct Transact {
    pool: Pool,
    stmt: Stmt,
    phase: TransactPhase,
}

pub struct TransactView {
    pub pool: Pool,
    pub stmt: StmtView,
    pub phase: TransactPhase,
}

impl View for Transact {
    type V = TransactView;

    closed spec fn view(&self) -> TransactView {
        TransactView { pool: self.pool, stmt: self.stmt@, phase: self.phase }
    }
}

impl Transact {
    pub fn new(pool: Pool, stmt: Stmt) -> (r: Transact)
        ensures
            r@ == (TransactView { pool, stmt: stmt@, phase: TransactPhase::Start }),
    {
        Transact { pool, stmt, phase: TransactPhase::Start }
    }

    pub fn is_finished(&self) -> (r: bool)
        ensures
            r == (self@.phase is Finished),
    {
        self.phase == TransactPhase::Finished
    }

    /// Takes the outcome of the last action and says what to do next.
    pub fn next(&mut self, ev: Event) -> (r: Action)
        requires
            !(old(self)@.phase is Finished),
            !(ev is Id),
            old(self)@.phase is Start ==> ev is Done,
        ensures
            final(self)@.pool == old(self)@.pool,
            final(self)@.stmt == old(self)@.stmt,
            old(self)@.phase is Start ==> r == Action::Begin(old(self)@.pool) && final(self)@.phase is Begin,
            ev is Done && old(self)@.phase is Begin ==> (r matches Action::Execute(s) && s@
                == old(self)@.stmt) && final(self)@.phase is Execute,
            ev is Done && old(self)@.phase is Execute ==> r == Action::Commit && final(self)@.phase is Commit,
            ev is Done && old(self)@.phase is Commit ==> (r matches Action::Finish(Ok(())))
                && final(self)@.phase is Finished,
            ev matches Event::Failed(e) ==> final(self)@.phase is Finished && (
                if old(self)@.phase is Begin {
                    r matches Action::Finish(Err(StoreError::ConnectionFailed(e2))) && e2 == e
                } else {
                    r matches Action::Finish(Err(StoreError::ExecuteFailed(e2))) && e2 == e
                }),
    {
        match ev {
            Event::Failed(e) => {
                let begin = self.phase == TransactPhase::Begin;
                self.phase = TransactPhase::Finished;
                if begin {
                    Action::Finish(Err(StoreError::ConnectionFailed(e)))
                } else {
                    Action::Finish(Err(StoreError::ExecuteFailed(e)))
                }
            },
            _ => match self.phase {
                TransactPhase::Start => {
                    self.phase = TransactPhase::Begin;
                    Action::Begin(self.pool)
                },
                TransactPhase::Begin => {
                    self.phase = TransactPhase::Execute;
                    Action::Execute(copy_stmt(&self.stmt))
                },
                TransactPhase::Execute => {
                    self.phase = TransactPhase::Commit;
                    Action::Commit
                },
                _ => {
                    self.phase = TransactPhase::Finished;
                    Action::Finish(Ok(()))
                },
            },
        }
    }
}

impl Store {
    pub fn new(meta: Dialect, data: Dialect) -> (r: Store)
        ensures
            r.meta == meta,
            r.data == data,
    {
        Store { meta, data }
    }

    /// The statements that create the metadata tables, in the metadata
    /// dialect, each run on its own.
    pub fn create_schema(&self) -> (r: Vec<String>)
        ensures
            r@.len() == metadata_tables_spec().len(),
            forall|i: int|
                0 <= i < r@.len() ==> #[trigger] r@[i]@ == create_table_sql(
                    self.meta,
                    metadata_tables_spec()[i],
                ),
    {
        let tables = metadata_tables();
        let mut out: Vec<String> = Vec::new();
        let mut i: usize = 0;
        while i < tables.len()
            invariant
                i <= tables.len(),
                tables@.map_values(|t: TableSpec| t@) == metadata_tables_spec(),
                out@.len() == i,
                forall|k: int|
                    0 <= k < i ==> #[trigger] out@[k]@ == create_table_sql(
                        self.meta,
                        metadata_tables_spec()[k],
                    ),
            decreases tables.len() - i,
        {
            assert(tables@[i as int]@ == metadata_tables_spec()[i as int]);
            out.push(create_table_statement(self.meta, &tables[i]));
            i = i + 1;
        }
        out
    }

    /// The workflow that defines `ty`: its metadata rows, then its backing
    /// table in the data dialect.
    pub fn insert(&self, ty: &ObjectType) -> (r: DefineType)
        ensures
            r@.steps == meta_steps(ty@),
            r@.pos == 0,
            r@.phase is Start,
            r@.table_sql == create_table_sql(self.data, backing_table_spec(ty@.backing_table)),
            r@.wf(),
    {
        DefineType::new(ty, self.data)
    }

    /// The workflow that deletes the `types` row of the type named
    /// `name`. Its fields, labels and backing table stay.
    pub fn remove(&self, name: &String) -> (r: Transact)
        ensures
            r@ == (TransactView {
                pool: Pool::Meta,
                stmt: StmtView { sql: Query::DeleteType.text(), args: seq![ArgView::Text(name@)] },
                phase: TransactPhase::Start,
            }),
    {
        Transact::new(Pool::Meta, stmt1(Query::DeleteType, Arg::Text(name.clone())))
    }

    /// The workflow that adds a row with payload `val` to the backing table
    /// of `ty`; the payload is bound, never spliced into the SQL text.
    pub fn add_row(&self, ty: &ObjectType, val: String) -> (r: Transact)
        ensures
            r@ == (TransactView {
                pool: Pool::Data,
                stmt: StmtView { sql: insert_row_sql(ty@.backing_table), args: seq![ArgView::Text(val@)] },
                phase: TransactPhase::Start,
            }),
    {
        let mut sql = "INSERT INTO ".to_string();
        sql.append(ty.backing_table.as_str());
        sql.append("(fields) VALUES ($1)");
        proof {
            reveal_strlit("INSERT INTO ");
            reveal_strlit("(fields) VALUES ($1)");
        }
        let ghost v = val@;
        let args = vec![Arg::Text(val)];
        assert(args@.map_values(|a: Arg| a@) =~= seq![ArgView::Text(v)]);
        Transact::new(Pool::Data, Stmt { sql, args })
    }

    /// Rebuilds the type system from the records that the metadata queries
    /// returned, in the order in which they came; an inconsistency fails the
    /// whole load.
    pub fn load_type_system(&self, records: &Vec<TypeRecord>) -> (r: Result<TypeSystem, StoreError>)
        ensures
            match replay(records_view(records@)) {
                LoadOutcome::Loaded(s) => r matches Ok(ts) && ts@ == s && ts.wf(),
                LoadOutcome::Unknown(n) => r matches Err(StoreError::TypeError(
                    TypeSystemError::NoSuchType(m),
                )) && m@ == n,
                LoadOutcome::Duplicate(n) => r matches Err(StoreError::TypeError(
                    TypeSystemError::TypeAlreadyExists(m),
                )) && m@ == n,
            },
    {
        match assemble_type_system(records) {
            Ok(ts) => Ok(ts),
            Err(e) => Err(StoreError::TypeError(e)),
        }
    }

    /// The query that streams every row of the backing table of `ty` from
    /// the data store.
    pub fn find_all(&self, ty: &ObjectType) -> (r: String)
        ensures
            r@ == select_all_sql(ty@.backing_table),
    {
        let mut sql = "SELECT * FROM ".to_string();
        sql.append(ty.backing_table.as_str());
        proof {
            reveal_strlit("SELECT * FROM ");
        }
        sql
    }
}

} // verus!
