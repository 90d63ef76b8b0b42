use vstd::prelude::*;

use crate::error::StoreError;
use crate::schema::{backing_table, backing_table_spec, create_table_sql, create_table_statement, Dialect};
use crate::stmt::{stmt1, stmt2, Arg, ArgView, Query, Stmt, StmtView};
use crate::types::{Field, FieldView, ObjectType, ObjectTypeView};

verus! {

/// One row written to the metadata store when a type is defined.
pub enum Step {
    /// A `types` row with this backing table; yields the type id.
    Type(String),
    /// The `type_names` row with this name, for the last type id.
    TypeName(String),
    /// A `fields` row of this field type, for the last type id; yields the field id.
    Field(String),
    /// The `field_names` row with this name, for the last field id.
    FieldName(String),
    /// A `field_labels` row with this label, for the last field id.
    Label(String),
}

pub enum StepView {
    Type(Seq<char>),
    TypeName(Seq<char>),
    Field(Seq<char>),
    FieldName(Seq<char>),
    Label(Seq<char>),
}

impl View for Step {
    type V = StepView;

    open spec fn view(&self) -> StepView {
        match self {
            Step::Type(s) => StepView::Type(s@),
            Step::TypeName(s) => StepView::TypeName(s@),
            Step::Field(s) => StepView::Field(s@),
            Step::FieldName(s) => StepView::FieldName(s@),
            Step::Label(s) => StepView::Label(s@),
        }
    }
}

pub open spec fn steps_view(v: Seq<Step>) -> Seq<StepView> {
    v.map_values(|s: Step| s@)
}

pub open spec fn label_steps(labels: Seq<Seq<char>>) -> Seq<StepView> {
    labels.map_values(|l: Seq<char>| StepView::Label(l))
}

/// The rows that describe one field.
pub open spec fn field_steps(f: FieldView) -> Seq<StepView> {
    seq![StepView::Field(f.field_type), StepView::FieldName(f.name)] + label_steps(f.labels)
}

pub open spec fn fields_steps(fs: Seq<FieldView>) -> Seq<StepView>
    decreases fs.len(),
{
    if fs.len() == 0 {
        Seq::empty()
    } else {
        fields_steps(fs.drop_last()) + field_steps(fs.last())
    }
}

/// The rows that describe a type, in the order in which they are written.
pub open spec fn meta_steps(ty: ObjectTypeView) -> Seq<StepView> {
    seq![StepView::Type(ty.backing_table), StepView::TypeName(ty.name)] + fields_steps(ty.fields)
}

/// The statement that writes a step, given the last type and field ids.
pub open spec fn stmt_of(s: StepView, type_id: i32, field_id: i32) -> StmtView {
    match s {
        StepView::Type(b) => StmtView { sql: Query::InsertType.text(), args: seq![ArgView::Text(b)] },
        StepView::TypeName(n) => StmtView {
            sql: Query::InsertTypeName.text(),
            args: seq![ArgView::Int(type_id), ArgView::Text(n)],
        },
        StepView::Field(t) => StmtView {
            sql: Query::InsertField.text(),
            args: seq![ArgView::Text(t), ArgView::Int(type_id)],
        },
        StepView::FieldName(n) => StmtView {
            sql: Query::InsertFieldName.text(),
            args: seq![ArgView::Text(n), ArgView::Int(field_id)],
        },
        StepView::Label(l) => StmtView {
            sql: Query::InsertLabel.text(),
            args: seq![ArgView::Text(l), ArgView::Int(field_id)],
        },
    }
}

/// Whether writing a step hands back a generated id.
pub open spec fn yields_id(s: StepView) -> bool {
    s is Type || s is Field
}

/// The column that holds the id generated by a step.
pub open spec fn id_column(s: StepView) -> Seq<char> {
    if s is Type {
        "type_id"@
    } else {
        "field_id"@
    }
}

/// Lists the metadata rows of a type in the order in which they are written.
pub fn metadata_steps(ty: &ObjectType) -> (r: Vec<Step>)
    ensures
        steps_view(r@) == meta_steps(ty@),
{
    let mut r: Vec<Step> = Vec::new();
    r.push(Step::Type(ty.backing_table.clone()));
    r.push(Step::TypeName(ty.name.clone()));
    let ghost head = seq![StepView::Type(ty@.backing_table), StepView::TypeName(ty@.name)];
    assert(steps_view(r@) =~= head + fields_steps(ty@.fields.take(0)));
    let mut i: usize = 0;
    while i < ty.fields.len()
        invariant
            i <= ty.fields.len(),
            ty@.fields.len() == ty.fields@.len(),
            steps_view(r@) == head + fields_steps(ty@.fields.take(i as int)),
        decreases ty.fields.len() - i,
    {
        let f: &Field = &ty.fields[i];
        assert(f@ == ty@.fields[i as int]);
        let ghost before = steps_view(r@);
        r.push(Step::Field(f.field_type.clone()));
        r.push(Step::FieldName(f.name.clone()));
        let ghost mid = seq![StepView::Field(f@.field_type), StepView::FieldName(f@.name)];
        assert(steps_view(r@) =~= before + mid + label_steps(f@.labels.take(0)));
        let mut j: usize = 0;
        while j < f.labels.len()
            invariant
                j <= f.labels.len(),
                f@.labels.len() == f.labels@.len(),
                steps_view(r@) == before + mid + label_steps(f@.labels.take(j as int)),
            decreases f.labels.len() - j,
        {
            let ghost before_j = steps_view(r@);
            let l = f.labels[j].clone();
            assert(l@ == f@.labels[j as int]);
            r.push(Step::Label(l));
            assert(steps_view(r@) =~= before_j.push(StepView::Label(f@.labels[j as int])));
            assert(label_steps(f@.labels.take(j + 1)) =~= label_steps(f@.labels.take(j as int)).push(
                StepView::Label(f@.labels[j as int]),
            ));
            assert(steps_view(r@) =~= before + mid + label_steps(f@.labels.take(j + 1)));
            j = j + 1;
        }
        assert(f@.labels.take(j as int) =~= f@.labels);
        assert(ty@.fields.take(i + 1).drop_last() =~= ty@.fields.take(i as int));
        assert(steps_view(r@) =~= head + fields_steps(ty@.fields.take(i + 1)));
        i = i + 1;
    }
    assert(ty@.fields.take(i as int) =~= ty@.fields);
    r
}

fn stmt_for(s: &Step, type_id: i32, field_id: i32) -> (r: Stmt)
    ensures
        r@ == stmt_of(s@, type_id, field_id),
{
    match s {
        Step::Type(b) => stmt1(Query::InsertType, Arg::Text(b.clone())),
        Step::TypeName(n) => stmt2(Query::InsertTypeName, Arg::Int(type_id), Arg::Text(n.clone())),
        Step::Field(t) => stmt2(Query::InsertField, Arg::Text(t.clone()), Arg::Int(type_id)),
        Step::FieldName(n) => stmt2(Query::InsertFieldName, Arg::Text(n.clone()), Arg::Int(field_id)),
        Step::Label(l) => stmt2(Query::InsertLabel, Arg::Text(l.clone()), Arg::Int(field_id)),
    }
}

/// Which of the two stores a transaction is opened on.
#[derive(Clone, Copy, Debug, PartialEq, Eq, Structural)]
pub enum Pool {
    Meta,
    Data,
}

/// What the caller must do next on behalf of a workflow.
pub enum Action {
    /// Open a transaction on the pool.
    Begin(Pool),
    /// Run the statement in the open transaction.
    Execute(Stmt),
    /// Run the statement in the open transaction and report the integer
    /// in the named column of the row it returns.
    FetchId(Stmt, String),
    /// Run raw SQL text in the open transaction.
    ExecuteSql(String),
    /// Commit the open transaction.
    Commit,
    /// The workflow is over, with this outcome.
    Finish(Result<(), StoreError>),
}

/// What came of the last action.
pub enum Event {
    /// It succeeded.
    Done,
    /// It succeeded and returned this generated id.
    Id(i32),
    /// The database refused it.
    Failed(sqlx::Error),
}

/// Where the define workflow stands: which transaction is being opened,
/// written or committed.
#[derive(Clone, Copy, Debug, PartialEq, Eq, Structural)]
pub enum Phase {
    Start,
    MetaBegin,
    Meta,
    MetaCommit,
    DataBegin,
    Data,
    DataCommit,
    Finished,
}

/// The workflow that defines a type: the metadata rows in one transaction
/// on the metadata store, then the backing table in one transaction on the
/// data store. The two transactions are independent: when the second fails,
/// the first stays committed.
pub struct DefineType {
    steps: Vec<Step>,
    pos: usize,
    type_id: i32,
    field_id: i32,
    phase: Phase,
    table_sql: String,
}

pub struct DefineTypeView {
    pub steps: Seq<StepView>,
    pub pos: nat,
    pub type_id: i32,
    pub field_id: i32,
    pub phase: Phase,
    pub table_sql: Seq<char>,
}

impl View for DefineType {
    type V = DefineTypeView;

    closed spec fn view(&self) -> DefineTypeView {
        DefineTypeView {
            steps: steps_view(self.steps@),
            pos: self.pos as nat,
            type_id: self.type_id,
            field_id: self.field_id,
            phase: self.phase,
            table_sql: self.table_sql@,
        }
    }
}

/// `r` runs the step with the given ids: fetching the generated id where the
/// step yields one.
pub open spec fn runs(r: &Action, s: StepView, type_id: i32, field_id: i32) -> bool {
    if yields_id(s) {
        r matches Action::FetchId(st, c) && st@ == stmt_of(s, type_id, field_id) && c@ == id_column(s)
    } else {
        r matches Action::Execute(st) && st@ == stmt_of(s, type_id, field_id)
    }
}

impl DefineTypeView {
    pub open spec fn wf(self) -> bool {
        &&& self.pos <= self.steps.len()
        &&& (self.phase is Start || self.phase is MetaBegin) ==> self.pos == 0
        &&& (self.phase is MetaCommit || self.phase is DataBegin || self.phase is Data
            || self.phase is DataCommit) ==> self.pos == self.steps.len()
        &&& self.phase is Meta ==> self.pos > 0
    }

    /// Whether the last action hands back an id.
    pub open spec fn awaits_id(self) -> bool {
        self.phase is Meta && yields_id(self.steps[self.pos - 1])
    }

    /// Whether `ev` can be the outcome of the last action.
    pub open spec fn accepts(self, ev: &Event) -> bool {
        match ev {
            Event::Failed(_) => !(self.phase is Start),
            Event::Id(_) => self.awaits_id(),
            Event::Done => !self.awaits_id(),
        }
    }

    /// The type and field ids after the outcome `ev`.
    pub open spec fn ids_after(self, ev: &Event) -> (i32, i32) {
        match ev {
            Event::Id(x) => if self.steps[self.pos - 1] is Type {
                (*x, self.field_id)
            } else {
                (self.type_id, *x)
            },
            _ => (self.type_id, self.field_id),
        }
    }

    /// Whether the metadata transaction has been committed.
    pub open spec fn metadata_committed(self) -> bool {
        self.phase is DataBegin || self.phase is Data || self.phase is DataCommit
    }
}

impl DefineType {
    /// Starts the workflow that defines `ty`, creating its backing table in
    /// dialect `data`.
    pub fn new(ty: &ObjectType, data: Dialect) -> (r: DefineType)
        ensures
            r@.steps == meta_steps(ty@),
            r@.pos == 0,
            r@.phase == Phase::Start,
            r@.table_sql == create_table_sql(data, backing_table_spec(ty@.backing_table)),
            r@.wf(),
    {
        let steps = metadata_steps(ty);
        let table = backing_table(&ty.backing_table);
        let table_sql = create_table_statement(data, &table);
        DefineType { steps, pos: 0, type_id: 0, field_id: 0, phase: Phase::Start, table_sql }
    }

    pub fn is_finished(&self) -> (r: bool)
        ensures
            r == (self@.phase is Finished),
    {
        self.phase == Phase::Finished
    }

    fn run_next(&mut self) -> (r: Action)
        requires
            old(self)@.wf(),
            old(self)@.pos < old(self)@.steps.len(),
        ensures
            runs(&r, old(self)@.steps[old(self)@.pos as int], old(self)@.type_id, old(self)@.field_id),
            final(self)@ == (DefineTypeView { pos: old(self)@.pos + 1, phase: Phase::Meta, ..old(self)@ }),
    {
        assert(self.pos < self.steps.len());
        let st = stmt_for(&self.steps[self.pos], self.type_id, self.field_id);
        proof {
            reveal_strlit("type_id");
            reveal_strlit("field_id");
        }
        let column = match &self.steps[self.pos] {
            Step::Type(_) => Some("type_id"),
            Step::Field(_) => Some("field_id"),
            _ => None,
        };
        self.pos = self.pos + 1;
        self.phase = Phase::Meta;
        match column {
            Some(c) => Action::FetchId(st, c.to_string()),
            None => Action::Execute(st),
        }
    }

    /// Takes the outcome of the last action and says what to do next.
    pub fn next(&mut self, ev: Event) -> (r: Action)
        requires
            old(self)@.wf(),
            !(old(self)@.phase is Finished),
            old(self)@.accepts(&ev),
        ensures
            final(self)@.wf(),
            final(self)@.steps == old(self)@.steps,
            final(self)@.table_sql == old(self)@.table_sql,
            // the first action opens the metadata transaction
            old(self)@.phase is Start ==> r == Action::Begin(Pool::Meta) && final(self)@.phase is MetaBegin,
            // a refusal ends the workflow: a transaction that could not be
            // opened is a connection failure, anything else an execution failure
            ev matches Event::Failed(e) ==> final(self)@.phase is Finished && (
                if old(self)@.phase is MetaBegin || old(self)@.phase is DataBegin {
                    r matches Action::Finish(Err(StoreError::ConnectionFailed(e2))) && e2 == e
                } else {
                    r matches Action::Finish(Err(StoreError::ExecuteFailed(e2))) && e2 == e
                }),
            // once the metadata is committed, a failure of the data store ends
            // the workflow with an error and nothing undoes the metadata
            old(self)@.metadata_committed() && ev is Failed ==> (r matches Action::Finish(Err(_)))
                && final(self)@.phase is Finished,
            // each metadata row is written in turn, with the ids handed back so far
            !(ev is Failed) && (old(self)@.phase is MetaBegin || old(self)@.phase is Meta) ==> ({
                let (tid, fid) = old(self)@.ids_after(&ev);
                if old(self)@.pos < old(self)@.steps.len() {
                    runs(&r, old(self)@.steps[old(self)@.pos as int], tid, fid)
                        && final(self)@.phase is Meta && final(self)@.pos == old(self)@.pos + 1
                        && final(self)@.type_id == tid && final(self)@.field_id == fid
                } else {
                    r == Action::Commit && final(self)@.phase is MetaCommit
                }
            }),
            // then the backing table, in its own transaction on the data store
            ev is Done && old(self)@.phase is MetaCommit ==> r == Action::Begin(Pool::Data)
                && final(self)@.phase is DataBegin,
            ev is Done && old(self)@.phase is DataBegin ==> (r matches Action::ExecuteSql(s) && s@
                == old(self)@.table_sql) && final(self)@.phase is Data,
            ev is Done && old(self)@.phase is Data ==> r == Action::Commit && final(self)@.phase is DataCommit,
            ev is Done && old(self)@.phase is DataCommit ==> (r matches Action::Finish(Ok(())))
                && final(self)@.phase is Finished,
    {
        match ev {
            Event::Failed(e) => {
                let begin = self.phase == Phase::MetaBegin || self.phase == Phase::DataBegin;
                self.phase = Phase::Finished;
                if begin {
                    Action::Finish(Err(StoreError::ConnectionFailed(e)))
                } else {
                    Action::Finish(Err(StoreError::ExecuteFailed(e)))
                }
            },
            Event::Id(x) => {
                if self.type_id_pending() {
                    self.type_id = x;
                } else {
                    self.field_id = x;
                }
                self.advance_meta()
            },
            Event::Done => {
                match self.phase {
                    Phase::Start => {
                        self.phase = Phase::MetaBegin;
                        Action::Begin(Pool::Meta)
                    },
                    Phase::MetaBegin => self.advance_meta(),
                    Phase::Meta => self.advance_meta(),
                    Phase::MetaCommit => {
                        self.phase = Phase::DataBegin;
                        Action::Begin(Pool::Data)
                    },
                    Phase::DataBegin => {
                        self.phase = Phase::Data;
                        Action::ExecuteSql(self.table_sql.clone())
                    },
                    Phase::Data => {
                        self.phase = Phase::DataCommit;
                        Action::Commit
                    },
                    _ => {
                        self.phase = Phase::Finished;
                        Action::Finish(Ok(()))
                    },
                }
            },
        }
    }

    fn type_id_pending(&self) -> (r: bool)
        requires
            self@.wf(),
            self@.phase is Meta,
        ensures
            r == (self@.steps[self@.pos - 1] is Type),
    {
        match &self.steps[self.pos - 1] {
            Step::Type(_) => true,
            _ => false,
        }
    }

    fn advance_meta(&mut self) -> (r: Action)
        requires
            old(self)@.wf(),
            old(self)@.phase is MetaBegin || old(self)@.phase is Meta,
        ensures
            final(self)@.wf(),
            final(self)@.steps == old(self)@.steps,
            final(self)@.table_sql == old(self)@.table_sql,
            final(self)@.type_id == old(self)@.type_id,
            final(self)@.field_id == old(self)@.field_id,
            old(self)@.pos < old(self)@.steps.len() ==> runs(
                &r,
                old(self)@.steps[old(self)@.pos as int],
                old(self)@.type_id,
                old(self)@.field_id,
            ) && final(self)@.phase is Meta && final(self)@.pos == old(self)@.pos + 1,
            old(self)@.pos >= old(self)@.steps.len() ==> r == Action::Commit
                && final(self)@.phase is MetaCommit,
    {
        if self.pos < self.steps.len() {
            self.run_next()
        } else {
            self.phase = Phase::MetaCommit;
            Action::Commit
        }
    }
}

} // verus!
