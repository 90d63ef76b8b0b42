use vstd::prelude::*;

verus! {

/// The fixed statements that the store sends; their parameters are bound
/// in the order given by each statement's `$n` placeholders.
#[derive(Clone, Copy, Debug, PartialEq, Eq, Structural)]
pub enum Query {
    InsertType,
    InsertTypeName,
    InsertField,
    InsertFieldName,
    InsertLabel,
    SelectTypes,
    SelectFields,
    SelectLabels,
    DeleteType,
}

impl Query {
    /// The SQL text of the statement.
    pub open spec fn text(self) -> Seq<char> {
        match self {
            Query::InsertType => "INSERT INTO types (backing_table) VALUES ($1) RETURNING *"@,
            Query::InsertTypeName => "INSERT INTO type_names (type_id, name) VALUES ($1, $2)"@,
            Query::InsertField => "INSERT INTO fields (field_type, type_id) VALUES ($1, $2) RETURNING *"@,
            Query::InsertFieldName => "INSERT INTO field_names (field_name, field_id) VALUES ($1, $2)"@,
            Query::InsertLabel => "INSERT INTO field_labels (label_name, field_id) VALUES ($1, $2)"@,
            Query::SelectTypes => "SELECT types.type_id AS type_id, types.backing_table AS backing_table, type_names.name AS type_name FROM types INNER JOIN type_names WHERE types.type_id = type_names.type_id"@,
            Query::SelectFields => "SELECT fields.field_id AS field_id, field_names.field_name AS field_name, fields.field_type AS field_type FROM field_names INNER JOIN fields WHERE fields.type_id = $1 AND field_names.field_id = fields.field_id;"@,
            Query::SelectLabels => "SELECT label_name FROM field_labels WHERE field_id = $1"@,
            Query::DeleteType => "DELETE FROM types WHERE type_id = (SELECT type_id FROM type_names WHERE name = $1)"@,
        }
    }

    pub fn sql(&self) -> (r: &'static str)
        ensures
            r@ == self.text(),
    {
        proof {
            reveal_strlit("INSERT INTO types (backing_table) VALUES ($1) RETURNING *");
            reveal_strlit("INSERT INTO type_names (type_id, name) VALUES ($1, $2)");
            reveal_strlit("INSERT INTO fields (field_type, type_id) VALUES ($1, $2) RETURNING *");
            reveal_strlit("INSERT INTO field_names (field_name, field_id) VALUES ($1, $2)");
            reveal_strlit("INSERT INTO field_labels (label_name, field_id) VALUES ($1, $2)");
            reveal_strlit("SELECT types.type_id AS type_id, types.backing_table AS backing_table, type_names.name AS type_name FROM types INNER JOIN type_names WHERE types.type_id = type_names.type_id");
            reveal_strlit("SELECT fields.field_id AS field_id, field_names.field_name AS field_name, fields.field_type AS field_type FROM field_names INNER JOIN fields WHERE fields.type_id = $1 AND field_names.field_id = fields.field_id;");
            reveal_strlit("SELECT label_name FROM field_labels WHERE field_id = $1");
            reveal_strlit("DELETE FROM types WHERE type_id = (SELECT type_id FROM type_names WHERE name = $1)");
        }
        match self {
            Query::InsertType => "INSERT INTO types (backing_table) VALUES ($1) RETURNING *",
            Query::InsertTypeName => "INSERT INTO type_names (type_id, name) VALUES ($1, $2)",
            Query::InsertField => "INSERT INTO fields (field_type, type_id) VALUES ($1, $2) RETURNING *",
            Query::InsertFieldName => "INSERT INTO field_names (field_name, field_id) VALUES ($1, $2)",
            Query::InsertLabel => "INSERT INTO field_labels (label_name, field_id) VALUES ($1, $2)",
            Query::SelectTypes => "SELECT types.type_id AS type_id, types.backing_table AS backing_table, type_names.name AS type_name FROM types INNER JOIN type_names WHERE types.type_id = type_names.type_id",
            Query::SelectFields => "SELECT fields.field_id AS field_id, field_names.field_name AS field_name, fields.field_type AS field_type FROM field_names INNER JOIN fields WHERE fields.type_id = $1 AND field_names.field_id = fields.field_id;",
            Query::SelectLabels => "SELECT label_name FROM field_labels WHERE field_id = $1",
            Query::DeleteType => "DELETE FROM types WHERE type_id = (SELECT type_id FROM type_names WHERE name = $1)",
        }
    }

}

/// A parameter bound to a statement.
pub enum Arg {
    Int(i32),
    Text(String),
}

pub enum ArgView {
    Int(i32),
    Text(Seq<char>),
}

impl View for Arg {
    type V = ArgView;

    open spec fn view(&self) -> ArgView {
        match self {
            Arg::Int(i) => ArgView::Int(*i),
            Arg::Text(s) => ArgView::Text(s@),
        }
    }
}

/// A statement with its parameters.
pub struct Stmt {
    pub sql: String,
    pub args: Vec<Arg>,
}

pub struct StmtView {
    pub sql: Seq<char>,
    pub args: Seq<ArgView>,
}

impl View for Stmt {
    type V = StmtView;

    open spec fn view(&self) -> StmtView {
        StmtView { sql: self.sql@, args: self.args@.map_values(|a: Arg| a@) }
    }
}

pub fn stmt1(query: Query, a: Arg) -> (r: Stmt)
    ensures
        r@ == (StmtView { sql: query.text(), args: seq![a@] }),
{
    let ghost av = a@;
    let r = Stmt { sql: query.sql().to_string(), args: vec![a] };
    assert(r@.args =~= seq![av]);
    r
}

pub fn stmt2(query: Query, a: Arg, b: Arg) -> (r: Stmt)
    ensures
        r@ == (StmtView { sql: query.text(), args: seq![a@, b@] }),
{
    let ghost av = a@;
    let ghost bv = b@;
    let r = Stmt { sql: query.sql().to_string(), args: vec![a, b] };
    assert(r@.args =~= seq![av, bv]);
    r
}

} // verus!
