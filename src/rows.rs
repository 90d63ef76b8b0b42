use vstd::prelude::*;

use crate::define::{field_steps, label_steps, StepView};
use crate::load::{first_unknown, replay, LoadOutcome};
use crate::types::{known_in, FieldView, ObjectTypeView};

verus! {

/// The rows of the metadata store, table by table, in insertion order.
pub struct MetaRows {
    /// `types(type_id, backing_table)`
    pub types: Seq<(i32, Seq<char>)>,
    /// `type_names(type_id, name)`
    pub type_names: Seq<(i32, Seq<char>)>,
    /// `fields(field_id, field_type, type_id)`
    pub fields: Seq<(i32, Seq<char>, i32)>,
    /// `field_names(field_id, field_name)`
    pub field_names: Seq<(i32, Seq<char>)>,
    /// `field_labels(field_id, label_name)`
    pub field_labels: Seq<(i32, Seq<char>)>,
}

/// The `field_labels` rows of fields `fs`, whose ids are `ids`.
pub open spec fn label_rows(fs: Seq<FieldView>, ids: Seq<i32>) -> Seq<(i32, Seq<char>)>
    decreases fs.len(),
{
    if fs.len() == 0 {
        Seq::empty()
    } else {
        label_rows(fs.drop_last(), ids) + tagged(ids[fs.len() - 1], fs.last().labels)
    }
}

pub open spec fn tagged(id: i32, labels: Seq<Seq<char>>) -> Seq<(i32, Seq<char>)> {
    labels.map_values(|l: Seq<char>| (id, l))
}

/// The rows that defining `ty` inserts, where the database hands out
/// `type_id` for the type and `field_ids` for its fields, in order.
pub open spec fn rows_of(ty: ObjectTypeView, type_id: i32, field_ids: Seq<i32>) -> MetaRows {
    MetaRows {
        types: seq![(type_id, ty.backing_table)],
        type_names: seq![(type_id, ty.name)],
        fields: Seq::new(ty.fields.len(), |k: int| (field_ids[k], ty.fields[k].field_type, type_id)),
        field_names: Seq::new(ty.fields.len(), |k: int| (field_ids[k], ty.fields[k].name)),
        field_labels: label_rows(ty.fields, field_ids),
    }
}

/// The row that the statement of step `s` inserts, where `type_id` and
/// `field_id` are the ids of the type and of the field it belongs to.
pub open spec fn insert_step(db: MetaRows, s: StepView, type_id: i32, field_id: i32) -> MetaRows {
    match s {
        StepView::Type(b) => MetaRows { types: db.types.push((type_id, b)), ..db },
        StepView::TypeName(n) => MetaRows { type_names: db.type_names.push((type_id, n)), ..db },
        StepView::Field(t) => MetaRows { fields: db.fields.push((field_id, t, type_id)), ..db },
        StepView::FieldName(n) => MetaRows { field_names: db.field_names.push((field_id, n)), ..db },
        StepView::Label(l) => MetaRows { field_labels: db.field_labels.push((field_id, l)), ..db },
    }
}

/// The rows that the statements of `steps` insert, one after another.
pub open spec fn insert_steps(db: MetaRows, steps: Seq<StepView>, type_id: i32, field_id: i32) -> MetaRows
    decreases steps.len(),
{
    if steps.len() == 0 {
        db
    } else {
        insert_step(insert_steps(db, steps.drop_last(), type_id, field_id), steps.last(), type_id, field_id)
    }
}

/// The rows that defining the fields `fs` inserts, field `k` getting id `ids[k]`.
pub open spec fn insert_fields(db: MetaRows, fs: Seq<FieldView>, type_id: i32, ids: Seq<i32>) -> MetaRows
    decreases fs.len(),
{
    if fs.len() == 0 {
        db
    } else {
        insert_steps(insert_fields(db, fs.drop_last(), type_id, ids), field_steps(fs.last()), type_id, ids[fs.len() - 1])
    }
}

pub open spec fn empty_rows() -> MetaRows {
    MetaRows {
        types: Seq::empty(),
        type_names: Seq::empty(),
        fields: Seq::empty(),
        field_names: Seq::empty(),
        field_labels: Seq::empty(),
    }
}

/// The rows that the define workflow inserts into an empty metadata store
/// for `ty`: its `types` and `type_names` rows with the id handed back for
/// the type, then each field's rows with the id handed back for that field.
pub open spec fn defined_rows(ty: ObjectTypeView, type_id: i32, field_ids: Seq<i32>) -> MetaRows {
    let head = insert_step(
        insert_step(empty_rows(), StepView::Type(ty.backing_table), type_id, 0),
        StepView::TypeName(ty.name),
        type_id,
        0,
    );
    insert_fields(head, ty.fields, type_id, field_ids)
}

proof fn lemma_insert_labels(db: MetaRows, labels: Seq<Seq<char>>, type_id: i32, field_id: i32)
    ensures
        insert_steps(db, label_steps(labels), type_id, field_id) == (MetaRows {
            field_labels: db.field_labels + tagged(field_id, labels),
            ..db
        }),
    decreases labels.len(),
{
    if labels.len() == 0 {
        assert(db.field_labels + tagged(field_id, labels) =~= db.field_labels);
    } else {
        assert(label_steps(labels).drop_last() =~= label_steps(labels.drop_last()));
        lemma_insert_labels(db, labels.drop_last(), type_id, field_id);
        assert(db.field_labels + tagged(field_id, labels) =~= (db.field_labels + tagged(
            field_id,
            labels.drop_last(),
        )).push((field_id, labels.last())));
    }
}

proof fn lemma_insert_field(db: MetaRows, f: FieldView, type_id: i32, field_id: i32)
    ensures
        insert_steps(db, field_steps(f), type_id, field_id) == (MetaRows {
            fields: db.fields.push((field_id, f.field_type, type_id)),
            field_names: db.field_names.push((field_id, f.name)),
            field_labels: db.field_labels + tagged(field_id, f.labels),
            ..db
        }),
    decreases f.labels.len() + 2,
{
    let two = seq![StepView::Field(f.field_type), StepView::FieldName(f.name)];
    lemma_insert_steps_concat(db, two, label_steps(f.labels), type_id, field_id);
    let one = two.drop_last();
    assert(one =~= seq![StepView::Field(f.field_type)]);
    assert(one.drop_last() =~= Seq::<StepView>::empty());
    assert(insert_steps(db, one.drop_last(), type_id, field_id) == db);
    assert(insert_steps(db, one, type_id, field_id) == insert_step(db, StepView::Field(f.field_type), type_id, field_id));
    let mid = insert_steps(db, two, type_id, field_id);
    assert(mid == insert_step(
        insert_step(db, StepView::Field(f.field_type), type_id, field_id),
        StepView::FieldName(f.name),
        type_id,
        field_id,
    ));
    assert(field_steps(f) == two + label_steps(f.labels));
    lemma_insert_labels(mid, f.labels, type_id, field_id);
}

proof fn lemma_insert_steps_concat(db: MetaRows, a: Seq<StepView>, b: Seq<StepView>, type_id: i32, field_id: i32)
    ensures
        insert_steps(db, a + b, type_id, field_id) == insert_steps(insert_steps(db, a, type_id, field_id), b, type_id, field_id),
    decreases b.len(),
{
    if b.len() == 0 {
        assert(a + b =~= a);
    } else {
        assert((a + b).drop_last() =~= a + b.drop_last());
        lemma_insert_steps_concat(db, a, b.drop_last(), type_id, field_id);
    }
}

proof fn lemma_insert_fields(db: MetaRows, fs: Seq<FieldView>, type_id: i32, ids: Seq<i32>)
    requires
        fs.len() <= ids.len(),
        db.fields.len() == 0,
        db.field_names.len() == 0,
        db.field_labels.len() == 0,
    ensures
        insert_fields(db, fs, type_id, ids) == (MetaRows {
            fields: Seq::new(fs.len(), |k: int| (ids[k], fs[k].field_type, type_id)),
            field_names: Seq::new(fs.len(), |k: int| (ids[k], fs[k].name)),
            field_labels: label_rows(fs, ids),
            ..db
        }),
    decreases fs.len(),
{
    if fs.len() == 0 {
        assert(Seq::new(fs.len(), |k: int| (ids[k], fs[k].field_type, type_id)) =~= db.fields);
        assert(Seq::new(fs.len(), |k: int| (ids[k], fs[k].name)) =~= db.field_names);
        assert(label_rows(fs, ids) =~= db.field_labels);
    } else {
        let n = fs.len() - 1;
        lemma_insert_fields(db, fs.drop_last(), type_id, ids);
        let prev = insert_fields(db, fs.drop_last(), type_id, ids);
        lemma_insert_field(prev, fs.last(), type_id, ids[n]);
        assert(Seq::new(fs.drop_last().len(), |k: int| (ids[k], fs.drop_last()[k].field_type, type_id)).push(
            (ids[n], fs.last().field_type, type_id),
        ) =~= Seq::new(fs.len(), |k: int| (ids[k], fs[k].field_type, type_id)));
        assert(Seq::new(fs.drop_last().len(), |k: int| (ids[k], fs.drop_last()[k].name)).push(
            (ids[n], fs.last().name),
        ) =~= Seq::new(fs.len(), |k: int| (ids[k], fs[k].name)));
    }
}

/// The define workflow's statements insert exactly `rows_of` into an empty
/// metadata store.
pub proof fn lemma_defined_rows(ty: ObjectTypeView, type_id: i32, field_ids: Seq<i32>)
    requires
        field_ids.len() == ty.fields.len(),
    ensures
        defined_rows(ty, type_id, field_ids) == rows_of(ty, type_id, field_ids),
{
    let head = insert_step(
        insert_step(empty_rows(), StepView::Type(ty.backing_table), type_id, 0),
        StepView::TypeName(ty.name),
        type_id,
        0,
    );
    lemma_insert_fields(head, ty.fields, type_id, field_ids);
    assert(head.types =~= seq![(type_id, ty.backing_table)]);
    assert(head.type_names =~= seq![(type_id, ty.name)]);
}

/// The second column of the rows whose first column is `id`.
pub open spec fn values_for(rows: Seq<(i32, Seq<char>)>, id: i32) -> Seq<Seq<char>>
    decreases rows.len(),
{
    if rows.len() == 0 {
        Seq::empty()
    } else if rows.last().0 == id {
        values_for(rows.drop_last(), id).push(rows.last().1)
    } else {
        values_for(rows.drop_last(), id)
    }
}

/// The `fields` rows that belong to type `type_id`.
pub open spec fn fields_for(rows: Seq<(i32, Seq<char>, i32)>, type_id: i32) -> Seq<(i32, Seq<char>, i32)>
    decreases rows.len(),
{
    if rows.len() == 0 {
        Seq::empty()
    } else if rows.last().2 == type_id {
        fields_for(rows.drop_last(), type_id).push(rows.last())
    } else {
        fields_for(rows.drop_last(), type_id)
    }
}

/// What the loader's queries read back for type `type_id`: the joined
/// `types` and `type_names` rows, the joined `fields` and `field_names` rows
/// of the type, and the labels of each field.
pub open spec fn read_back(db: MetaRows, type_id: i32) -> ObjectTypeView {
    ObjectTypeView {
        name: values_for(db.type_names, type_id)[0],
        backing_table: values_for(db.types, type_id)[0],
        fields: fields_for(db.fields, type_id).map_values(
            |r: (i32, Seq<char>, i32)|
                FieldView {
                    name: values_for(db.field_names, r.0)[0],
                    field_type: r.1,
                    labels: values_for(db.field_labels, r.0),
                },
        ),
    }
}

proof fn lemma_values_for_concat(a: Seq<(i32, Seq<char>)>, b: Seq<(i32, Seq<char>)>, id: i32)
    ensures
        values_for(a + b, id) == values_for(a, id) + values_for(b, id),
    decreases b.len(),
{
    if b.len() == 0 {
        assert(a + b =~= a);
        assert(values_for(a, id) + values_for(b, id) =~= values_for(a, id));
    } else {
        assert((a + b).drop_last() =~= a + b.drop_last());
        assert((a + b).last() == b.last());
        lemma_values_for_concat(a, b.drop_last(), id);
        if b.last().0 == id {
            assert(values_for(a, id) + values_for(b, id) =~= (values_for(a, id) + values_for(
                b.drop_last(),
                id,
            )).push(b.last().1));
        }
    }
}

proof fn lemma_values_for_tagged(x: i32, labels: Seq<Seq<char>>, id: i32)
    ensures
        values_for(tagged(x, labels), id) == if x == id {
            labels
        } else {
            Seq::empty()
        },
    decreases labels.len(),
{
    if labels.len() > 0 {
        assert(tagged(x, labels).drop_last() =~= tagged(x, labels.drop_last()));
        lemma_values_for_tagged(x, labels.drop_last(), id);
        if x == id {
            assert(labels.drop_last().push(labels.last()) =~= labels);
        }
    } else {
        assert(tagged(x, labels) =~= Seq::<(i32, Seq<char>)>::empty());
        assert(labels =~= Seq::<Seq<char>>::empty());
    }
}

proof fn lemma_labels_read_back(fs: Seq<FieldView>, ids: Seq<i32>, k: int)
    requires
        fs.len() <= ids.len(),
        ids.no_duplicates(),
        0 <= k < ids.len(),
    ensures
        values_for(label_rows(fs, ids), ids[k]) == if k < fs.len() {
            fs[k].labels
        } else {
            Seq::empty()
        },
    decreases fs.len(),
{
    if fs.len() > 0 {
        let n = fs.len() - 1;
        lemma_labels_read_back(fs.drop_last(), ids, k);
        lemma_values_for_concat(label_rows(fs.drop_last(), ids), tagged(ids[n], fs.last().labels), ids[k]);
        lemma_values_for_tagged(ids[n], fs.last().labels, ids[k]);
        assert(values_for(label_rows(fs, ids), ids[k]) =~= values_for(label_rows(fs.drop_last(), ids), ids[k])
            + values_for(tagged(ids[n], fs.last().labels), ids[k]));
    } else {
        assert(label_rows(fs, ids) =~= Seq::<(i32, Seq<char>)>::empty());
    }
}

proof fn lemma_names_read_back(names: Seq<Seq<char>>, ids: Seq<i32>, k: int)
    requires
        names.len() <= ids.len(),
        ids.no_duplicates(),
        0 <= k < ids.len(),
    ensures
        values_for(Seq::new(names.len(), |j: int| (ids[j], names[j])), ids[k]) == if k < names.len() {
            seq![names[k]]
        } else {
            Seq::empty()
        },
    decreases names.len(),
{
    let rows = Seq::new(names.len(), |j: int| (ids[j], names[j]));
    if names.len() > 0 {
        let n = names.len() - 1;
        lemma_names_read_back(names.drop_last(), ids, k);
        assert(rows.drop_last() =~= Seq::new(names.drop_last().len(), |j: int| (ids[j], names.drop_last()[j])));
        if k == n {
            assert(values_for(rows, ids[k]) =~= seq![names[k]]);
        }
    } else {
        assert(rows =~= Seq::<(i32, Seq<char>)>::empty());
    }
}

proof fn lemma_fields_for_all(rows: Seq<(i32, Seq<char>, i32)>, type_id: i32)
    requires
        forall|i: int| 0 <= i < rows.len() ==> (#[trigger] rows[i]).2 == type_id,
    ensures
        fields_for(rows, type_id) == rows,
    decreases rows.len(),
{
    if rows.len() > 0 {
        assert forall|i: int| 0 <= i < rows.drop_last().len() implies (#[trigger] rows.drop_last()[i]).2
            == type_id by {
            assert(rows.drop_last()[i] == rows[i]);
        }
        lemma_fields_for_all(rows.drop_last(), type_id);
        assert(rows.drop_last().push(rows.last()) =~= rows);
    } else {
        assert(rows =~= Seq::<(i32, Seq<char>, i32)>::empty());
    }
}

/// Reading a defined type back from the rows its definition inserted gives
/// the type itself: the same name and backing table, and the same fields in
/// the same order, each with the same field type and labels. Replayed after
/// the types it refers to, it is registered as it was defined. The ids handed
/// out for the fields must be distinct, as generated keys are.
pub proof fn lemma_round_trip(
    ty: ObjectTypeView,
    type_id: i32,
    field_ids: Seq<i32>,
    earlier: Seq<ObjectTypeView>,
)
    requires
        field_ids.len() == ty.fields.len(),
        field_ids.no_duplicates(),
    ensures
        read_back(defined_rows(ty, type_id, field_ids), type_id) == ty,
        ({
            let s = replay(earlier)->Loaded_0;
            replay(earlier) is Loaded && first_unknown(s, ty.fields) is None && !known_in(s, ty.name)
                ==> replay(earlier.push(read_back(defined_rows(ty, type_id, field_ids), type_id)))
                == LoadOutcome::Loaded(s.push(ty))
        }),
{
    lemma_defined_rows(ty, type_id, field_ids);
    lemma_rows_read_back(ty, type_id, field_ids);
    assert(earlier.push(ty).drop_last() =~= earlier);
}

proof fn lemma_rows_read_back(ty: ObjectTypeView, type_id: i32, field_ids: Seq<i32>)
    requires
        field_ids.len() == ty.fields.len(),
        field_ids.no_duplicates(),
    ensures
        read_back(rows_of(ty, type_id, field_ids), type_id) == ty,
{
    let db = rows_of(ty, type_id, field_ids);
    let r = read_back(db, type_id);
    assert(db.type_names.drop_last() =~= Seq::<(i32, Seq<char>)>::empty());
    assert(db.types.drop_last() =~= Seq::<(i32, Seq<char>)>::empty());
    assert(values_for(Seq::<(i32, Seq<char>)>::empty(), type_id) == Seq::<Seq<char>>::empty());
    assert(db.type_names.last() == (type_id, ty.name));
    assert(db.types.last() == (type_id, ty.backing_table));
    assert(values_for(db.type_names, type_id) =~= seq![ty.name]);
    assert(values_for(db.types, type_id) =~= seq![ty.backing_table]);
    assert(r.name == ty.name);
    assert(r.backing_table == ty.backing_table);
    lemma_fields_for_all(db.fields, type_id);
    let names = ty.fields.map_values(|f: FieldView| f.name);
    assert(db.field_names =~= Seq::new(names.len(), |j: int| (field_ids[j], names[j])));
    assert(r.fields.len() == ty.fields.len());
    assert forall|k: int| 0 <= k < ty.fields.len() implies #[trigger] r.fields[k] == ty.fields[k] by {
        lemma_names_read_back(names, field_ids, k);
        lemma_labels_read_back(ty.fields, field_ids, k);
        assert(db.fields[k] == (field_ids[k], ty.fields[k].field_type, type_id));
        assert(names[k] == ty.fields[k].name);
    }
    assert(r.fields =~= ty.fields);
}

} // verus!
