use vstd::prelude::*;

use crate::types::{
    known_in, strings_view, Field, FieldView, ObjectType, ObjectTypeView, TypeSystem,
    TypeSystemError,
};

verus! {

/// A field as read back from the metadata store: the joined `fields` and
/// `field_names` rows and the labels of its `field_labels` rows.
pub struct FieldRecord {
    pub field_id: i32,
    pub name: String,
    pub field_type: String,
    pub labels: Vec<String>,
}

/// A type as read back from the metadata store: the joined `types` and
/// `type_names` rows and the records of its fields.
pub struct TypeRecord {
    pub type_id: i32,
    pub backing_table: String,
    pub name: String,
    pub fields: Vec<FieldRecord>,
}

impl View for FieldRecord {
    type V = FieldView;

    open spec fn view(&self) -> FieldView {
        FieldView { name: self.name@, field_type: self.field_type@, labels: strings_view(self.labels@) }
    }
}

impl View for TypeRecord {
    type V = ObjectTypeView;

    open spec fn view(&self) -> ObjectTypeView {
        ObjectTypeView {
            name: self.name@,
            fields: self.fields@.map_values(|f: FieldRecord| f@),
            backing_table: self.backing_table@,
        }
    }
}

pub open spec fn records_view(v: Seq<TypeRecord>) -> Seq<ObjectTypeView> {
    v.map_values(|r: TypeRecord| r@)
}

/// The outcome of replaying type definitions in order.
pub enum LoadOutcome {
    Loaded(Seq<ObjectTypeView>),
    /// A field refers to this name, which no earlier type and no scalar has.
    Unknown(Seq<char>),
    /// A type takes this name, which is already known.
    Duplicate(Seq<char>),
}

/// The first field type of `fs` that is not known in `s`.
pub open spec fn first_unknown(s: Seq<ObjectTypeView>, fs: Seq<FieldView>) -> Option<Seq<char>>
    decreases fs.len(),
{
    if fs.len() == 0 {
        None
    } else {
        match first_unknown(s, fs.drop_last()) {
            Some(n) => Some(n),
            None => if known_in(s, fs.last().field_type) {
                None
            } else {
                Some(fs.last().field_type)
            },
        }
    }
}

/// Registers the types one after the other: each field must refer to a
/// scalar or to a type registered before, and no name may be taken twice.
pub open spec fn replay(ts: Seq<ObjectTypeView>) -> LoadOutcome
    decreases ts.len(),
{
    if ts.len() == 0 {
        LoadOutcome::Loaded(Seq::empty())
    } else {
        match replay(ts.drop_last()) {
            LoadOutcome::Loaded(s) => match first_unknown(s, ts.last().fields) {
                Some(n) => LoadOutcome::Unknown(n),
                None => if known_in(s, ts.last().name) {
                    LoadOutcome::Duplicate(ts.last().name)
                } else {
                    LoadOutcome::Loaded(s.push(ts.last()))
                },
            },
            other => other,
        }
    }
}

proof fn lemma_failure_sticks(ts: Seq<ObjectTypeView>, i: int)
    requires
        0 <= i <= ts.len(),
        !(replay(ts.take(i)) is Loaded),
    ensures
        replay(ts) == replay(ts.take(i)),
    decreases ts.len() - i,
{
    if i < ts.len() {
        assert(ts.drop_last().take(i) =~= ts.take(i));
        lemma_failure_sticks(ts.drop_last(), i);
    } else {
        assert(ts.take(i) =~= ts);
    }
}

fn load_fields(ts: &TypeSystem, rec: &TypeRecord) -> (r: Result<Vec<Field>, TypeSystemError>)
    ensures
        match first_unknown(ts@, rec@.fields) {
            Some(n) => r matches Err(TypeSystemError::NoSuchType(m)) && m@ == n,
            None => r matches Ok(v) && v@.map_values(|f: Field| f@) == rec@.fields,
        },
{
    let mut out: Vec<Field> = Vec::new();
    let mut j: usize = 0;
    while j < rec.fields.len()
        invariant
            j <= rec.fields.len(),
            rec@.fields.len() == rec.fields@.len(),
            first_unknown(ts@, rec@.fields.take(j as int)) is None,
            out@.map_values(|f: Field| f@) == rec@.fields.take(j as int),
        decreases rec.fields.len() - j,
    {
        let fr = &rec.fields[j];
        assert(fr@ == rec@.fields[j as int]);
        assert(rec@.fields.take(j + 1).drop_last() =~= rec@.fields.take(j as int));
        match ts.lookup_type(&fr.field_type) {
            Err(e) => {
                proof {
                    lemma_first_unknown_prefix(ts@, rec@.fields, j + 1);
                }
                return Err(e);
            },
            Ok(t) => {
                let ghost before = out@.map_values(|f: Field| f@);
                out.push(Field { name: fr.name.clone(), field_type: t, labels: fr.labels.clone() });
                assert(out@.map_values(|f: Field| f@) =~= before.push(fr@));
                assert(rec@.fields.take(j + 1) =~= rec@.fields.take(j as int).push(fr@));
            },
        }
        j = j + 1;
    }
    assert(rec@.fields.take(j as int) =~= rec@.fields);
    Ok(out)
}

proof fn lemma_first_unknown_prefix(s: Seq<ObjectTypeView>, fs: Seq<FieldView>, i: int)
    requires
        0 <= i <= fs.len(),
        first_unknown(s, fs.take(i)) is Some,
    ensures
        first_unknown(s, fs) == first_unknown(s, fs.take(i)),
    decreases fs.len() - i,
{
    if i < fs.len() {
        assert(fs.drop_last().take(i) =~= fs.take(i));
        lemma_first_unknown_prefix(s, fs.drop_last(), i);
    } else {
        assert(fs.take(i) =~= fs);
    }
}

/// Rebuilds the type system from the records read back from the metadata
/// store, in the order in which they were read. Nothing is returned but the
/// complete type system or the first inconsistency.
pub fn assemble_type_system(records: &Vec<TypeRecord>) -> (r: Result<TypeSystem, TypeSystemError>)
    ensures
        match replay(records_view(records@)) {
            LoadOutcome::Loaded(s) => r matches Ok(ts) && ts@ == s && ts.wf(),
            LoadOutcome::Unknown(n) => r matches Err(TypeSystemError::NoSuchType(m)) && m@ == n,
            LoadOutcome::Duplicate(n) => r matches Err(TypeSystemError::TypeAlreadyExists(m)) && m@
                == n,
        },
{
    let ghost all = records_view(records@);
    let mut ts = TypeSystem::new();
    let mut i: usize = 0;
    assert(all.take(0) =~= Seq::<ObjectTypeView>::empty());
    while i < records.len()
        invariant
            i <= records.len(),
            all == records_view(records@),
            all.len() == records@.len(),
            ts.wf(),
            replay(all.take(i as int)) == LoadOutcome::Loaded(ts@),
        decreases records.len() - i,
    {
        let rec = &records[i];
        assert(rec@ == all[i as int]);
        assert(all.take(i + 1).drop_last() =~= all.take(i as int));
        assert(all.take(i + 1).last() == rec@);
        let fields = match load_fields(&ts, rec) {
            Err(e) => {
                proof {
                    lemma_failure_sticks(all, i + 1);
                }
                return Err(e);
            },
            Ok(f) => f,
        };
        let ty = ObjectType { name: rec.name.clone(), fields, backing_table: rec.backing_table.clone() };
        assert(ty@ == rec@);
        match ts.define_type(ty) {
            Err(e) => {
                proof {
                    lemma_failure_sticks(all, i + 1);
                }
                return Err(e);
            },
            Ok(()) => {},
        }
        i = i + 1;
    }
    assert(all.take(i as int) =~= all);
    Ok(ts)
}

proof fn lemma_unknown_field_prefix(s: Seq<ObjectTypeView>, fs: Seq<FieldView>, k: int)
    requires
        0 <= k < fs.len(),
        !known_in(s, fs[k].field_type),
    ensures
        first_unknown(s, fs) is Some,
    decreases fs.len(),
{
    if k < fs.len() - 1 {
        assert(fs.drop_last()[k] == fs[k]);
        lemma_unknown_field_prefix(s, fs.drop_last(), k);
    }
}

/// A type whose field refers to a name that neither a scalar nor any type
/// read before it has makes the whole load fail: no type system is built.
pub proof fn lemma_unknown_reference_rejected(ts: Seq<ObjectTypeView>, i: int, k: int)
    requires
        0 <= i < ts.len(),
        0 <= k < ts[i].fields.len(),
        replay(ts.take(i)) is Loaded,
        !known_in(replay(ts.take(i))->Loaded_0, ts[i].fields[k].field_type),
    ensures
        replay(ts) is Unknown,
{
    let s = replay(ts.take(i))->Loaded_0;
    assert(ts.take(i + 1).drop_last() =~= ts.take(i));
    assert(ts.take(i + 1).last() == ts[i]);
    lemma_unknown_field_prefix(s, ts[i].fields, k);
    assert(replay(ts.take(i + 1)) is Unknown);
    lemma_failure_sticks(ts, i + 1);
}

} // verus!
