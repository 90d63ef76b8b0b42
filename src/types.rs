use vstd::prelude::*;

verus! {

/// A field of an object type: its name, the name of the type it refers to,
/// and the labels attached to it.
pub struct Field {
    pub name: String,
    pub field_type: String,
    pub labels: Vec<String>,
}

pub struct FieldView {
    pub name: Seq<char>,
    pub field_type: Seq<char>,
    pub labels: Seq<Seq<char>>,
}

pub open spec fn strings_view(v: Seq<String>) -> Seq<Seq<char>> {
    v.map_values(|s: String| s@)
}

impl View for Field {
    type V = FieldView;

    open spec fn view(&self) -> FieldView {
        FieldView {
            name: self.name@,
            field_type: self.field_type@,
            labels: strings_view(self.labels@),
        }
    }
}

/// A user-defined type: a unique name, its fields in order, and the name of
/// the data-store table that holds its rows.
pub struct ObjectType {
    pub name: String,
    pub fields: Vec<Field>,
    pub backing_table: String,
}

pub struct ObjectTypeView {
    pub name: Seq<char>,
    pub fields: Seq<FieldView>,
    pub backing_table: Seq<char>,
}

pub open spec fn fields_view(v: Seq<Field>) -> Seq<FieldView> {
    v.map_values(|f: Field| f@)
}

impl View for ObjectType {
    type V = ObjectTypeView;

    open spec fn view(&self) -> ObjectTypeView {
        ObjectTypeView {
            name: self.name@,
            fields: fields_view(self.fields@),
            backing_table: self.backing_table@,
        }
    }
}

#[derive(Debug)]
pub enum TypeSystemError {
    /// A field refers to a type name that is not known.
    NoSuchType(String),
    /// A type of this name is already registered.
    TypeAlreadyExists(String),
}

/// The names of the scalar types that every type system knows.
pub open spec fn is_builtin(n: Seq<char>) -> bool {
    n == "string"@ || n == "number"@ || n == "boolean"@
}

/// Whether `n` names a scalar or one of the types of `s`.
pub open spec fn known_in(s: Seq<ObjectTypeView>, n: Seq<char>) -> bool {
    is_builtin(n) || names_of(s).contains(n)
}

/// The registry of object types, in the order in which they were defined.
pub struct TypeSystem {
    types: Vec<ObjectType>,
}

pub open spec fn names_of(s: Seq<ObjectTypeView>) -> Seq<Seq<char>> {
    s.map_values(|t: ObjectTypeView| t.name)
}

impl View for TypeSystem {
    type V = Seq<ObjectTypeView>;

    closed spec fn view(&self) -> Seq<ObjectTypeView> {
        self.types@.map_values(|t: ObjectType| t@)
    }
}

impl TypeSystem {
    /// Whether `n` names a scalar or a registered object type.
    pub open spec fn knows(&self, n: Seq<char>) -> bool {
        known_in(self@, n)
    }

    /// No two types share a name, and none takes a scalar's name.
    pub open spec fn wf(&self) -> bool {
        &&& names_of(self@).no_duplicates()
        &&& forall|i: int| 0 <= i < self@.len() ==> !is_builtin(#[trigger] self@[i].name)
    }

    pub fn new() -> (r: TypeSystem)
        ensures
            r@ == Seq::<ObjectTypeView>::empty(),
            r.wf(),
    {
        let r = TypeSystem { types: Vec::new() };
        assert(r@ =~= Seq::<ObjectTypeView>::empty());
        r
    }

    fn is_builtin_name(name: &String) -> (r: bool)
        ensures
            r == is_builtin(name@),
    {
        let s = "string".to_string();
        let n = "number".to_string();
        let b = "boolean".to_string();
        proof {
            reveal_strlit("string");
            reveal_strlit("number");
            reveal_strlit("boolean");
        }
        *name == s || *name == n || *name == b
    }

    fn position(&self, name: &String) -> (r: Option<usize>)
        ensures
            match r {
                Some(i) => i < self@.len() && self@[i as int].name == name@
                    && names_of(self@).contains(name@),
                None => !names_of(self@).contains(name@),
            },
    {
        let mut i: usize = 0;
        while i < self.types.len()
            invariant
                i <= self.types.len(),
                self@.len() == self.types@.len(),
                forall|j: int| 0 <= j < self@.len() ==> #[trigger] self@[j] == self.types@[j]@,
                forall|j: int| 0 <= j < i ==> self@[j].name != name@,
            decreases self.types.len() - i,
        {
            if self.types[i].name == *name {
                assert(names_of(self@)[i as int] == name@);
                return Some(i);
            }
            i = i + 1;
        }
        proof {
            if names_of(self@).contains(name@) {
                let k = choose|k: int| 0 <= k < names_of(self@).len() && names_of(self@)[k] == name@;
                assert(self@[k].name == name@);
            }
        }
        None
    }

    /// Resolves a type name as a field's type; fails on a name that is
    /// neither a scalar nor a registered object type.
    pub fn lookup_type(&self, name: &String) -> (r: Result<String, TypeSystemError>)
        ensures
            r is Ok <==> self.knows(name@),
            r matches Ok(s) ==> s@ == name@,
            r matches Err(e) ==> e matches TypeSystemError::NoSuchType(n) && n@ == name@,
    {
        if Self::is_builtin_name(name) {
            return Ok(name.clone());
        }
        match self.position(name) {
            Some(_) => Ok(name.clone()),
            None => Err(TypeSystemError::NoSuchType(name.clone())),
        }
    }

    /// Registers a new object type; fails if its name is already known.
    pub fn define_type(&mut self, ty: ObjectType) -> (r: Result<(), TypeSystemError>)
        requires
            old(self).wf(),
        ensures
            final(self).wf(),
            r is Ok <==> !old(self).knows(ty@.name),
            r is Ok ==> final(self)@ == old(self)@.push(ty@),
            r is Err ==> final(self)@ == old(self)@,
            r matches Err(e) ==> e matches TypeSystemError::TypeAlreadyExists(n) && n@ == ty@.name,
    {
        if Self::is_builtin_name(&ty.name) {
            return Err(TypeSystemError::TypeAlreadyExists(ty.name));
        }
        match self.position(&ty.name) {
            Some(_) => Err(TypeSystemError::TypeAlreadyExists(ty.name)),
            None => {
                let ghost before = self@;
                let ghost v = ty@;
                self.types.push(ty);
                assert(self@ =~= before.push(v));
                assert(names_of(self@) =~= names_of(before).push(v.name));
                Ok(())
            },
        }
    }

    /// The number of registered object types.
    pub fn len(&self) -> (r: usize)
        ensures
            r == self@.len(),
    {
        self.types.len()
    }

    /// The registered object type at position `i`, in order of definition.
    pub fn get(&self, i: usize) -> (r: &ObjectType)
        requires
            i < self@.len(),
        ensures
            r@ == self@[i as int],
    {
        &self.types[i]
    }
}

} // verus!
