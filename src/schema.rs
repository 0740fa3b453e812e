use vstd::prelude::*;

verus! {

/// A reference-scope (lifetime) parameter of the record, such as `'b: 'a`.
pub struct ScopeParam {
    /// The parameter itself, written with its leading apostrophe (`'b`).
    pub name: String,
    /// The scopes that this one outlives, in declaration order (`'a`).
    pub bounds: Vec<String>,
}

/// A type parameter of the record, such as `M: Default`.
pub struct TypeParam {
    pub name: String,
    /// The capability bounds, each as written (`Default`, `Clone`).
    pub bounds: Vec<String>,
}

/// One named field of the record.
pub struct FieldDef {
    pub name: String,
    /// The declared type, as written.
    pub ty: String,
    /// The field's documentation attributes, each as written
    /// (`#[doc = " Field 1."]`), in the order they were written.
    pub docs: Vec<String>,
}

/// The extracted description of a record: everything that the builder is
/// generated from.
pub struct Schema {
    pub name: String,
    /// The record's visibility as written (`pub`, `pub(crate)`, or empty).
    pub vis: String,
    pub scope_params: Vec<ScopeParam>,
    pub type_params: Vec<TypeParam>,
    /// The record's where-clause as written, or empty.
    pub where_clause: String,
    pub fields: Vec<FieldDef>,
}

impl Schema {
    /// The number of fields, which is also the number of builder flags.
    pub open spec fn width(&self) -> nat {
        self.fields@.len()
    }

    pub open spec fn field_name(&self, i: int) -> Seq<char> {
        self.fields@[i].name@
    }
}

} // verus!
