use crate::claims::ClaimKind;
use vstd::prelude::*;

verus! {

/// One declared field of a claims shape.
#[derive(Debug, PartialEq, Eq)]
pub struct FieldSpec {
    /// The name of the claim that fills the field.
    pub name: String,
    /// The kind of value that the field takes.
    pub kind: ClaimKind,
    /// Whether the claim must be there.
    pub required: bool,
}

/// The mathematical value of a declared field.
pub struct FieldModel {
    pub name: Seq<char>,
    pub kind: ClaimKind,
    pub required: bool,
}

impl View for FieldSpec {
    type V = FieldModel;

    open spec fn view(&self) -> FieldModel {
        FieldModel { name: self.name@, kind: self.kind, required: self.required }
    }
}

impl Clone for FieldSpec {
    fn clone(&self) -> (copy: Self)
        ensures
            copy@ == self@,
    {
        FieldSpec { name: self.name.clone(), kind: self.kind, required: self.required }
    }
}

/// The mathematical value of a schema: its declared fields, in order.
pub type SchemaModel = Seq<FieldModel>;

/// Whether `schema` declares a field named `name`.
pub open spec fn declares(schema: SchemaModel, name: Seq<char>) -> bool {
    exists|i: int| 0 <= i < schema.len() && (#[trigger] schema[i]).name == name
}

/// A claims shape: the fields that a caller wants, each with its kind and
/// whether it must be there.
#[derive(Clone, Debug, PartialEq, Eq)]
pub struct ClaimsSchema {
    fields: Vec<FieldSpec>,
}

impl View for ClaimsSchema {
    type V = SchemaModel;

    closed spec fn view(&self) -> SchemaModel {
        Seq::new(self.fields@.len(), |i: int| self.fields@[i]@)
    }
}

impl ClaimsSchema {
    /// The shape without any field.
    pub fn new() -> (schema: Self)
        ensures
            schema@.len() == 0,
    {
        ClaimsSchema { fields: Vec::new() }
    }

    /// This shape with one more field, which must be there.
    pub fn required(self, name: &str, kind: ClaimKind) -> (schema: Self)
        ensures
            schema@ == self@.push(FieldModel { name: name@, kind, required: true }),
    {
        self.declare(FieldSpec { name: name.to_owned(), kind, required: true })
    }

    /// This shape with one more field, which may be absent.
    pub fn optional(self, name: &str, kind: ClaimKind) -> (schema: Self)
        ensures
            schema@ == self@.push(FieldModel { name: name@, kind, required: false }),
    {
        self.declare(FieldSpec { name: name.to_owned(), kind, required: false })
    }

    /// This shape with `field` declared after the others.
    pub fn declare(self, field: FieldSpec) -> (schema: Self)
        ensures
            schema@ == self@.push(field@),
    {
        let ghost before = self@;
        let mut fields = self.fields;
        fields.push(field);
        let schema = ClaimsSchema { fields };
        assert(schema@ =~= before.push(field@));
        schema
    }

    /// The number of declared fields.
    pub fn len(&self) -> (n: usize)
        ensures
            n == self@.len(),
    {
        self.fields.len()
    }

    /// The field declared at place `i`, if the shape is that long.
    pub fn field(&self, i: usize) -> (found: Option<&FieldSpec>)
        ensures
            match found {
                Some(field) => i < self@.len() && self@[i as int] == field@,
                None => i >= self@.len(),
            },
    {
        if i < self.fields.len() {
            Some(&self.fields[i])
        } else {
            None
        }
    }
}

} // verus!
