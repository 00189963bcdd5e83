use crate::claims::{
    lookup, same_text, ClaimDocument, ClaimKind, ClaimValue, DocumentModel, ValueModel,
};
use crate::schema::{ClaimsSchema, FieldModel, FieldSpec, SchemaModel};
use vstd::prelude::*;
use vstd::string::StringExecFns;

verus! {

/// Why a document does not fit a shape: the declared field that could not be
/// filled, the kind it takes, and the kind that the document holds under its
/// name (`None` where the document holds nothing).
#[derive(Clone, Debug, PartialEq, Eq)]
pub struct ConversionError {
    pub field: String,
    pub expected: ClaimKind,
    pub actual: Option<ClaimKind>,
}

/// The mathematical value of a conversion error.
pub struct MismatchModel {
    pub field: Seq<char>,
    pub expected: ClaimKind,
    pub actual: Option<ClaimKind>,
}

impl View for ConversionError {
    type V = MismatchModel;

    open spec fn view(&self) -> MismatchModel {
        MismatchModel { field: self.field@, expected: self.expected, actual: self.actual }
    }
}

/// One filled field of a shape: its name, and its value unless it is empty.
#[derive(Clone, Debug, PartialEq, Eq)]
pub struct TypedField {
    pub name: String,
    pub value: Option<ClaimValue>,
}

/// The mathematical value of filled fields: name and value, in the order of
/// the shape.
pub type ShapeModel = Seq<(Seq<char>, Option<ValueModel>)>;

impl View for TypedField {
    type V = (Seq<char>, Option<ValueModel>);

    open spec fn view(&self) -> (Seq<char>, Option<ValueModel>) {
        (
            self.name@,
            match self.value {
                Some(value) => Some(value@),
                None => None,
            },
        )
    }
}

/// The claims of a document in a declared shape: one field for each field of
/// the shape, in its order.
#[derive(Clone, Debug, PartialEq, Eq)]
pub struct TypedClaims {
    fields: Vec<TypedField>,
}

impl View for TypedClaims {
    type V = ShapeModel;

    closed spec fn view(&self) -> ShapeModel {
        Seq::new(self.fields@.len(), |i: int| self.fields@[i]@)
    }
}

/// Whether `i` is the place of the first field of `shape` named `name`.
pub open spec fn is_first_field(shape: ShapeModel, name: Seq<char>, i: int) -> bool {
    &&& 0 <= i < shape.len()
    &&& shape[i].0 == name
    &&& forall|j: int| 0 <= j < i ==> (#[trigger] shape[j]).0 != name
}

/// The value of the field named `name`: that of the first field of that
/// name, and nothing where there is no such field or it is empty.
pub open spec fn shape_value(shape: ShapeModel, name: Seq<char>) -> Option<ValueModel> {
    if exists|i: int| is_first_field(shape, name, i) {
        shape[choose|i: int| is_first_field(shape, name, i)].1
    } else {
        None
    }
}

/// What the error says, in words.
pub open spec fn mismatch_message(error: MismatchModel) -> Seq<char> {
    let found = match error.actual {
        Some(kind) => kind.name_spec(),
        None => "nothing"@,
    };
    "claim `"@ + error.field + "`: expected "@ + error.expected.name_spec() + ", found "@ + found
}

impl ConversionError {
    /// What the error says, in words.
    pub fn message(&self) -> (text: String)
        ensures
            text@ == mismatch_message(self@),
    {
        let mut text = "claim `".to_owned();
        text.append(self.field.as_str());
        text.append("`: expected ");
        text.append(self.expected.name());
        text.append(", found ");
        match self.actual {
            Some(kind) => text.append(kind.name()),
            None => text.append("nothing"),
        }
        text
    }
}

impl TypedClaims {
    /// The number of fields.
    pub fn len(&self) -> (n: usize)
        ensures
            n == self@.len(),
    {
        self.fields.len()
    }

    /// The field at place `i`, if there are that many.
    pub fn field(&self, i: usize) -> (found: Option<&TypedField>)
        ensures
            match found {
                Some(field) => i < self@.len() && self@[i as int] == field@,
                None => i >= self@.len(),
            },
    {
        if i < self.fields.len() {
            Some(&self.fields[i])
        } else {
            None
        }
    }

    /// The value of the field named `name`, unless there is no such field or
    /// it is empty.
    pub fn get(&self, name: &str) -> (found: Option<&ClaimValue>)
        ensures
            match found {
                Some(value) => shape_value(self@, name@) == Some(value@),
                None => shape_value(self@, name@) is None,
            },
    {
        let mut i: usize = 0;
        while i < self.fields.len()
            invariant
                i <= self.fields@.len(),
                self@.len() == self.fields@.len(),
                forall|j: int| 0 <= j < i ==> (#[trigger] self@[j]).0 != name@,
            decreases self.fields@.len() - i,
        {
            if same_text(self.fields[i].name.as_str(), name) {
                assert(is_first_field(self@, name@, i as int));
                proof {
                    let k = choose|k: int| is_first_field(self@, name@, k);
                    if k < i {
                        assert(self@[k].0 != name@);
                    }
                    if i < k {
                        assert(self@[i as int].0 != name@);
                    }
                }
                return match &self.fields[i].value {
                    Some(value) => Some(value),
                    None => None,
                };
            }
            i += 1;
        }
        assert forall|k: int| !is_first_field(self@, name@, k) by {
            if 0 <= k < self@.len() {
                assert(self@[k].0 != name@);
            }
        }
        None
    }

    /// The text of the field named `name`, if the field holds a string.
    pub fn text(&self, name: &str) -> (found: Option<&String>)
        ensures
            match found {
                Some(text) => shape_value(self@, name@) == Some(ValueModel::Text(text@)),
                None => !(shape_value(self@, name@) matches Some(ValueModel::Text(_))),
            },
    {
        match self.get(name) {
            Some(value) => value.as_text(),
            None => None,
        }
    }
}

/// What one declared field gets from a document: its value, nothing where an
/// optional field finds no claim or a null one, or the mismatch.
pub open spec fn field_outcome(doc: DocumentModel, field: FieldModel) -> Result<
    Option<ValueModel>,
    MismatchModel,
> {
    match lookup(doc, field.name) {
        None => if field.required {
            Err(MismatchModel { field: field.name, expected: field.kind, actual: None })
        } else {
            Ok(None)
        },
        Some(value) => if !field.required && value is Null {
            Ok(None)
        } else if value.kind() == field.kind {
            Ok(Some(value))
        } else {
            Err(
                MismatchModel {
                    field: field.name,
                    expected: field.kind,
                    actual: Some(value.kind()),
                },
            )
        },
    }
}

/// Whether every declared field can be filled from the document.
pub open spec fn conforms(doc: DocumentModel, schema: SchemaModel) -> bool {
    forall|i: int| 0 <= i < schema.len() ==> field_outcome(doc, #[trigger] schema[i]) is Ok
}

/// Whether the field at place `k` is the first that cannot be filled.
pub open spec fn is_first_mismatch(doc: DocumentModel, schema: SchemaModel, k: int) -> bool {
    &&& 0 <= k < schema.len()
    &&& field_outcome(doc, schema[k]) is Err
    &&& forall|j: int| 0 <= j < k ==> field_outcome(doc, #[trigger] schema[j]) is Ok
}

/// The fields of the shape, each filled from the document.
pub open spec fn shaped(doc: DocumentModel, schema: SchemaModel) -> ShapeModel {
    Seq::new(schema.len(), |i: int| (schema[i].name, field_outcome(doc, schema[i])->Ok_0))
}

/// The conversion of a document into a shape: all fields filled, or the
/// mismatch of the first declared field that cannot be.
pub open spec fn convert_spec(doc: DocumentModel, schema: SchemaModel) -> Result<
    ShapeModel,
    MismatchModel,
> {
    if conforms(doc, schema) {
        Ok(shaped(doc, schema))
    } else {
        Err(
            field_outcome(
                doc,
                schema[choose|k: int| is_first_mismatch(doc, schema, k)],
            )->Err_0,
        )
    }
}

/// Fills one declared field from the document.
pub fn convert_field(doc: &ClaimDocument, field: &FieldSpec) -> (outcome: Result<
    Option<ClaimValue>,
    ConversionError,
>)
    ensures
        match outcome {
            Ok(Some(value)) => field_outcome(doc@, field@) == Ok::<
                Option<ValueModel>,
                MismatchModel,
            >(Some(value@)),
            Ok(None) => field_outcome(doc@, field@) == Ok::<Option<ValueModel>, MismatchModel>(
                None,
            ),
            Err(error) => field_outcome(doc@, field@) == Err::<Option<ValueModel>, MismatchModel>(
                error@,
            ),
        },
{
    match doc.get(field.name.as_str()) {
        None => {
            if field.required {
                Err(
                    ConversionError {
                        field: field.name.clone(),
                        expected: field.kind,
                        actual: None,
                    },
                )
            } else {
                Ok(None)
            }
        },
        Some(value) => {
            let kind = value.kind();
            if !field.required && kind == ClaimKind::Null {
                Ok(None)
            } else if kind == field.kind {
                Ok(Some(value.clone()))
            } else {
                Err(
                    ConversionError {
                        field: field.name.clone(),
                        expected: field.kind,
                        actual: Some(kind),
                    },
                )
            }
        },
    }
}

/// Converts a document into the declared shape. Claims that the shape does
/// not declare are left out; the first declared field that the document
/// cannot fill is reported.
pub fn convert(doc: &ClaimDocument, schema: &ClaimsSchema) -> (outcome: Result<
    TypedClaims,
    ConversionError,
>)
    ensures
        match outcome {
            Ok(claims) => convert_spec(doc@, schema@) == Ok::<ShapeModel, MismatchModel>(claims@),
            Err(error) => convert_spec(doc@, schema@) == Err::<ShapeModel, MismatchModel>(error@),
        },
{
    let mut fields: Vec<TypedField> = Vec::new();
    let mut i: usize = 0;
    while i < schema.len()
        invariant
            i <= schema@.len(),
            fields@.len() == i,
            forall|j: int|
                0 <= j < i ==> field_outcome(doc@, #[trigger] schema@[j]) is Ok && fields@[j]@ == (
                    schema@[j].name,
                    field_outcome(doc@, schema@[j])->Ok_0,
                ),
        decreases schema@.len() - i,
    {
        match schema.field(i) {
            Some(field) => {
                match convert_field(doc, field) {
                    Ok(value) => {
                        fields.push(TypedField { name: field.name.clone(), value });
                    },
                    Err(error) => {
                        assert(is_first_mismatch(doc@, schema@, i as int));
                        return Err(error);
                    },
                }
            },
            None => {},
        }
        i += 1;
    }
    let claims = TypedClaims { fields };
    assert(claims@ =~= shaped(doc@, schema@));
    Ok(claims)
}

} // verus!
