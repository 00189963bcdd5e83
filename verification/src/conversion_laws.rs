use crate::claims::{inserted, lookup, DocumentModel, ValueModel};
use crate::convert::{
    conforms, convert_spec, field_outcome, is_first_field, is_first_mismatch, shape_value, shaped,
    MismatchModel, ShapeModel,
};
use crate::document_laws::lemma_inserted_keeps_others;
use crate::schema::{declares, FieldModel, SchemaModel};
use vstd::prelude::*;

verus! {

/// Whether the document holds what the field asks for: a value of its kind,
/// or, for an optional field, a null or no claim at all.
pub open spec fn fits(doc: DocumentModel, field: FieldModel) -> bool {
    match lookup(doc, field.name) {
        Some(value) => value.kind() == field.kind || (!field.required && value is Null),
        None => !field.required,
    }
}

/// The first field that cannot be filled decides the error.
pub proof fn lemma_first_mismatch_decides(doc: DocumentModel, schema: SchemaModel, k: int)
    requires
        is_first_mismatch(doc, schema, k),
    ensures
        convert_spec(doc, schema) == Err::<ShapeModel, MismatchModel>(
            field_outcome(doc, schema[k])->Err_0,
        ),
{
    let c = choose|c: int| is_first_mismatch(doc, schema, c);
    assert(is_first_mismatch(doc, schema, c));
    if c < k {
        assert(field_outcome(doc, schema[c]) is Ok);
    }
    if k < c {
        assert(field_outcome(doc, schema[k]) is Ok);
    }
}

/// Where some field cannot be filled, there is a first such field, at or
/// before it.
pub proof fn lemma_some_mismatch_is_first(doc: DocumentModel, schema: SchemaModel, k: int) -> (first:
    int)
    requires
        0 <= k < schema.len(),
        field_outcome(doc, schema[k]) is Err,
    ensures
        0 <= first <= k,
        is_first_mismatch(doc, schema, first),
    decreases k,
{
    if exists|j: int| 0 <= j < k && field_outcome(doc, #[trigger] schema[j]) is Err {
        let j = choose|j: int| 0 <= j < k && field_outcome(doc, #[trigger] schema[j]) is Err;
        lemma_some_mismatch_is_first(doc, schema, j)
    } else {
        k
    }
}

/// Round trip of the declared fields. A document converts if and only if it
/// holds every required field in its kind and every optional field in its
/// kind, as a null, or not at all. The result then has the fields of the
/// shape, in order and under their names, and each holds the very value that
/// the document gives to its name; an optional field is empty exactly where
/// the document holds no claim or a null under its name.
pub proof fn lemma_fitting_document_converts(doc: DocumentModel, schema: SchemaModel)
    ensures
        convert_spec(doc, schema) is Ok <==> forall|i: int|
            0 <= i < schema.len() ==> fits(doc, #[trigger] schema[i]),
        convert_spec(doc, schema) matches Ok(shape) ==> {
            &&& shape.len() == schema.len()
            &&& forall|i: int|
                #![trigger shape[i]]
                0 <= i < shape.len() ==> {
                    &&& shape[i].0 == schema[i].name
                    &&& shape[i].1 matches Some(value) ==> lookup(doc, schema[i].name) == Some(
                        value,
                    ) && value.kind() == schema[i].kind
                    &&& shape[i].1 is None ==> !schema[i].required && (lookup(
                        doc,
                        schema[i].name,
                    ) is None || lookup(doc, schema[i].name) == Some(ValueModel::Null))
                }
        },
{
    if conforms(doc, schema) {
        assert forall|i: int| 0 <= i < schema.len() implies fits(doc, #[trigger] schema[i]) by {
            assert(field_outcome(doc, schema[i]) is Ok);
        }
        let shape = shaped(doc, schema);
        assert forall|i: int| #![trigger shape[i]] 0 <= i < shape.len() implies {
            &&& shape[i].0 == schema[i].name
            &&& shape[i].1 matches Some(value) ==> lookup(doc, schema[i].name) == Some(value)
                && value.kind() == schema[i].kind
            &&& shape[i].1 is None ==> !schema[i].required && (lookup(doc, schema[i].name) is None
                || lookup(doc, schema[i].name) == Some(ValueModel::Null))
        } by {
            assert(field_outcome(doc, schema[i]) is Ok);
        }
    } else {
        let k = choose|k: int| 0 <= k < schema.len() && !(field_outcome(
            doc,
            #[trigger] schema[k],
        ) is Ok);
        assert(!fits(doc, schema[k]));
    }
}

/// A missing required field fails the conversion, whatever else the document
/// holds. The error is that of the first declared field that cannot be
/// filled, which stands at or before the missing one.
pub proof fn lemma_missing_required_field_fails(doc: DocumentModel, schema: SchemaModel, k: int)
    requires
        0 <= k < schema.len(),
        schema[k].required,
        lookup(doc, schema[k].name) is None,
    ensures
        convert_spec(doc, schema) is Err,
        exists|first: int|
            0 <= first <= k && is_first_mismatch(doc, schema, first) && convert_spec(doc, schema)
                == Err::<ShapeModel, MismatchModel>(
                field_outcome(doc, #[trigger] schema[first])->Err_0,
            ),
{
    let first = lemma_some_mismatch_is_first(doc, schema, k);
    lemma_first_mismatch_decides(doc, schema, first);
}

/// A missing required field is named by the error, as absent and with the
/// kind that the shape asks for, where every field declared before it can be
/// filled.
pub proof fn lemma_missing_required_field_is_named(doc: DocumentModel, schema: SchemaModel, k: int)
    requires
        0 <= k < schema.len(),
        schema[k].required,
        lookup(doc, schema[k].name) is None,
        forall|j: int| 0 <= j < k ==> field_outcome(doc, #[trigger] schema[j]) is Ok,
    ensures
        convert_spec(doc, schema) == Err::<ShapeModel, MismatchModel>(
            MismatchModel { field: schema[k].name, expected: schema[k].kind, actual: None },
        ),
{
    lemma_first_mismatch_decides(doc, schema, k);
}

/// A conversion reads the declared claims only: two documents that give the
/// same value to every declared name convert alike.
pub proof fn lemma_conversion_reads_declared_claims_only(
    first: DocumentModel,
    second: DocumentModel,
    schema: SchemaModel,
)
    requires
        forall|i: int|
            0 <= i < schema.len() ==> lookup(first, (#[trigger] schema[i]).name) == lookup(
                second,
                schema[i].name,
            ),
    ensures
        convert_spec(first, schema) == convert_spec(second, schema),
{
    assert forall|i: int| 0 <= i < schema.len() implies field_outcome(first, #[trigger] schema[i])
        == field_outcome(second, schema[i]) by {}
    if conforms(first, schema) {
        assert forall|i: int| 0 <= i < schema.len() implies field_outcome(
            second,
            #[trigger] schema[i],
        ) is Ok by {
            assert(field_outcome(first, schema[i]) is Ok);
        }
        assert(shaped(first, schema) =~= shaped(second, schema));
    } else {
        let k = choose|k: int| 0 <= k < schema.len() && !(field_outcome(
            first,
            #[trigger] schema[k],
        ) is Ok);
        let f = lemma_some_mismatch_is_first(first, schema, k);
        assert forall|j: int| 0 <= j < f implies field_outcome(second, #[trigger] schema[j]) is Ok by {
            assert(field_outcome(first, schema[j]) is Ok);
        }
        assert(is_first_mismatch(second, schema, f));
        lemma_first_mismatch_decides(first, schema, f);
        lemma_first_mismatch_decides(second, schema, f);
    }
}

/// Tolerance of the shape. A claim that the shape does not declare changes
/// nothing: the document converts with it as it does without it, and the
/// result holds no field of its name.
pub proof fn lemma_undeclared_claim_is_ignored(
    doc: DocumentModel,
    schema: SchemaModel,
    name: Seq<char>,
    value: ValueModel,
)
    requires
        !declares(schema, name),
    ensures
        convert_spec(inserted(doc, name, value), schema) == convert_spec(doc, schema),
        convert_spec(doc, schema) matches Ok(shape) ==> forall|i: int|
            0 <= i < shape.len() ==> (#[trigger] shape[i]).0 != name,
{
    assert forall|i: int| 0 <= i < schema.len() implies lookup(
        inserted(doc, name, value),
        (#[trigger] schema[i]).name,
    ) == lookup(doc, schema[i].name) by {
        lemma_inserted_keeps_others(doc, name, value, schema[i].name);
    }
    lemma_conversion_reads_declared_claims_only(inserted(doc, name, value), doc, schema);
    if conforms(doc, schema) {
        let shape = shaped(doc, schema);
        assert forall|i: int| 0 <= i < shape.len() implies (#[trigger] shape[i]).0 != name by {
            assert(schema[i].name != name);
        }
    }
}

/// What a converted field holds is what the document holds: a value read
/// from the result under a name is the value that the document gives to that
/// name.
pub proof fn lemma_typed_value_is_document_value(
    doc: DocumentModel,
    schema: SchemaModel,
    name: Seq<char>,
)
    ensures
        convert_spec(doc, schema) matches Ok(shape) ==> (shape_value(shape, name) matches Some(
            value,
        ) ==> lookup(doc, name) == Some(value)),
{
    if conforms(doc, schema) {
        let shape = shaped(doc, schema);
        if exists|i: int| is_first_field(shape, name, i) {
            let i = choose|i: int| is_first_field(shape, name, i);
            assert(field_outcome(doc, schema[i]) is Ok);
        }
    }
}

} // verus!
