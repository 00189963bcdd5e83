use crate::claims::{ClaimDocument, ClaimValue, DocumentModel, ValueModel};
use crate::convert::{convert, convert_spec, ConversionError, MismatchModel, ShapeModel, TypedClaims};
use crate::extract::DecodedInfo;
use crate::identity::AuthenticatedUser;
use crate::schema::{ClaimsSchema, SchemaModel};
use vstd::prelude::*;

verus! {

/// `serde_json::Value`, the JSON value of serde_json. Nothing is known of
/// what is inside one.
#[verifier::external_type_specification]
#[verifier::external_body]
pub struct ExJsonValue(serde_json::Value);

/// `serde_json::Error`, the error of serde_json. Nothing is known of what is
/// inside one.
#[verifier::external_type_specification]
#[verifier::external_body]
pub struct ExJsonError(serde_json::Error);

/// `biscuit::ClaimsSet`, the registered and private claims of a token.
/// Nothing is known of what is inside one.
#[verifier::external_type_specification]
#[verifier::external_body]
#[verifier::reject_recursive_types(T)]
pub struct ExClaimsSet<T>(biscuit::ClaimsSet<T>);

/// What a JSON value of serde_json holds, as the value of a claim.
pub uninterp spec fn json_model(json: serde_json::Value) -> ValueModel;

/// What `serde_json::to_value` makes of a claims set: the value that the
/// JSON holds, or nothing where serde_json gives an error.
pub uninterp spec fn claims_set_json(claims_set: biscuit::ClaimsSet<serde_json::Value>) -> Option<
    ValueModel,
>;

/// Calls `serde_json::to_value` on a claims set. Claimed of it: what comes
/// back depends on the claims set alone, so that the same claims set gives
/// the same JSON value, or an error, every time. Nothing is claimed of which
/// claims sets give an error.
#[verifier::external_body]
fn claims_set_to_json(claims_set: &biscuit::ClaimsSet<serde_json::Value>) -> (outcome: Result<
    serde_json::Value,
    serde_json::Error,
>)
    ensures
        match outcome {
            Ok(json) => claims_set_json(*claims_set) == Some(json_model(json)),
            Err(_) => claims_set_json(*claims_set) is None,
        },
{
    serde_json::to_value(claims_set)
}

/// Turns a `serde_json::Value` into a claim value, variant by variant: a
/// number as the text that serde_json writes for it, an array item by item,
/// an object entry by entry in the order of its map. Claimed of it: the
/// claim value depends on the JSON value alone.
#[verifier::external_body]
fn claim_value_from_json(json: &serde_json::Value) -> (value: ClaimValue)
    ensures
        value@ == json_model(*json),
{
    match json {
        serde_json::Value::Null => ClaimValue::Null,
        serde_json::Value::Bool(flag) => ClaimValue::Bool(*flag),
        serde_json::Value::Number(number) => ClaimValue::Number(number.to_string()),
        serde_json::Value::String(text) => ClaimValue::String(text.clone()),
        serde_json::Value::Array(items) => ClaimValue::Array(
            items.iter().map(claim_value_from_json).collect(),
        ),
        serde_json::Value::Object(map) => ClaimValue::Object(
            map.iter().fold(
                ClaimDocument::new(),
                |doc, (name, item)| doc.with(name.clone(), claim_value_from_json(item)),
            ),
        ),
    }
}

/// Why a claims set does not give claims of a shape.
#[derive(Clone, Debug, PartialEq, Eq)]
pub enum ClaimsError {
    /// The claims set has no claim document: serde_json does not write it as
    /// a JSON object.
    NoDocument,
    /// The claim document of the claims set does not fit the shape.
    ShapeMismatch(ConversionError),
}

/// The claim document of a serialized claims set: the entries of the JSON
/// object that it was written as, if it was written as one.
pub open spec fn document_spec(json: Option<ValueModel>) -> Option<DocumentModel> {
    match json {
        Some(ValueModel::Record(entries)) => Some(entries),
        _ => None,
    }
}

/// The typed claims of a serialized claims set: the conversion of its claim
/// document, if it has one. The error is the mismatch, or nothing where
/// there is no document.
pub open spec fn get_claims_spec(json: Option<ValueModel>, schema: SchemaModel) -> Result<
    ShapeModel,
    Option<MismatchModel>,
> {
    match document_spec(json) {
        None => Err(None),
        Some(doc) => match convert_spec(doc, schema) {
            Ok(shape) => Ok(shape),
            Err(mismatch) => Err(Some(mismatch)),
        },
    }
}

impl ClaimDocument {
    /// The claim document of a biscuit claims set: the claims set as
    /// serde_json writes it, registered and private claims in one object.
    /// There is none where serde_json gives an error or another value.
    pub fn from_claims_set(claims_set: &biscuit::ClaimsSet<serde_json::Value>) -> (outcome: Option<
        ClaimDocument,
    >)
        ensures
            match outcome {
                Some(doc) => document_spec(claims_set_json(*claims_set)) == Some(doc@),
                None => document_spec(claims_set_json(*claims_set)) is None,
            },
    {
        match claims_set_to_json(claims_set) {
            Err(_) => None,
            Ok(json) => match claim_value_from_json(&json).into_document() {
                Ok(doc) => Some(doc),
                Err(_) => None,
            },
        }
    }
}

impl DecodedInfo {
    /// The decoded token of a request, from the token and the claims set
    /// that the verifier read from it, if the claims set has a claim
    /// document.
    pub fn from_claims_set(
        jwt: String,
        claims_set: &biscuit::ClaimsSet<serde_json::Value>,
    ) -> (outcome: Option<DecodedInfo>)
        ensures
            match outcome {
                Some(info) => info.jwt == jwt && document_spec(claims_set_json(*claims_set))
                    == Some(info.payload@),
                None => document_spec(claims_set_json(*claims_set)) is None,
            },
    {
        match ClaimDocument::from_claims_set(claims_set) {
            Some(payload) => Some(DecodedInfo { jwt, payload }),
            None => None,
        }
    }
}

impl AuthenticatedUser<TypedClaims> {
    /// Gets the claims of a biscuit claims set in the declared shape.
    pub fn get_claims(
        claims_set: &biscuit::ClaimsSet<serde_json::Value>,
        schema: &ClaimsSchema,
    ) -> (outcome: Result<TypedClaims, ClaimsError>)
        ensures
            match outcome {
                Ok(claims) => get_claims_spec(claims_set_json(*claims_set), schema@) == Ok::<
                    ShapeModel,
                    Option<MismatchModel>,
                >(claims@),
                Err(ClaimsError::NoDocument) => get_claims_spec(
                    claims_set_json(*claims_set),
                    schema@,
                ) == Err::<ShapeModel, Option<MismatchModel>>(None),
                Err(ClaimsError::ShapeMismatch(error)) => get_claims_spec(
                    claims_set_json(*claims_set),
                    schema@,
                ) == Err::<ShapeModel, Option<MismatchModel>>(Some(error@)),
            },
    {
        match ClaimDocument::from_claims_set(claims_set) {
            None => Err(ClaimsError::NoDocument),
            Some(doc) => match convert(&doc, schema) {
                Ok(claims) => Ok(claims),
                Err(error) => Err(ClaimsError::ShapeMismatch(error)),
            },
        }
    }
}

} // verus!
