use typed_claims::{
    convert, convert_field, ClaimDocument, ClaimKind, ClaimValue, ClaimsSchema, ConversionError,
    ExtractionError, FieldSpec,
};

fn text(value: &str) -> ClaimValue {
    ClaimValue::String(value.to_string())
}

fn list(values: &[&str]) -> ClaimValue {
    ClaimValue::Array(values.iter().map(|value| text(value)).collect())
}

/// The claims `{iss, sub, aud: [...], name: "admin", email: null}`.
fn admin_claims() -> ClaimDocument {
    ClaimDocument::new()
        .with("iss".to_string(), text("https://issuer.example"))
        .with("sub".to_string(), text("user-1"))
        .with("aud".to_string(), list(&["account", "api"]))
        .with("name".to_string(), text("admin"))
        .with("email".to_string(), ClaimValue::Null)
}

fn admin_shape() -> ClaimsSchema {
    ClaimsSchema::new()
        .required("iss", ClaimKind::String)
        .required("sub", ClaimKind::String)
        .required("aud", ClaimKind::Array)
        .required("name", ClaimKind::String)
        .optional("email", ClaimKind::String)
}

fn mismatch(field: &str, expected: ClaimKind, actual: Option<ClaimKind>) -> ConversionError {
    ConversionError { field: field.to_string(), expected, actual }
}

#[test]
fn declared_fields_hold_the_values_of_the_document() {
    let doc = admin_claims();
    let claims = convert(&doc, &admin_shape()).unwrap();
    assert_eq!(claims.len(), 5);
    for name in ["iss", "sub", "aud", "name"] {
        assert_eq!(claims.get(name), doc.get(name));
    }
    assert_eq!(claims.get("aud"), Some(&list(&["account", "api"])));
    assert_eq!(claims.text("name"), Some(&"admin".to_string()));
}

#[test]
fn fields_come_in_the_order_of_the_shape() {
    let schema = ClaimsSchema::new()
        .required("name", ClaimKind::String)
        .required("iss", ClaimKind::String);
    let claims = convert(&admin_claims(), &schema).unwrap();
    assert_eq!(claims.len(), 2);
    let first = claims.field(0).unwrap();
    assert_eq!(first.name, "name");
    assert_eq!(first.value, Some(text("admin")));
    let second = claims.field(1).unwrap();
    assert_eq!(second.name, "iss");
    assert_eq!(second.value, Some(text("https://issuer.example")));
    assert_eq!(claims.field(2), None);
}

#[test]
fn null_email_is_an_empty_optional_field() {
    let claims = convert(&admin_claims(), &admin_shape()).unwrap();
    assert_eq!(claims.text("name"), Some(&"admin".to_string()));
    assert_eq!(claims.get("email"), None);
    assert_eq!(claims.field(4).unwrap().name, "email");
    assert_eq!(claims.field(4).unwrap().value, None);
}

#[test]
fn missing_optional_field_is_empty() {
    let schema = admin_shape().optional("email_verified", ClaimKind::Bool);
    let claims = convert(&admin_claims(), &schema).unwrap();
    assert_eq!(claims.len(), 6);
    assert_eq!(claims.get("email_verified"), None);
    assert_eq!(claims.field(5).unwrap().value, None);
}

#[test]
fn present_optional_field_is_filled() {
    let doc = admin_claims()
        .with("email".to_string(), text("admin@example.org"))
        .with("email_verified".to_string(), ClaimValue::Bool(true));
    let schema = admin_shape().optional("email_verified", ClaimKind::Bool);
    let claims = convert(&doc, &schema).unwrap();
    assert_eq!(claims.text("email"), Some(&"admin@example.org".to_string()));
    assert_eq!(claims.get("email_verified").unwrap().as_bool(), Some(true));
}

#[test]
fn missing_required_field_is_named() {
    let schema = admin_shape().required("roles", ClaimKind::Array);
    let outcome = convert(&admin_claims(), &schema);
    assert_eq!(outcome, Err(mismatch("roles", ClaimKind::Array, None)));
}

#[test]
fn first_missing_required_field_is_named() {
    let schema = ClaimsSchema::new()
        .required("name", ClaimKind::String)
        .required("tenant", ClaimKind::String)
        .required("roles", ClaimKind::Array);
    let outcome = convert(&admin_claims(), &schema);
    assert_eq!(outcome, Err(mismatch("tenant", ClaimKind::String, None)));
}

#[test]
fn empty_document_misses_every_required_field() {
    let outcome = convert(&ClaimDocument::new(), &admin_shape());
    assert_eq!(outcome, Err(mismatch("iss", ClaimKind::String, None)));
}

#[test]
fn undeclared_claims_are_left_out() {
    let schema = ClaimsSchema::new().required("name", ClaimKind::String);
    let plain = ClaimDocument::new().with("name".to_string(), text("admin"));
    let fuller = admin_claims()
        .with("tenant".to_string(), text("acme"))
        .with("level".to_string(), ClaimValue::Number("7".to_string()));
    let from_plain = convert(&plain, &schema).unwrap();
    let from_fuller = convert(&fuller, &schema).unwrap();
    assert_eq!(from_plain, from_fuller);
    assert_eq!(from_fuller.len(), 1);
    assert_eq!(from_fuller.get("tenant"), None);
    assert_eq!(from_fuller.get("level"), None);
    assert_eq!(from_fuller.get("iss"), None);
}

#[test]
fn undeclared_claims_do_not_change_a_failure() {
    let schema = ClaimsSchema::new().required("roles", ClaimKind::Array);
    let plain = ClaimDocument::new();
    let fuller = admin_claims();
    assert_eq!(convert(&plain, &schema), convert(&fuller, &schema));
}

#[test]
fn empty_shape_takes_any_document() {
    let claims = convert(&admin_claims(), &ClaimsSchema::new()).unwrap();
    assert_eq!(claims.len(), 0);
    assert_eq!(claims.get("name"), None);
    let claims = convert(&ClaimDocument::new(), &ClaimsSchema::new()).unwrap();
    assert_eq!(claims.len(), 0);
}

#[test]
fn single_string_is_no_sequence() {
    let doc = admin_claims().with("aud".to_string(), text("account"));
    let outcome = convert(&doc, &admin_shape());
    assert_eq!(outcome, Err(mismatch("aud", ClaimKind::Array, Some(ClaimKind::String))));
}

#[test]
fn sequence_is_no_single_string() {
    let doc = admin_claims().with("iss".to_string(), list(&["a", "b"]));
    let outcome = convert(&doc, &admin_shape());
    assert_eq!(outcome, Err(mismatch("iss", ClaimKind::String, Some(ClaimKind::Array))));
}

#[test]
fn required_field_does_not_take_a_null() {
    let schema = ClaimsSchema::new().required("email", ClaimKind::String);
    let outcome = convert(&admin_claims(), &schema);
    assert_eq!(outcome, Err(mismatch("email", ClaimKind::String, Some(ClaimKind::Null))));
}

#[test]
fn required_null_field_takes_a_null() {
    let schema = ClaimsSchema::new().required("email", ClaimKind::Null);
    let claims = convert(&admin_claims(), &schema).unwrap();
    assert_eq!(claims.get("email"), Some(&ClaimValue::Null));
}

#[test]
fn optional_field_of_another_kind_is_reported() {
    let doc = admin_claims().with("email".to_string(), ClaimValue::Number("5".to_string()));
    let outcome = convert(&doc, &admin_shape());
    assert_eq!(outcome, Err(mismatch("email", ClaimKind::String, Some(ClaimKind::Number))));
}

#[test]
fn every_kind_is_told_apart() {
    let values = [
        (ClaimValue::Null, ClaimKind::Null),
        (ClaimValue::Bool(false), ClaimKind::Bool),
        (ClaimValue::Number("1".to_string()), ClaimKind::Number),
        (text("1"), ClaimKind::String),
        (list(&["1"]), ClaimKind::Array),
        (ClaimValue::Object(ClaimDocument::new()), ClaimKind::Object),
    ];
    let kinds = [
        ClaimKind::Null,
        ClaimKind::Bool,
        ClaimKind::Number,
        ClaimKind::String,
        ClaimKind::Array,
        ClaimKind::Object,
    ];
    for (value, kind) in values.iter() {
        assert_eq!(value.kind(), *kind);
        for expected in kinds.iter() {
            let doc = ClaimDocument::new().with("claim".to_string(), value.clone());
            let schema = ClaimsSchema::new().required("claim", *expected);
            let outcome = convert(&doc, &schema);
            if expected == kind {
                assert_eq!(outcome.unwrap().get("claim"), Some(value));
            } else {
                assert_eq!(outcome, Err(mismatch("claim", *expected, Some(*kind))));
            }
        }
    }
}

#[test]
fn numbers_keep_every_digit() {
    let doc = ClaimDocument::new()
        .with("exp".to_string(), ClaimValue::Number("18446744073709551615".to_string()))
        .with("ratio".to_string(), ClaimValue::Number("0.1".to_string()));
    let schema = ClaimsSchema::new()
        .required("exp", ClaimKind::Number)
        .required("ratio", ClaimKind::Number);
    let claims = convert(&doc, &schema).unwrap();
    assert_eq!(
        claims.get("exp").unwrap().as_number(),
        Some(&"18446744073709551615".to_string())
    );
    assert_eq!(claims.get("ratio").unwrap().as_number(), Some(&"0.1".to_string()));
}

#[test]
fn nested_documents_are_copied_whole() {
    let address = ClaimDocument::new()
        .with("city".to_string(), text("Utrecht"))
        .with("lines".to_string(), list(&["a", "b"]));
    let doc = ClaimDocument::new().with("address".to_string(), ClaimValue::Object(address));
    let schema = ClaimsSchema::new().required("address", ClaimKind::Object);
    let claims = convert(&doc, &schema).unwrap();
    let copy = claims.get("address").unwrap().as_object().unwrap();
    assert_eq!(copy.len(), 2);
    assert_eq!(copy.get("city"), Some(&text("Utrecht")));
    assert_eq!(copy.get("lines"), Some(&list(&["a", "b"])));
    assert_eq!(claims.get("address"), doc.get("address"));
}

#[test]
fn conversion_leaves_the_document_as_it_was() {
    let doc = admin_claims();
    let first = convert(&doc, &admin_shape());
    let second = convert(&doc, &admin_shape());
    assert_eq!(doc, admin_claims());
    assert_eq!(first, second);
}

#[test]
fn a_name_declared_twice_fills_two_fields() {
    let schema = ClaimsSchema::new()
        .required("name", ClaimKind::String)
        .optional("name", ClaimKind::String);
    let claims = convert(&admin_claims(), &schema).unwrap();
    assert_eq!(claims.len(), 2);
    assert_eq!(claims.field(0).unwrap().value, Some(text("admin")));
    assert_eq!(claims.field(1).unwrap().value, Some(text("admin")));
    assert_eq!(claims.text("name"), Some(&"admin".to_string()));
}

#[test]
fn one_field_is_filled_alone() {
    let doc = admin_claims();
    let name = FieldSpec { name: "name".to_string(), kind: ClaimKind::String, required: true };
    assert_eq!(convert_field(&doc, &name), Ok(Some(text("admin"))));
    let email = FieldSpec { name: "email".to_string(), kind: ClaimKind::String, required: false };
    assert_eq!(convert_field(&doc, &email), Ok(None));
    let roles = FieldSpec { name: "roles".to_string(), kind: ClaimKind::Array, required: false };
    assert_eq!(convert_field(&doc, &roles), Ok(None));
    let roles = FieldSpec { name: "roles".to_string(), kind: ClaimKind::Array, required: true };
    assert_eq!(convert_field(&doc, &roles), Err(mismatch("roles", ClaimKind::Array, None)));
    let aud = FieldSpec { name: "aud".to_string(), kind: ClaimKind::Bool, required: false };
    assert_eq!(
        convert_field(&doc, &aud),
        Err(mismatch("aud", ClaimKind::Bool, Some(ClaimKind::Array)))
    );
}

#[test]
fn shapes_are_built_field_by_field() {
    let schema = ClaimsSchema::new();
    assert_eq!(schema.len(), 0);
    assert_eq!(schema.field(0), None);
    let schema = schema.required("name", ClaimKind::String).optional("email", ClaimKind::String);
    assert_eq!(schema.len(), 2);
    assert_eq!(
        schema.field(0),
        Some(&FieldSpec { name: "name".to_string(), kind: ClaimKind::String, required: true })
    );
    assert_eq!(
        schema.field(1),
        Some(&FieldSpec { name: "email".to_string(), kind: ClaimKind::String, required: false })
    );
    let field = FieldSpec { name: "aud".to_string(), kind: ClaimKind::Array, required: true };
    let schema = schema.declare(field.clone());
    assert_eq!(schema.len(), 3);
    assert_eq!(schema.field(2), Some(&field));
    assert_eq!(schema.field(3), None);
}

#[test]
fn errors_say_what_is_wrong() {
    let error = mismatch("aud", ClaimKind::Array, Some(ClaimKind::String));
    assert_eq!(error.message(), "claim `aud`: expected array, found string");
    let error = mismatch("roles", ClaimKind::Object, None);
    assert_eq!(error.message(), "claim `roles`: expected object, found nothing");
    let error = mismatch("n", ClaimKind::Number, Some(ClaimKind::Bool));
    assert_eq!(error.message(), "claim `n`: expected number, found boolean");
    let error = mismatch("", ClaimKind::Bool, Some(ClaimKind::Null));
    assert_eq!(error.message(), "claim ``: expected boolean, found null");
    assert_eq!(
        ExtractionError::ClaimsShapeMismatch(mismatch("sub", ClaimKind::String, None)).message(),
        "claim `sub`: expected string, found nothing"
    );
    assert_eq!(
        ExtractionError::Unauthenticated.message(),
        "No token found or token is not authorized"
    );
}

#[test]
fn kinds_have_names() {
    assert_eq!(ClaimKind::Null.name(), "null");
    assert_eq!(ClaimKind::Bool.name(), "boolean");
    assert_eq!(ClaimKind::Number.name(), "number");
    assert_eq!(ClaimKind::String.name(), "string");
    assert_eq!(ClaimKind::Array.name(), "array");
    assert_eq!(ClaimKind::Object.name(), "object");
}
