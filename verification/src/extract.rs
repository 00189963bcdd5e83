use crate::claims::ClaimDocument;
use crate::convert::{
    convert, convert_spec, mismatch_message, ConversionError, MismatchModel, ShapeModel,
    TypedClaims,
};
use crate::identity::AuthenticatedUser;
use crate::schema::ClaimsSchema;
use vstd::prelude::*;

verus! {

/// What the token verifier leaves with a request whose credential it
/// accepted: the token and its decoded claims. A request without an accepted
/// credential carries none.
#[derive(Clone, Debug, PartialEq, Eq)]
pub struct DecodedInfo {
    /// The complete encoded token, without any scheme prefix.
    pub jwt: String,
    /// The claims that the token holds.
    pub payload: ClaimDocument,
}

/// Why no user could be extracted from a request.
#[derive(Clone, Debug, PartialEq, Eq)]
pub enum ExtractionError {
    /// The request carries no decoded token.
    Unauthenticated,
    /// The request carries a decoded token whose claims do not fit the shape.
    ClaimsShapeMismatch(ConversionError),
}

impl DecodedInfo {
    /// The decoded token of a request.
    pub fn new(jwt: String, payload: ClaimDocument) -> (info: Self)
        ensures
            info.jwt == jwt,
            info.payload == payload,
    {
        DecodedInfo { jwt, payload }
    }
}

impl ExtractionError {
    /// What the error says, in words.
    pub open spec fn message_spec(self) -> Seq<char> {
        match self {
            ExtractionError::Unauthenticated => "No token found or token is not authorized"@,
            ExtractionError::ClaimsShapeMismatch(error) => mismatch_message(error@),
        }
    }

    /// What the error says, in words.
    pub fn message(&self) -> (text: String)
        ensures
            text@ == self.message_spec(),
    {
        match self {
            ExtractionError::Unauthenticated => "No token found or token is not authorized".to_owned(),
            ExtractionError::ClaimsShapeMismatch(error) => error.message(),
        }
    }
}

impl AuthenticatedUser<TypedClaims> {
    /// Extracts the user from what a request carries. Without a decoded token
    /// there is no user; with one, the user has its token and its claims in
    /// the declared shape, or the claims do not fit. Nothing but the decoded
    /// token is read, and it is left as it was.
    pub fn from_request(context: Option<&DecodedInfo>, schema: &ClaimsSchema) -> (outcome: Result<
        Self,
        ExtractionError,
    >)
        ensures
            match outcome {
                Ok(user) => context matches Some(info) && user.jwt@ == info.jwt@ && convert_spec(
                    info.payload@,
                    schema@,
                ) == Ok::<ShapeModel, MismatchModel>(user.claims@),
                Err(ExtractionError::Unauthenticated) => context is None,
                Err(ExtractionError::ClaimsShapeMismatch(error)) => context matches Some(info)
                    && convert_spec(info.payload@, schema@) == Err::<ShapeModel, MismatchModel>(
                    error@,
                ),
            },
    {
        match context {
            None => Err(ExtractionError::Unauthenticated),
            Some(info) => match convert(&info.payload, schema) {
                Ok(claims) => Ok(AuthenticatedUser { jwt: info.jwt.clone(), claims }),
                Err(error) => Err(ExtractionError::ClaimsShapeMismatch(error)),
            },
        }
    }
}

} // verus!
