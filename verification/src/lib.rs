//! Typed claims for authenticated requests.
//!
//! A token verifier decodes the claims of a token into a [`ClaimDocument`]:
//! named values of any kind. A handler declares the claims it wants in a
//! [`ClaimsSchema`], and [`convert`] reshapes the document into
//! [`TypedClaims`] of that shape, or says which declared field the document
//! cannot fill. [`AuthenticatedUser::from_request`] does so for what a request
//! carries, and pairs the claims with the token they came from.
//!
//! Every function of the library is verified against its contract; the laws
//! that relate them are proved in [`document_laws`] and [`conversion_laws`].
//! The module [`json`] reads the claims sets of biscuit through serde_json.

pub mod claims;
pub mod conversion_laws;
pub mod convert;
pub mod document_laws;
pub mod extract;
pub mod identity;
pub mod json;
pub mod schema;

pub use claims::{ClaimDocument, ClaimKind, ClaimValue};
pub use convert::{convert, convert_field, ConversionError, TypedClaims, TypedField};
pub use extract::{DecodedInfo, ExtractionError};
pub use identity::AuthenticatedUser;
pub use json::ClaimsError;
pub use schema::{ClaimsSchema, FieldSpec};
