use vstd::prelude::*;

verus! {

/// An authenticated user: the token that a request carried, and the claims
/// of that token in the shape that the caller chose.
#[derive(Clone, Debug, PartialEq, Eq)]
pub struct AuthenticatedUser<T> {
    /// The complete encoded token, without any scheme prefix.
    pub jwt: String,
    /// The claims of the token, in the caller's shape.
    pub claims: T,
}

impl<T> AuthenticatedUser<T> {
    /// Pairs a token with the claims that were read from it.
    pub fn new(jwt: String, claims: T) -> (user: Self)
        ensures
            user.jwt == jwt,
            user.claims == claims,
    {
        AuthenticatedUser { jwt, claims }
    }
}

} // verus!
