use vstd::prelude::*;

verus! {

/// What the token endpoint answers to a password grant.
#[derive(Debug, Clone)]
pub struct AuthResponse {
    pub access_token: String,
    pub token_type: String,
    pub expires_in: u64,
    pub scope: String,
}

} // verus!
