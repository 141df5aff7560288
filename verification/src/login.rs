//! Login exchange: the validated credentials a caller presents and the
//! capability material handed back on success.

use vstd::prelude::*;

use crate::model::{Username, ValidString};

verus! {

/// Credentials presented at login, already shape-validated.
#[derive(Clone, Debug)]
pub struct Login {
    pub username: Username,
    pub password: ValidString,
}

/// What a successful login returns: the serialized capability token, the
/// role it carries and the identity it names.
#[derive(Clone, Debug)]
pub struct Credentials {
    pub biscuit: String,
    pub role: String,
    pub user_id: u128,
}

} // verus!
