//! Identity records: the stored user row, the validated creation input,
//! the public view without the password, and the administrator patch.

use vstd::prelude::*;

use crate::errors::Error;
use crate::model::{Email, Phone, Username, ValidString};
use crate::text::str_eq;

verus! {

/// A stored identity. `is_allowed` is the master authorization switch the
/// reconciliation engine reads.
#[derive(Clone, Debug)]
pub struct User {
    pub id: u128,
    pub username: String,
    pub firstname: String,
    pub lastname: String,
    pub email: String,
    pub password: String,
    pub phone: String,
    pub role: String,
    pub is_allowed: bool,
}

/// The public view of an identity: every stored field but the password.
#[derive(Clone, Debug)]
pub struct UserView {
    pub id: u128,
    pub username: String,
    pub firstname: String,
    pub lastname: String,
    pub email: String,
    pub phone: String,
    pub role: String,
    pub is_allowed: bool,
}

impl User {
    /// Drops the password and keeps every other field unchanged.
    pub fn into_view(self) -> (r: UserView)
        ensures
            r.id == self.id,
            r.username == self.username,
            r.firstname == self.firstname,
            r.lastname == self.lastname,
            r.email == self.email,
            r.phone == self.phone,
            r.role == self.role,
            r.is_allowed == self.is_allowed,
    {
        UserView {
            id: self.id,
            username: self.username,
            firstname: self.firstname,
            lastname: self.lastname,
            email: self.email,
            phone: self.phone,
            role: self.role,
            is_allowed: self.is_allowed,
        }
    }
}

/// Creation input whose every field already passed its validation rule.
#[derive(Clone, Debug)]
pub struct UserInput {
    pub username: Username,
    pub firstname: ValidString,
    pub lastname: ValidString,
    pub email: Email,
    pub password: ValidString,
    pub phone: Phone,
}

/// Creation input reduced to plain strings, ready for storage.
#[derive(Clone, Debug)]
pub struct UserInputUnchecked {
    pub username: String,
    pub firstname: String,
    pub lastname: String,
    pub email: String,
    pub password: String,
    pub phone: String,
}

impl UserInput {
    /// Unwraps every validated field to its plain text.
    pub fn into_unchecked(self) -> (r: UserInputUnchecked)
        ensures
            r.username@ == self.username@,
            r.firstname@ == self.firstname@,
            r.lastname@ == self.lastname@,
            r.email@ == self.email@,
            r.password@ == self.password@,
            r.phone@ == self.phone@,
    {
        UserInputUnchecked {
            username: self.username.into_string(),
            firstname: self.firstname.into_string(),
            lastname: self.lastname.into_string(),
            email: self.email.into_string(),
            password: self.password.into_string(),
            phone: self.phone.into_string(),
        }
    }
}

/// Gate for identity creation: the reserved name `admin` is refused,
/// every other validated input is handed on as plain strings.
pub fn create_user_input(user: UserInput) -> (r: Result<UserInputUnchecked, Error>)
    ensures
        user.username@ == "admin"@ ==> (r matches Err(e) && e is InvalidCredential),
        user.username@ != "admin"@ ==> (r matches Ok(u) && {
            &&& u.username@ == user.username@
            &&& u.firstname@ == user.firstname@
            &&& u.lastname@ == user.lastname@
            &&& u.email@ == user.email@
            &&& u.password@ == user.password@
            &&& u.phone@ == user.phone@
        }),
{
    if str_eq(user.username.get().as_str(), "admin") {
        Err(Error::InvalidCredential)
    } else {
        Ok(user.into_unchecked())
    }
}

/// An administrator's partial update of an identity: absent fields keep
/// their stored value.
#[derive(Clone, Debug)]
pub struct UserPatch {
    pub id: u128,
    pub username: Option<Username>,
    pub firstname: Option<ValidString>,
    pub lastname: Option<ValidString>,
    pub email: Option<Email>,
    pub phone: Option<Phone>,
    pub role: Option<ValidString>,
    pub is_allowed: Option<bool>,
}

/// Merges a patch over the stored identity: patched fields take the
/// patch's validated value, absent fields keep the stored one, and the
/// password is never patched.
pub fn apply_patch(current: User, patch: UserPatch) -> (r: User)
    ensures
        r.id == patch.id,
        (match patch.username {
            Some(n) => r.username@ == n@,
            None => r.username == current.username,
        }),
        (match patch.firstname {
            Some(n) => r.firstname@ == n@,
            None => r.firstname == current.firstname,
        }),
        (match patch.lastname {
            Some(n) => r.lastname@ == n@,
            None => r.lastname == current.lastname,
        }),
        (match patch.email {
            Some(n) => r.email@ == n@,
            None => r.email == current.email,
        }),
        (match patch.phone {
            Some(n) => r.phone@ == n@,
            None => r.phone == current.phone,
        }),
        (match patch.role {
            Some(n) => r.role@ == n@,
            None => r.role == current.role,
        }),
        r.password == current.password,
        r.is_allowed == (match patch.is_allowed {
            Some(b) => b,
            None => current.is_allowed,
        }),
{
    User {
        id: patch.id,
        username: match patch.username {
            Some(n) => n.into_string(),
            None => current.username,
        },
        firstname: match patch.firstname {
            Some(n) => n.into_string(),
            None => current.firstname,
        },
        lastname: match patch.lastname {
            Some(n) => n.into_string(),
            None => current.lastname,
        },
        email: match patch.email {
            Some(n) => n.into_string(),
            None => current.email,
        },
        password: current.password,
        phone: match patch.phone {
            Some(n) => n.into_string(),
            None => current.phone,
        },
        role: match patch.role {
            Some(n) => n.into_string(),
            None => current.role,
        },
        is_allowed: match patch.is_allowed {
            Some(b) => b,
            None => current.is_allowed,
        },
    }
}

} // verus!
