//! Account administration: what to store when a user is created or updated.
use vstd::prelude::*;
use crate::auth::Lookup;
use crate::error::AuthError;
use crate::model::{UserCreateDto, UserUpdateDto};
use crate::model::UserData;
use crate::password::{bcrypt_form, hash_password, password_accepted, verify_password};
use crate::token::same_profile;

verus! {

/// A new account ready for the store: the request with its plaintext
/// password replaced by a hash of it.
pub struct NewUser {
    pub username: String,
    pub password_hash: String,
    pub full_name: String,
    pub address: String,
    pub phone_number: String,
    pub photo: String,
    pub role: String,
}

/// The write that a user update asks of the store.
pub enum UserUpdatePlan {
    /// Change the profile fields only.
    ProfileOnly,
    /// Change the profile fields and set the password hash.
    ProfileAndPassword(String),
}

/// Prepares a new account: the plaintext password never reaches the store.
pub fn create(body: UserCreateDto) -> (r: Result<NewUser, AuthError>)
    ensures
        r is Err ==> r == Err::<NewUser, AuthError>(AuthError::OperationFailed),
        r is Ok ==> {
            let u = r.unwrap();
            &&& u.username == body.username
            &&& u.full_name == body.full_name
            &&& u.address == body.address
            &&& u.phone_number == body.phone_number
            &&& u.photo == body.photo
            &&& u.role == body.role
            &&& password_accepted(body.password@, u.password_hash@)
            &&& (!bcrypt_form(body.password@) ==> u.password_hash@ != body.password@)
        },
{
    match hash_password(body.password.as_str()) {
        Some(password_hash) => Ok(
            NewUser {
                username: body.username,
                password_hash,
                full_name: body.full_name,
                address: body.address,
                phone_number: body.phone_number,
                photo: body.photo,
                role: body.role,
            },
        ),
        None => Err(AuthError::OperationFailed),
    }
}

/// An account record fit to send to a client: the same profile with the
/// password hash left out.
pub fn without_password(u: UserData) -> (r: UserData)
    ensures
        same_profile(r, u),
        r.password@ == Seq::<char>::empty(),
{
    UserData {
        id: u.id,
        username: u.username,
        password: String::new(),
        full_name: u.full_name,
        address: u.address,
        phone_number: u.phone_number,
        photo: u.photo,
        role: u.role,
        created_at: u.created_at,
        updated_at: u.updated_at,
    }
}

/// Decides how a user update touches the password.
///
/// Without a password in the request only the profile changes, and the store
/// need not be read (`stored` is ignored). With one, the stored account is
/// consulted: a password it already accepts leaves the hash alone; any other
/// is hashed and stored.
pub fn update(body: &UserUpdateDto, stored: Lookup) -> (r: Result<UserUpdatePlan, AuthError>)
    ensures
        body.password is None ==> r is Ok && r.unwrap() is ProfileOnly,
        body.password is Some ==> match stored {
            Lookup::Missing => r == Err::<UserUpdatePlan, AuthError>(AuthError::NotFound),
            Lookup::Unavailable => r == Err::<UserUpdatePlan, AuthError>(
                AuthError::StoreUnavailable,
            ),
            Lookup::Found(u) => if password_accepted(body.password.unwrap()@, u.password@) {
                r is Ok && r.unwrap() is ProfileOnly
            } else {
                match r {
                    Ok(UserUpdatePlan::ProfileAndPassword(h)) => password_accepted(
                        body.password.unwrap()@,
                        h@,
                    ),
                    Ok(UserUpdatePlan::ProfileOnly) => false,
                    Err(e) => e == AuthError::OperationFailed,
                }
            },
        },
{
    let password = match &body.password {
        Some(p) => p,
        None => {
            return Ok(UserUpdatePlan::ProfileOnly);
        },
    };
    let user = match stored {
        Lookup::Found(u) => u,
        Lookup::Missing => {
            return Err(AuthError::NotFound);
        },
        Lookup::Unavailable => {
            return Err(AuthError::StoreUnavailable);
        },
    };
    if verify_password(password.as_str(), user.password.as_str()) {
        Ok(UserUpdatePlan::ProfileOnly)
    } else {
        match hash_password(password.as_str()) {
            Some(h) => Ok(UserUpdatePlan::ProfileAndPassword(h)),
            None => Err(AuthError::OperationFailed),
        }
    }
}

} // verus!
