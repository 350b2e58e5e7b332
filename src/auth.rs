//! Login, password change and request admission.
//!
//! The credential store lives outside the library: its caller looks the
//! account up, hands the outcome in as a [`Lookup`], and performs the
//! [`PasswordUpdate`] that a successful password change returns.
use vstd::prelude::*;
use crate::error::AuthError;
use crate::model::{ChangePasswordBody, LoginBody, UserData};
use crate::password::{
    bcrypt_form, bcrypt_verdict, check_password, hash_password, password_accepted, verify_password,
};
use crate::token::{
    TOKEN_LIFETIME, claims_text, decode_token, dot_count, encode_token, session_claims,
    session_payload, signed_token, text_of, valid_claims,
};

verus! {

/// Outcome of looking an account up by username in the credential store.
pub enum Lookup {
    Found(UserData),
    Missing,
    Unavailable,
}

/// A successful login: the session token and the account's record.
pub struct LoginSuccess {
    pub token: String,
    pub user: UserData,
}

/// The write a password change asks of the credential store: set the hash of
/// the account named `username` to `password_hash`, and nothing else.
pub struct PasswordUpdate {
    pub username: String,
    pub password_hash: String,
}

/// Logs a user in.
///
/// An unknown user, an unreachable store and a wrong password all fail with
/// `AuthenticationFailed`, so that a caller cannot tell them apart. On a
/// match the token signs the account's profile with an empty password and an
/// expiry `TOKEN_LIFETIME` seconds after `now`.
pub fn login(lookup: Lookup, body: &LoginBody, now: u64, secret: &str) -> (r: Result<
    LoginSuccess,
    AuthError,
>)
    requires
        now + TOKEN_LIFETIME <= usize::MAX,
    ensures
        match lookup {
            Lookup::Found(u) => if password_accepted(body.password@, u.password@) {
                match r {
                    Ok(s) => s.user == u && signed_token(session_payload(u, now as nat), secret@)
                        == Some(s.token@),
                    Err(e) => e == AuthError::OperationFailed && signed_token(
                        session_payload(u, now as nat),
                        secret@,
                    ) is None,
                }
            } else {
                r == Err::<LoginSuccess, AuthError>(AuthError::AuthenticationFailed)
            },
            _ => r == Err::<LoginSuccess, AuthError>(AuthError::AuthenticationFailed),
        },
{
    let user = match lookup {
        Lookup::Found(u) => u,
        _ => {
            return Err(AuthError::AuthenticationFailed);
        },
    };
    if !verify_password(body.password.as_str(), user.password.as_str()) {
        return Err(AuthError::AuthenticationFailed);
    }
    let claims = session_claims(&user, now);
    assert(claims_text(claims) =~= session_payload(user, now as nat));
    match encode_token(&claims, secret) {
        Some(token) => Ok(LoginSuccess { token, user }),
        None => Err(AuthError::OperationFailed),
    }
}

/// Changes a password after re-checking the old one.
///
/// Already issued tokens are left alone: they stay valid until they expire.
pub fn change_password(lookup: Lookup, body: &ChangePasswordBody) -> (r: Result<
    PasswordUpdate,
    AuthError,
>)
    ensures
        match lookup {
            Lookup::Missing => r == Err::<PasswordUpdate, AuthError>(AuthError::NotFound),
            Lookup::Unavailable => r == Err::<PasswordUpdate, AuthError>(
                AuthError::StoreUnavailable,
            ),
            Lookup::Found(u) => if password_accepted(body.old_password@, u.password@) {
                match r {
                    Ok(up) => up.username@ == body.username@ && password_accepted(
                        body.new_password@,
                        up.password_hash@,
                    ) && (!bcrypt_form(body.new_password@) ==> up.password_hash@
                        != body.new_password@),
                    Err(e) => e == AuthError::OperationFailed,
                }
            } else if bcrypt_verdict(body.old_password@, u.password@) is None {
                r == Err::<PasswordUpdate, AuthError>(AuthError::OperationFailed)
            } else {
                r == Err::<PasswordUpdate, AuthError>(AuthError::AuthorizationFailed)
            },
        },
{
    let user = match lookup {
        Lookup::Found(u) => u,
        Lookup::Missing => {
            return Err(AuthError::NotFound);
        },
        Lookup::Unavailable => {
            return Err(AuthError::StoreUnavailable);
        },
    };
    match check_password(body.old_password.as_str(), user.password.as_str()) {
        None => Err(AuthError::OperationFailed),
        Some(false) => Err(AuthError::AuthorizationFailed),
        Some(true) => match hash_password(body.new_password.as_str()) {
            Some(password_hash) => Ok(
                PasswordUpdate { username: body.username.clone(), password_hash },
            ),
            None => Err(AuthError::OperationFailed),
        },
    }
}

/// The prefix that introduces a bearer token in an `Authorization` header.
pub open spec fn bearer_prefix() -> Seq<u8> {
    seq![66u8, 101u8, 97u8, 114u8, 101u8, 114u8, 32u8]
}

/// A header byte that reads as text: a tab or visible ASCII.
pub open spec fn is_text_byte(b: u8) -> bool {
    b == 9 || (32 <= b && b < 127)
}

/// The token carried by an `Authorization` header value: present only when
/// the header is there, reads as text and starts with `Bearer `.
pub open spec fn bearer_token_of(header: Option<Seq<u8>>) -> Option<Seq<char>> {
    match header {
        Some(h) => if (forall|i: int| 0 <= i < h.len() ==> is_text_byte(#[trigger] h[i]))
            && h.len() >= 7 && h.take(7) == bearer_prefix() {
            Some(h.skip(7).map_values(|b: u8| b as char))
        } else {
            None
        },
        None => None,
    }
}

/// A header made of `Bearer ` followed by text bytes carries exactly those
/// bytes as its token; a header whose first bytes differ from `Bearer `
/// carries none.
pub proof fn bearer_header_law(t: Seq<u8>, other: Seq<u8>)
    requires
        forall|i: int| 0 <= i < t.len() ==> is_text_byte(#[trigger] t[i]),
        other.len() < 7 || other.take(7) != bearer_prefix(),
    ensures
        bearer_token_of(Some(bearer_prefix() + t)) == Some(t.map_values(|b: u8| b as char)),
        bearer_token_of(Some(other)) is None,
{
    let h = bearer_prefix() + t;
    assert(h.take(7) =~= bearer_prefix());
    assert(h.skip(7) =~= t);
    assert forall|i: int| 0 <= i < h.len() implies is_text_byte(#[trigger] h[i]) by {
        if i >= 7 {
            assert(h[i] == t[i - 7]);
        }
    }
}

/// The view of an optional header value.
pub open spec fn header_view(header: &Option<Vec<u8>>) -> Option<Seq<u8>> {
    match header {
        Some(h) => Some(h@),
        None => None,
    }
}

/// Extracts the bearer token from an `Authorization` header value.
pub fn bearer_token(header: &Option<Vec<u8>>) -> (r: Option<String>)
    ensures
        text_of(r) == bearer_token_of(header_view(header)),
{
    let h = match header {
        Some(h) => h,
        None => {
            return None;
        },
    };
    assert(header_view(header) == Some(h@));
    let n: usize = h.len();
    let mut i: usize = 0;
    while i < n
        invariant
            n == h@.len(),
            header_view(header) == Some(h@),
            i <= n,
            forall|k: int| 0 <= k < i ==> is_text_byte(#[trigger] h@[k]),
        decreases n - i,
    {
        let b = h[i];
        if !(b == 9 || (32 <= b && b < 127)) {
            assert(!is_text_byte(h@[i as int]));
            return None;
        }
        i = i + 1;
    }
    if n < 7 || h[0] != 66 || h[1] != 101 || h[2] != 97 || h[3] != 114 || h[4] != 101 || h[5]
        != 114 || h[6] != 32 {
        assert(n >= 7 ==> h@.take(7) != bearer_prefix()) by {
            if n >= 7 && h@.take(7) == bearer_prefix() {
                assert(h@.take(7)[0] == h@[0]);
                assert(h@.take(7)[1] == h@[1]);
                assert(h@.take(7)[2] == h@[2]);
                assert(h@.take(7)[3] == h@[3]);
                assert(h@.take(7)[4] == h@[4]);
                assert(h@.take(7)[5] == h@[5]);
                assert(h@.take(7)[6] == h@[6]);
            }
        }
        return None;
    }
    assert(h@.take(7) =~= bearer_prefix());
    let mut token = String::new();
    let mut j: usize = 7;
    while j < n
        invariant
            n == h@.len(),
            7 <= j <= n,
            token@ == h@.subrange(7, j as int).map_values(|b: u8| b as char),
        decreases n - j,
    {
        token.push(h[j] as char);
        assert(h@.subrange(7, j as int + 1).map_values(|b: u8| b as char) =~= h@.subrange(
            7,
            j as int,
        ).map_values(|b: u8| b as char).push(h@[j as int] as char));
        j = j + 1;
    }
    assert(h@.subrange(7, n as int) =~= h@.skip(7));
    Some(token)
}

/// What the guard hands on for a request with this `Authorization` header at
/// time `now`: the claims of a bearer token that is signed with `secret` and
/// not past its expiry, and nothing otherwise.
pub open spec fn admitted_claims(header: Option<Seq<u8>>, secret: Seq<char>, now: u64) -> Option<
    Seq<char>,
> {
    match bearer_token_of(header) {
        Some(t) => valid_claims(t, secret, now),
        None => None,
    }
}

/// Admits a request to a protected route.
///
/// The request passes exactly when its `Authorization` header reads
/// `Bearer <token>` and the token is signed with `secret` and not past its
/// expiry at `now`; its claims are then handed back as JSON text for the
/// handler. Every other request fails with `Unauthorized`. The decision reads
/// nothing but the header, the secret and the time: the credential store
/// plays no part, so a password change leaves issued tokens valid until they
/// expire.
pub fn auth_guard(header: &Option<Vec<u8>>, secret: &str, now: u64) -> (r: Result<String, AuthError>)
    ensures
        match r {
            Ok(c) => admitted_claims(header_view(header), secret@, now) == Some(c@),
            Err(e) => e == AuthError::Unauthorized && admitted_claims(
                header_view(header),
                secret@,
                now,
            ) is None,
        },
        r is Ok ==> dot_count(bearer_token_of(header_view(header)).unwrap()) >= 2,
{
    match bearer_token(header) {
        None => Err(AuthError::Unauthorized),
        Some(token) => match decode_token(token.as_str(), secret, now) {
            Some(claims) => Ok(claims),
            None => Err(AuthError::Unauthorized),
        },
    }
}

/// Reports the claims of the caller's session token, or `Unauthorized`, on
/// the same terms as [`auth_guard`].
pub fn authenticated(header: &Option<Vec<u8>>, secret: &str, now: u64) -> (r: Result<
    String,
    AuthError,
>)
    ensures
        match r {
            Ok(c) => admitted_claims(header_view(header), secret@, now) == Some(c@),
            Err(e) => e == AuthError::Unauthorized && admitted_claims(
                header_view(header),
                secret@,
                now,
            ) is None,
        },
        r is Ok ==> dot_count(bearer_token_of(header_view(header)).unwrap()) >= 2,
{
    auth_guard(header, secret, now)
}

} // verus!
