//! Session tokens: claims built from an identity, rendered as JSON and signed
//! with a shared secret (HS256 JSON Web Tokens).
use vstd::prelude::*;
use vstd::string::StringExecFns;
use crate::model::{JwtClaims, UserData};
use crate::text::{json_string, signed_decimal, decimal, push_json_string, push_signed_decimal, push_decimal};

verus! {

/// How long a session token stays valid after issuance, in seconds.
pub const TOKEN_LIFETIME: u64 = 360000;

/// The JSON object for an identity, with `password` in place of its hash.
pub open spec fn identity_text(u: UserData, password: Seq<char>) -> Seq<char> {
    "{\"id\":"@ + signed_decimal(u.id as int)
        + ",\"username\":"@ + json_string(u.username@)
        + ",\"password\":"@ + json_string(password)
        + ",\"full_name\":"@ + json_string(u.full_name@)
        + ",\"address\":"@ + json_string(u.address@)
        + ",\"phone_number\":"@ + json_string(u.phone_number@)
        + ",\"photo\":"@ + json_string(u.photo@)
        + ",\"role\":"@ + json_string(u.role@)
        + ",\"created_at\":"@ + json_string(u.created_at@)
        + ",\"updated_at\":"@ + json_string(u.updated_at@)
        + "}"@
}

/// The JSON text of a set of claims.
pub open spec fn claims_text(c: JwtClaims) -> Seq<char> {
    "{\"user_data\":"@ + identity_text(c.user_data, c.user_data.password@)
        + ",\"exp\":"@ + decimal(c.exp as nat)
        + "}"@
}

/// The claims payload issued to `u` at time `now`: the identity with an empty
/// password, and an expiry `TOKEN_LIFETIME` seconds later.
pub open spec fn session_payload(u: UserData, now: nat) -> Seq<char> {
    "{\"user_data\":"@ + identity_text(u, Seq::empty())
        + ",\"exp\":"@ + decimal((now + TOKEN_LIFETIME) as nat)
        + "}"@
}

/// `a` and `b` describe the same account in every field but the password.
pub open spec fn same_profile(a: UserData, b: UserData) -> bool {
    &&& a.id == b.id
    &&& a.username@ == b.username@
    &&& a.full_name@ == b.full_name@
    &&& a.address@ == b.address@
    &&& a.phone_number@ == b.phone_number@
    &&& a.photo@ == b.photo@
    &&& a.role@ == b.role@
    &&& a.created_at@ == b.created_at@
    &&& a.updated_at@ == b.updated_at@
}

/// The payload issued for an account does not depend on its stored password
/// hash: two records with the same profile get the same payload, so no token
/// carries anything of the hash.
pub proof fn payload_ignores_password(a: UserData, b: UserData, now: nat)
    requires
        same_profile(a, b),
    ensures
        session_payload(a, now) == session_payload(b, now),
{
}

/// The view of an optional string.
pub open spec fn text_of(r: Option<String>) -> Option<Seq<char>> {
    match r {
        Some(s) => Some(s@),
        None => None,
    }
}

/// Number of `.` separators in a token.
pub open spec fn dot_count(s: Seq<char>) -> nat
    decreases s.len(),
{
    if s.len() == 0 {
        0
    } else {
        dot_count(s.drop_last()) + if s.last() == '.' { 1nat } else { 0nat }
    }
}

/// The compact token that jsonwebtoken produces for the JSON claims `payload`
/// under the default header and an HMAC key made of `secret`, or `None` when
/// the payload is not JSON.
pub uninterp spec fn signed_token(payload: Seq<char>, secret: Seq<char>) -> Option<Seq<char>>;

/// Relies on `serde_json::from_str` to read the claims and on
/// `jsonwebtoken::encode` with `Header::default()` (HS256) and
/// `EncodingKey::from_secret`: HMAC signing is deterministic, so the token is
/// a function of the payload and the secret.
#[verifier::external_body]
fn jwt_encode(payload: &str, secret: &str) -> (r: Option<String>)
    ensures
        text_of(r) == signed_token(payload@, secret@),
{
    let claims: serde_json::Value = serde_json::from_str(payload).ok()?;
    let key = jsonwebtoken::EncodingKey::from_secret(secret.as_bytes());
    jsonwebtoken::encode(&jsonwebtoken::Header::default(), &claims, &key).ok()
}

/// The claims of a token whose HS256 signature checks out under an HMAC key
/// made of `secret`, as JSON text, with their `exp` claim; `None` for a
/// malformed token, another algorithm, a bad signature, or claims without a
/// numeric `exp`. Expiry is not judged here.
pub uninterp spec fn verified_claims(token: Seq<char>, secret: Seq<char>) -> Option<(Seq<char>, u64)>;

/// The view of an optional pair of claims text and expiry.
pub open spec fn claims_view(r: Option<(String, u64)>) -> Option<(Seq<char>, u64)> {
    match r {
        Some((c, e)) => Some((c@, e)),
        None => None,
    }
}

/// Relies on `jsonwebtoken::decode` with `DecodingKey::from_secret` and
/// `Validation::default()` with `validate_exp` turned off: HS256 only, the
/// signature checked, `exp` required to be an unsigned integer, the clock not
/// read. The outcome depends on the token and the secret alone. The claims
/// come back as JSON text through serde_json, with the `exp` that validation
/// has already parsed. A token without two `.` separators is refused before
/// anything else is read.
#[verifier::external_body]
fn jwt_verify(token: &str, secret: &str) -> (r: Option<(String, u64)>)
    ensures
        claims_view(r) == verified_claims(token@, secret@),
        r is Some ==> dot_count(token@) >= 2,
{
    let key = jsonwebtoken::DecodingKey::from_secret(secret.as_bytes());
    let mut validation = jsonwebtoken::Validation::default();
    validation.validate_exp = false;
    let data = jsonwebtoken::decode::<serde_json::Value>(token, &key, &validation).ok()?;
    let exp = data.claims.get("exp")?.as_u64()?;
    Some((data.claims.to_string(), exp))
}

/// The claims of a token that is valid at time `now`: signed with `secret`
/// and not past its expiry (`now <= exp`).
pub open spec fn valid_claims(token: Seq<char>, secret: Seq<char>, now: u64) -> Option<Seq<char>> {
    match verified_claims(token, secret) {
        Some((c, e)) => if now <= e {
            Some(c)
        } else {
            None
        },
        None => None,
    }
}

/// A copy of `s`, character for character.
fn copy_text(s: &String) -> (r: String)
    ensures
        r@ == s@,
{
    s.clone()
}

/// The claims issued to `user` at time `now`: the same profile, an empty
/// password, and an expiry `TOKEN_LIFETIME` seconds after `now`.
pub fn session_claims(user: &UserData, now: u64) -> (c: JwtClaims)
    requires
        now + TOKEN_LIFETIME <= usize::MAX,
    ensures
        same_profile(c.user_data, *user),
        c.user_data.password@ == Seq::<char>::empty(),
        c.exp == now + TOKEN_LIFETIME,
{
    let user_data = UserData {
        id: user.id,
        username: copy_text(&user.username),
        password: String::new(),
        full_name: copy_text(&user.full_name),
        address: copy_text(&user.address),
        phone_number: copy_text(&user.phone_number),
        photo: copy_text(&user.photo),
        role: copy_text(&user.role),
        created_at: copy_text(&user.created_at),
        updated_at: copy_text(&user.updated_at),
    };
    JwtClaims { user_data, exp: (now + TOKEN_LIFETIME) as usize }
}

/// Appends a key (with its leading punctuation) and a JSON string value.
fn push_field(out: &mut String, key: &str, value: &str)
    ensures
        final(out)@ == old(out)@ + key@ + json_string(value@),
{
    out.append(key);
    push_json_string(out, value);
}

/// Appends the JSON object for an identity, with `password` in place of its
/// stored one.
fn push_identity(out: &mut String, u: &UserData, password: &str)
    ensures
        final(out)@ == old(out)@ + identity_text(*u, password@),
{
    let ghost before = out@;
    out.append("{\"id\":");
    push_signed_decimal(out, u.id);
    push_field(out, ",\"username\":", u.username.as_str());
    push_field(out, ",\"password\":", password);
    push_field(out, ",\"full_name\":", u.full_name.as_str());
    push_field(out, ",\"address\":", u.address.as_str());
    push_field(out, ",\"phone_number\":", u.phone_number.as_str());
    push_field(out, ",\"photo\":", u.photo.as_str());
    push_field(out, ",\"role\":", u.role.as_str());
    push_field(out, ",\"created_at\":", u.created_at.as_str());
    push_field(out, ",\"updated_at\":", u.updated_at.as_str());
    out.append("}");
    assert(out@ =~= before + identity_text(*u, password@));
}

/// Renders claims as JSON text.
pub fn claims_json(c: &JwtClaims) -> (r: String)
    ensures
        r@ == claims_text(*c),
{
    let mut out = String::new();
    out.append("{\"user_data\":");
    push_identity(&mut out, &c.user_data, c.user_data.password.as_str());
    out.append(",\"exp\":");
    push_decimal(&mut out, c.exp as u64);
    out.append("}");
    assert(out@ =~= claims_text(*c));
    out
}

/// Signs claims into a compact token; `None` only if signing fails.
pub fn encode_token(c: &JwtClaims, secret: &str) -> (r: Option<String>)
    ensures
        text_of(r) == signed_token(claims_text(*c), secret@),
{
    let payload = claims_json(c);
    jwt_encode(payload.as_str(), secret)
}

/// Judges expiry on the outcome of a signature check: the claims pass while
/// `now` is at or before their `exp`, and not a second later.
pub fn unexpired(verified: Option<(String, u64)>, now: u64) -> (r: Option<String>)
    ensures
        match claims_view(verified) {
            Some((c, e)) => if now <= e {
                text_of(r) == Some(c)
            } else {
                r is None
            },
            None => r is None,
        },
{
    match verified {
        Some((claims, exp)) => if now <= exp {
            Some(claims)
        } else {
            None
        },
        None => None,
    }
}

/// Checks a token's signature and, against `now`, its expiry, and returns its
/// claims as JSON text; `None` for a malformed, badly signed or expired token.
pub fn decode_token(token: &str, secret: &str, now: u64) -> (r: Option<String>)
    ensures
        text_of(r) == valid_claims(token@, secret@, now),
        r is Some ==> dot_count(token@) >= 2,
{
    unexpired(jwt_verify(token, secret), now)
}

} // verus!
