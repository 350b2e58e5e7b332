use rust_backend::auth::{authenticated, auth_guard, bearer_token, change_password, login, Lookup};
use rust_backend::error::AuthError;
use rust_backend::model::{ChangePasswordBody, JwtClaims, LoginBody, UserData};
use rust_backend::password::{check_password, hash_password, verify_password};
use rust_backend::token::{
    claims_json, decode_token, encode_token, session_claims, unexpired, TOKEN_LIFETIME,
};

const SECRET: &str = "a3budrspk2m";

fn now() -> u64 {
    std::time::SystemTime::now()
        .duration_since(std::time::UNIX_EPOCH)
        .unwrap()
        .as_secs()
}

fn quick_hash(password: &str) -> String {
    bcrypt::hash_with_salt(password, 4, [7u8; 16]).unwrap().to_string()
}

fn alice(password_hash: String) -> UserData {
    UserData {
        id: 1,
        username: "alice".to_string(),
        password: password_hash,
        full_name: "Alice Liddell".to_string(),
        address: "Oxford".to_string(),
        phone_number: "0800".to_string(),
        photo: "alice.png".to_string(),
        role: "admin".to_string(),
        created_at: "2024-01-01T00:00:00Z".to_string(),
        updated_at: "2024-01-02T00:00:00Z".to_string(),
    }
}

fn bearer(token: &str) -> Option<Vec<u8>> {
    Some(format!("Bearer {}", token).into_bytes())
}

fn json(text: &str) -> serde_json::Value {
    serde_json::from_str(text).unwrap()
}

#[test]
fn hash_then_verify_accepts_same_password() {
    let h = hash_password("correct horse").unwrap();
    assert_ne!(h, "correct horse");
    assert_eq!(h.len(), 60);
    assert!(h.starts_with("$2b$12$"));
    assert!(verify_password("correct horse", &h));
}

#[test]
fn verify_rejects_other_password() {
    let h = quick_hash("p1");
    assert!(verify_password("p1", &h));
    assert!(!verify_password("p2", &h));
    assert_eq!(check_password("p2", &h), Some(false));
}

#[test]
fn corrupt_hash_fails_closed() {
    assert!(!verify_password("p1", "not-a-hash"));
    assert_eq!(check_password("p1", "not-a-hash"), None);
}

#[test]
fn claims_json_exact_text() {
    let mut u = alice(String::new());
    u.id = -42;
    u.full_name = "A \"q\" \\ b\n\u{1}".to_string();
    let c = JwtClaims { user_data: u, exp: 360123 };
    let expected = "{\"user_data\":{\"id\":-42,\"username\":\"alice\",\"password\":\"\",\
\"full_name\":\"A \\\"q\\\" \\\\ b\\n\\u0001\",\"address\":\"Oxford\",\"phone_number\":\"0800\",\
\"photo\":\"alice.png\",\"role\":\"admin\",\"created_at\":\"2024-01-01T00:00:00Z\",\
\"updated_at\":\"2024-01-02T00:00:00Z\"},\"exp\":360123}";
    assert_eq!(claims_json(&c), expected);
    let parsed = json(&claims_json(&c));
    assert_eq!(parsed["user_data"]["full_name"], "A \"q\" \\ b\n\u{1}");
}

#[test]
fn session_claims_blank_password_and_expiry() {
    let c = session_claims(&alice("secret-hash".to_string()), 1000);
    assert_eq!(c.user_data.password, "");
    assert_eq!(c.user_data.username, "alice");
    assert_eq!(c.user_data.role, "admin");
    assert_eq!(c.exp, 361000);
    assert_eq!(TOKEN_LIFETIME, 360000);
}

#[test]
fn token_round_trip() {
    let c = session_claims(&alice(String::new()), now());
    let token = encode_token(&c, SECRET).unwrap();
    assert_eq!(token.matches('.').count(), 2);
    let decoded = decode_token(&token, SECRET, now()).unwrap();
    assert_eq!(json(&decoded), json(&claims_json(&c)));
}

#[test]
fn expired_token_fails_decode() {
    let c = session_claims(&alice(String::new()), now() - TOKEN_LIFETIME - 3600);
    let token = encode_token(&c, SECRET).unwrap();
    assert_eq!(decode_token(&token, SECRET, now()), None);
}

#[test]
fn tampered_token_fails_decode() {
    let c = session_claims(&alice(String::new()), now());
    let token = encode_token(&c, SECRET).unwrap();
    let parts: Vec<&str> = token.split('.').collect();
    let flip = |s: &str, i: usize| -> String {
        let mut b = s.as_bytes().to_vec();
        b[i] = if b[i] == b'A' { b'B' } else { b'A' };
        String::from_utf8(b).unwrap()
    };
    let bad_sig = format!("{}.{}.{}", parts[0], parts[1], flip(parts[2], 3));
    let bad_payload = format!("{}.{}.{}", parts[0], flip(parts[1], 5), parts[2]);
    assert_eq!(decode_token(&bad_sig, SECRET, now()), None);
    assert_eq!(decode_token(&bad_payload, SECRET, now()), None);
    assert_eq!(decode_token("no-dots-here", SECRET, now()), None);
}

#[test]
fn guard_admits_valid_bearer_token() {
    let c = session_claims(&alice(String::new()), now());
    let token = encode_token(&c, SECRET).unwrap();
    let claims = auth_guard(&bearer(&token), SECRET, now()).unwrap();
    assert_eq!(json(&claims)["user_data"]["username"], "alice");
    assert!(authenticated(&bearer(&token), SECRET, now()).is_ok());
}

#[test]
fn guard_rejects_bad_requests() {
    let c = session_claims(&alice(String::new()), now());
    let token = encode_token(&c, SECRET).unwrap();
    assert_eq!(auth_guard(&None, SECRET, now()), Err(AuthError::Unauthorized));
    let no_prefix = Some(token.clone().into_bytes());
    assert_eq!(auth_guard(&no_prefix, SECRET, now()), Err(AuthError::Unauthorized));
    let lower = Some(format!("bearer {}", token).into_bytes());
    assert_eq!(auth_guard(&lower, SECRET, now()), Err(AuthError::Unauthorized));
    assert_eq!(auth_guard(&bearer(&token), "another-secret", now()), Err(AuthError::Unauthorized));
    let old = session_claims(&alice(String::new()), now() - TOKEN_LIFETIME - 3600);
    let expired = encode_token(&old, SECRET).unwrap();
    assert_eq!(auth_guard(&bearer(&expired), SECRET, now()), Err(AuthError::Unauthorized));
    assert_eq!(authenticated(&None, SECRET, now()), Err(AuthError::Unauthorized));
}

#[test]
fn bearer_token_extraction() {
    assert_eq!(bearer_token(&Some(b"Bearer abc.def".to_vec())), Some("abc.def".to_string()));
    assert_eq!(bearer_token(&Some(b"Bearer ".to_vec())), Some(String::new()));
    assert_eq!(bearer_token(&Some(b"Bearer".to_vec())), None);
    assert_eq!(bearer_token(&Some(b"Basic abc".to_vec())), None);
    assert_eq!(bearer_token(&Some(vec![66, 101, 97, 114, 101, 114, 32, 0xC3, 0xA9])), None);
    assert_eq!(bearer_token(&None), None);
}

#[test]
fn login_wrong_password_fails() {
    let body = LoginBody { username: "alice".to_string(), password: "wrong".to_string() };
    let r = login(Lookup::Found(alice(quick_hash("correct"))), &body, now(), SECRET);
    assert_eq!(r.err(), Some(AuthError::AuthenticationFailed));
}

#[test]
fn login_unknown_user_fails() {
    let body = LoginBody { username: "bob".to_string(), password: "x".to_string() };
    assert_eq!(login(Lookup::Missing, &body, now(), SECRET).err(), Some(AuthError::AuthenticationFailed));
    assert_eq!(
        login(Lookup::Unavailable, &body, now(), SECRET).err(),
        Some(AuthError::AuthenticationFailed)
    );
}

#[test]
fn login_correct_password_issues_token_with_blank_password() {
    let stored = quick_hash("correct");
    let body = LoginBody { username: "alice".to_string(), password: "correct".to_string() };
    let t = now();
    let s = login(Lookup::Found(alice(stored.clone())), &body, t, SECRET).ok().unwrap();
    assert_eq!(s.user.password, stored);
    let claims = json(&decode_token(&s.token, SECRET, t).unwrap());
    assert_eq!(claims["user_data"]["password"], "");
    assert_eq!(claims["user_data"]["username"], "alice");
    assert_eq!(claims["exp"], t + 360000);
}

#[test]
fn change_password_wrong_old_fails() {
    let body = ChangePasswordBody {
        username: "alice".to_string(),
        old_password: "wrong-old".to_string(),
        new_password: "new".to_string(),
    };
    let r = change_password(Lookup::Found(alice(quick_hash("correct-old"))), &body);
    assert_eq!(r.err(), Some(AuthError::AuthorizationFailed));
}

#[test]
fn change_password_correct_old_updates_hash() {
    let body = ChangePasswordBody {
        username: "alice".to_string(),
        old_password: "correct-old".to_string(),
        new_password: "new".to_string(),
    };
    let up = change_password(Lookup::Found(alice(quick_hash("correct-old"))), &body).ok().unwrap();
    assert_eq!(up.username, "alice");
    assert!(verify_password("new", &up.password_hash));
    assert!(!verify_password("correct-old", &up.password_hash));
}

#[test]
fn change_password_store_outcomes() {
    let body = ChangePasswordBody {
        username: "carol".to_string(),
        old_password: "a".to_string(),
        new_password: "b".to_string(),
    };
    assert_eq!(change_password(Lookup::Missing, &body).err(), Some(AuthError::NotFound));
    assert_eq!(change_password(Lookup::Unavailable, &body).err(), Some(AuthError::StoreUnavailable));
    let corrupt = alice("corrupt".to_string());
    assert_eq!(change_password(Lookup::Found(corrupt), &body).err(), Some(AuthError::OperationFailed));
}

#[test]
fn token_survives_password_change() {
    let stored = quick_hash("correct-old");
    let login_body = LoginBody { username: "alice".to_string(), password: "correct-old".to_string() };
    let s = login(Lookup::Found(alice(stored.clone())), &login_body, now(), SECRET).ok().unwrap();
    let body = ChangePasswordBody {
        username: "alice".to_string(),
        old_password: "correct-old".to_string(),
        new_password: "new".to_string(),
    };
    let up = change_password(Lookup::Found(alice(stored)), &body).ok().unwrap();
    assert_eq!(up.username, "alice");
    assert!(auth_guard(&bearer(&s.token), SECRET, now()).is_ok());
    let past = now() + TOKEN_LIFETIME + 30;
    assert_eq!(auth_guard(&bearer(&s.token), SECRET, past), Err(AuthError::Unauthorized));
}

#[test]
fn error_status_codes() {
    assert_eq!(AuthError::AuthenticationFailed.status_code(), 401);
    assert_eq!(AuthError::AuthorizationFailed.status_code(), 403);
    assert_eq!(AuthError::Unauthorized.status_code(), 401);
    assert_eq!(AuthError::NotFound.status_code(), 404);
    assert_eq!(AuthError::StoreUnavailable.status_code(), 500);
    assert_eq!(AuthError::OperationFailed.status_code(), 500);
}

#[test]
fn unexpired_judges_expiry_exactly() {
    let claims = "{\"exp\":100}".to_string();
    assert_eq!(unexpired(Some((claims.clone(), 100)), 99), Some(claims.clone()));
    assert_eq!(unexpired(Some((claims.clone(), 100)), 100), Some(claims.clone()));
    assert_eq!(unexpired(Some((claims, 100)), 101), None);
    assert_eq!(unexpired(None, 0), None);
}

#[test]
fn token_refused_thirty_seconds_after_expiry() {
    let t0 = now();
    let c = session_claims(&alice(String::new()), t0);
    let token = encode_token(&c, SECRET).unwrap();
    let exp = t0 + TOKEN_LIFETIME;
    assert!(decode_token(&token, SECRET, exp).is_some());
    assert_eq!(decode_token(&token, SECRET, exp + 1), None);
    assert_eq!(decode_token(&token, SECRET, exp + 30), None);
    assert!(auth_guard(&bearer(&token), SECRET, exp).is_ok());
    assert_eq!(auth_guard(&bearer(&token), SECRET, exp + 30), Err(AuthError::Unauthorized));
    assert_eq!(authenticated(&bearer(&token), SECRET, exp + 30), Err(AuthError::Unauthorized));
}

#[test]
fn signed_token_without_claims_expiry_is_refused() {
    let key = jsonwebtoken::EncodingKey::from_secret(SECRET.as_bytes());
    let no_exp: serde_json::Value = json("{\"user_data\":{}}");
    let token = jsonwebtoken::encode(&jsonwebtoken::Header::default(), &no_exp, &key).unwrap();
    assert_eq!(decode_token(&token, SECRET, 0), None);
    let hs512 = jsonwebtoken::Header::new(jsonwebtoken::Algorithm::HS512);
    let other_alg = jsonwebtoken::encode(&hs512, &json("{\"exp\":99999999999}"), &key).unwrap();
    assert_eq!(decode_token(&other_alg, SECRET, 0), None);
}

#[test]
fn payload_same_for_different_stored_hashes() {
    let a = session_claims(&alice("hash-one".to_string()), 5000);
    let b = session_claims(&alice("hash-two".to_string()), 5000);
    assert_eq!(claims_json(&a), claims_json(&b));
    assert!(!claims_json(&a).contains("hash-one"));
}
