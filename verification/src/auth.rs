//! Identity: signed, time-bounded assertions of who is calling, and the
//! login decision.
//!
//! A token encodes a subject id and an absolute expiry instant.  What the
//! signing and parsing produce is named (`token_of`, `claims_of`): both
//! are functions of their inputs alone, and a signed token parses back to
//! the claims it encodes.  Expiry is judged here, in verified code,
//! against an instant the caller supplies, so verification is a pure
//! function of token, secret and time, pinned in both directions.
//! Optional authentication never fails a request: an absent or bad token
//! degrades to anonymous.

use vstd::prelude::*;
use crate::error::AppError;
use argon2::PasswordVerifier;

verus! {

/// What a token asserts: a subject and an expiry instant in unix seconds.
#[derive(Debug, Clone)]
pub struct Claims {
    pub sub: String,
    pub exp: u64,
}

/// A verified caller identity.
pub struct AuthUser {
    pub user_id: String,
}

/// An optionally present caller identity: `None` is anonymous.
pub struct MaybeUser(pub Option<AuthUser>);

/// The row the login decision inspects: a user's id and stored hash.
pub struct CredentialRow {
    pub id: String,
    pub password_hash: String,
}

/// The credentials a login request carries.
#[derive(Debug, Clone)]
pub struct LoginInput {
    pub username: String,
    pub password: String,
}

/// The token that signing produces for a subject, expiry and secret.
pub uninterp spec fn token_of(sub: Seq<char>, exp: int, secret: Seq<char>) -> Seq<char>;

/// The claims a token parses to under a secret: `Some` exactly when the
/// structure and signature are valid, the subject is a string and the
/// expiry a number.  The clock plays no part in this name.
pub uninterp spec fn claims_of(token: Seq<char>, secret: Seq<char>) -> Option<(Seq<char>, int)>;

/// Relies on `jsonwebtoken::encode` with HS256: the token is a function of
/// the claims and the secret alone, and encoding a string-and-integer
/// claims map under an HMAC key cannot fail — `encode` errs only on an
/// algorithm-family mismatch or a serialization failure, neither of which
/// is possible here.  The second clause is the round trip the same
/// crate's `decode` documents: the token parses back, under the same
/// secret, to exactly the claims that were encoded.
#[verifier::external_body]
fn encode_token(sub: &String, exp: u64, secret: &String) -> (r: Result<String, ()>)
    ensures
        r is Ok,
        r matches Ok(t) ==> t@ == token_of(sub@, exp as int, secret@),
        r matches Ok(t) ==> claims_of(t@, secret@) == Some((sub@, exp as int)),
{
    let mut m = serde_json::Map::new();
    m.insert("sub".to_string(), serde_json::Value::String(sub.clone()));
    m.insert("exp".to_string(), serde_json::Value::from(exp));
    jsonwebtoken::encode(
        &jsonwebtoken::Header::new(jsonwebtoken::Algorithm::HS256),
        &serde_json::Value::Object(m),
        &jsonwebtoken::EncodingKey::from_secret(secret.as_bytes()),
    ).map_err(|_| ())
}

/// Relies on `jsonwebtoken::decode` with HS256 and expiry validation
/// switched off: the outcome is then a function of the token and the
/// secret alone, so it succeeds exactly when the token parses — structure
/// and signature valid, `sub` a string, `exp` a number — and returns
/// exactly those claims.  Expiry is judged by the caller, in verified
/// code.
#[verifier::external_body]
fn decode_token_untimed(token: &str, secret: &String) -> (r: Result<Claims, ()>)
    ensures
        r is Ok <==> claims_of(token@, secret@) is Some,
        r matches Ok(c) ==> claims_of(token@, secret@) == Some((c.sub@, c.exp as int)),
{
    let mut validation = jsonwebtoken::Validation::new(jsonwebtoken::Algorithm::HS256);
    validation.validate_exp = false;
    let data = jsonwebtoken::decode::<serde_json::Value>(
        token,
        &jsonwebtoken::DecodingKey::from_secret(secret.as_bytes()),
        &validation,
    ).map_err(|_| ())?;
    let sub = data.claims.get("sub").and_then(|v| v.as_str()).ok_or(())?;
    let exp = data.claims.get("exp").and_then(|v| v.as_u64()).ok_or(())?;
    Ok(Claims { sub: sub.to_string(), exp })
}

/// Whether a supplied plaintext matches a stored password hash.  A hash
/// that fails to parse never matches.
pub uninterp spec fn argon2_matches(hash: Seq<char>, password: Seq<char>) -> bool;

/// Relies on argon2's `PasswordVerifier` over PHC-format hash strings: the
/// decision is a function of the stored hash and the supplied plaintext,
/// and a stored hash that does not parse is reported as a mismatch, never
/// distinguished.
#[verifier::external_body]
fn password_matches(hash: &String, password: &String) -> (r: bool)
    ensures
        r == argon2_matches(hash@, password@),
{
    argon2::Argon2::default().verify_password(password.as_bytes(), hash.as_str()).is_ok()
}

/// Issue a token for `sub` that expires `ttl_minutes` after `now_unix`.
/// Issuing always succeeds; the bounds keep the expiry arithmetic inside
/// the machine range.  The token verifies back, under the same secret and
/// before its expiry, to exactly this subject and expiry.
pub fn sign(sub: &String, secret: &String, now_unix: i64, ttl_minutes: i64) -> (r: Result<
    String,
    AppError,
>)
    requires
        0 <= now_unix,
        0 <= ttl_minutes,
        now_unix + ttl_minutes * 60 <= i64::MAX,
    ensures
        r is Ok,
        r matches Ok(t) ==> t@ == token_of(sub@, now_unix + ttl_minutes * 60, secret@),
        r matches Ok(t) ==> claims_of(t@, secret@) == Some((
            sub@,
            (now_unix + ttl_minutes * 60) as int,
        )),
{
    let exp: u64 = (now_unix + ttl_minutes * 60) as u64;
    match encode_token(sub, exp, secret) {
        Ok(t) => Ok(t),
        Err(_) => Err(AppError::Internal),
    }
}

/// Verify a token at the instant `now_unix`: a pure function of the
/// token, the secret and the time.  It succeeds exactly when the token
/// parses under this secret and its expiry lies strictly after
/// `now_unix`, and then returns exactly the encoded claims; every failure
/// — bad signature, malformed structure, or expiry reached — is
/// `Unauthorized`.
pub fn verify(token: &str, secret: &String, now_unix: i64) -> (r: Result<Claims, AppError>)
    ensures
        r is Ok <==> (claims_of(token@, secret@) matches Some(p) && p.1 > now_unix),
        r matches Ok(c) ==> claims_of(token@, secret@) == Some((c.sub@, c.exp as int)),
        r matches Err(e) ==> e is Unauthorized,
{
    match decode_token_untimed(token, secret) {
        Ok(c) => {
            let unexpired = now_unix < 0 || c.exp > (now_unix as u64);
            if unexpired {
                Ok(c)
            } else {
                Err(AppError::Unauthorized)
            }
        },
        Err(_) => Err(AppError::Unauthorized),
    }
}

impl AuthUser {
    /// The identity a verified set of claims asserts.
    pub fn from_claims(c: Claims) -> (u: AuthUser)
        ensures
            u.user_id == c.sub,
    {
        AuthUser { user_id: c.sub }
    }
}

impl MaybeUser {
    /// Optional authentication: a verification outcome that failed, for any
    /// reason, degrades to anonymous rather than to an error.
    pub fn from_verify(r: Result<Claims, AppError>) -> (m: MaybeUser)
        ensures
            r matches Ok(c) ==> m.0 matches Some(u) && u.user_id == c.sub,
            r is Err ==> m.0 is None,
    {
        match r {
            Ok(c) => MaybeUser(Some(AuthUser { user_id: c.sub })),
            Err(_) => MaybeUser(None),
        }
    }

    /// The caller id to evaluate access with: a user id or anonymous.
    pub fn caller_id(self) -> (r: Option<String>)
        ensures
            self.0 matches Some(u) ==> r matches Some(id) && id == u.user_id,
            self.0 is None ==> r is None,
    {
        match self {
            MaybeUser(Some(u)) => Some(u.user_id),
            MaybeUser(None) => None,
        }
    }
}

/// The login decision: succeed exactly when a row was found and the
/// supplied password matches its stored hash, and then issue a token for
/// the row's id; any credential failure — no such user, or a password
/// that does not match — is `Unauthorized`, with the cause never
/// distinguished.
pub fn login(
    row: Option<CredentialRow>,
    password: &String,
    secret: &String,
    now_unix: i64,
    ttl_minutes: i64,
) -> (r: Result<String, AppError>)
    requires
        0 <= now_unix,
        0 <= ttl_minutes,
        now_unix + ttl_minutes * 60 <= i64::MAX,
    ensures
        r is Ok <==> (row matches Some(cr) && argon2_matches(cr.password_hash@, password@)),
        r matches Ok(t) ==> (row matches Some(cr) && t@ == token_of(
            cr.id@,
            now_unix + ttl_minutes * 60,
            secret@,
        ) && claims_of(t@, secret@) == Some((cr.id@, (now_unix + ttl_minutes * 60) as int))),
        r matches Err(e) ==> e is Unauthorized,
{
    match row {
        Some(cr) => {
            if password_matches(&cr.password_hash, password) {
                sign(&cr.id, secret, now_unix, ttl_minutes)
            } else {
                Err(AppError::Unauthorized)
            }
        },
        None => Err(AppError::Unauthorized),
    }
}

} // verus!
