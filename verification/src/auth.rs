//! The claims model and the token codec.
//!
//! A token is an opaque signed string: the HS512 encoding of the claims under
//! the process-wide secret. `create_jwt` issues one, already carrying the
//! `"Bearer "` scheme prefix; `validate_token` re-checks the signature and
//! the algorithm tag and rejects expired tokens.

use vstd::prelude::*;
use vstd::string::*;

verus! {

/// Seconds a token stays valid after issuance.
pub const TTL_SECONDS: u64 = 3600;

/// The fixed issuer written into every token this service signs.
pub open spec fn issuer_spec() -> Seq<char> {
    "test"@
}

/// The fixed process-wide signing secret. Hardcoding it is a known weakness
/// of this service, not a design feature; it stands for a configuration value
/// read once at startup and never rewritten.
pub open spec fn secret_spec() -> Seq<char> {
    "Jwt_Secret"@
}

pub(crate) fn issuer_str() -> (r: &'static str)
    ensures
        r@ == issuer_spec(),
{
    "test"
}

pub(crate) fn secret_str() -> (r: &'static str)
    ensures
        r@ == secret_spec(),
{
    "Jwt_Secret"
}

/// The payload carried inside a token.
#[derive(Debug, Clone, PartialEq, Eq)]
pub struct Claims {
    /// Identifier of the signing authority; the same fixed value in every token.
    pub iss: String,
    /// Unix timestamp in seconds after which the token is invalid.
    pub exp: u64,
    /// The authenticated user's numeric identifier.
    pub id: i32,
}

impl Claims {
    /// Builds the claims for `id` with the fixed issuer; no validation happens
    /// here, expiration is the codec's business at verification time.
    pub fn new(id: &i32, exp: u64) -> (c: Claims)
        ensures
            c.iss@ == issuer_spec(),
            c.exp == exp,
            c.id == *id,
    {
        Claims { iss: String::from_str(issuer_str()), exp, id: *id }
    }
}

/// Why verification of a present token failed.
#[derive(Debug, Clone, Copy, PartialEq, Eq, Structural)]
pub enum VerifyError {
    /// The token does not parse as a signed token of the accepted shape.
    Malformed,
    /// The signature does not match, or the algorithm tag is not the one
    /// this codec accepts.
    BadSignature,
    /// The token's expiration is not strictly in the future.
    Expired,
}

/// The signed token that the HS512 codec produces for the given secret,
/// issuer, expiration and subject id.
pub uninterp spec fn signed_token(secret: Seq<char>, iss: Seq<char>, exp: u64, id: i32) -> Seq<char>;

/// Relies on jsonwebtoken::encode with a `Header::new(Algorithm::HS512)`
/// header and an HMAC secret key: the token is a deterministic function of
/// the secret and the claims, and for an HMAC key and string/integer claims
/// the call cannot fail (serialization of plain values and HMAC signing have
/// no failing case).
#[verifier::external_body]
fn encode_hs512(secret: &str, iss: &str, exp: u64, id: i32) -> (r: String)
    ensures
        r@ == signed_token(secret@, iss@, exp, id),
{
    let mut claims = serde_json::Map::new();
    claims.insert("iss".to_string(), serde_json::Value::from(iss));
    claims.insert("exp".to_string(), serde_json::Value::from(exp));
    claims.insert("id".to_string(), serde_json::Value::from(id));
    let header = jsonwebtoken::Header::new(jsonwebtoken::Algorithm::HS512);
    let key = jsonwebtoken::EncodingKey::from_secret(secret.as_bytes());
    jsonwebtoken::encode(&header, &serde_json::Value::Object(claims), &key).unwrap()
}

/// What decoding promises of its result: any token this codec signed decodes
/// to its own `exp` and `id` claims.
pub open spec fn decode_promise(
    secret: Seq<char>,
    token: Seq<char>,
    r: Result<(u64, i32), VerifyError>,
) -> bool {
    forall|iss: Seq<char>, exp: u64, id: i32|
        token == #[trigger] signed_token(secret, iss, exp, id)
            ==> r == Ok::<(u64, i32), VerifyError>((exp, id))
}

/// Relies on jsonwebtoken::decode with `Validation::new(Algorithm::HS512)`
/// and `validate_exp` turned off (expiration is checked by verified code
/// against an explicit clock value): a token this codec signed decodes to its
/// own claims; a signature mismatch or a disallowed algorithm tag comes back
/// as `InvalidSignature` or `InvalidAlgorithm`, and anything else that fails
/// is a parse failure.
#[verifier::external_body]
fn decode_hs512(secret: &str, token: &str) -> (r: Result<(u64, i32), VerifyError>)
    ensures
        r matches Err(e) ==> (e is BadSignature || e is Malformed),
        decode_promise(secret@, token@, r),
{
    let mut validation = jsonwebtoken::Validation::new(jsonwebtoken::Algorithm::HS512);
    validation.validate_exp = false;
    let key = jsonwebtoken::DecodingKey::from_secret(secret.as_bytes());
    match jsonwebtoken::decode::<serde_json::Value>(token, &key, &validation) {
        Ok(d) => match (d.claims["exp"].as_u64(), d.claims["id"].as_i64()) {
            (Some(exp), Some(id)) if i32::try_from(id).is_ok() => Ok((exp, id as i32)),
            _ => Err(VerifyError::Malformed),
        },
        Err(e) => Err(match e.kind() {
            jsonwebtoken::errors::ErrorKind::InvalidSignature
            | jsonwebtoken::errors::ErrorKind::InvalidAlgorithm => VerifyError::BadSignature,
            _ => VerifyError::Malformed,
        }),
    }
}

/// Relies on chrono::Utc::now: seconds since the Unix epoch as the system
/// clock reports them. Nothing is promised of a clock reading; callers state
/// what holds of every value.
#[verifier::external_body]
pub(crate) fn now_unix() -> i64 {
    chrono::Utc::now().timestamp()
}

/// The clock reading as a non-negative timestamp; a reading before the epoch
/// is clamped to it.
pub(crate) fn clamp_timestamp(t: i64) -> (r: u64)
    ensures
        r <= i64::MAX as u64,
        t >= 0 ==> r == t,
{
    if t >= 0 {
        t as u64
    } else {
        0
    }
}

/// The scheme prefix a freshly issued token carries.
pub open spec fn bearer_prefix() -> Seq<char> {
    "Bearer "@
}

/// Issues the token for `id` as of time `now`: expiration is `now` plus the
/// fixed TTL, the issuer is the fixed one, and the result carries the
/// `"Bearer "` prefix so it can stand in an Authorization header as is.
pub fn issue_at(secret: &str, id: i32, now: u64) -> (r: String)
    requires
        now + TTL_SECONDS <= u64::MAX,
    ensures
        r@ == bearer_prefix() + signed_token(secret@, issuer_spec(), (now + TTL_SECONDS) as u64, id),
{
    let exp = now + TTL_SECONDS;
    let token = encode_hs512(secret, issuer_str(), exp, id);
    let mut line = String::from_str("Bearer ");
    line.append(token.as_str());
    line
}

/// Issues a fresh token for `id` under the fixed secret, reading the clock.
/// It never fails; the expiration is the clock reading plus the fixed TTL.
pub fn create_jwt(id: &i32) -> (r: String)
    ensures
        exists|exp: u64|
            r@ == bearer_prefix() + #[trigger] signed_token(secret_spec(), issuer_spec(), exp, *id),
{
    let now = clamp_timestamp(now_unix());
    let r = issue_at(secret_str(), *id, now);
    proof {
        assert(r@ == bearer_prefix() + signed_token(
            secret_spec(),
            issuer_spec(),
            (now + TTL_SECONDS) as u64,
            *id,
        ));
    }
    r
}

/// What a verification verdict must look like for a token that this codec
/// signed with expiration `exp` and subject `id`, checked at time `now`:
/// success with exactly those claims while the token is not expired, the
/// expiration error from its expiration on.
pub open spec fn expected_verdict(exp: u64, id: i32, now: u64, r: Result<Claims, VerifyError>) -> bool {
    if exp > now {
        r matches Ok(c) && c.exp == exp && c.id == id && c.iss@ == issuer_spec()
    } else {
        r == Err::<Claims, VerifyError>(VerifyError::Expired)
    }
}

/// Everything verification promises of its verdict `r` on `token` at time
/// `now`: on any token this codec signed the verdict is pinned down by
/// `expected_verdict`, and success only ever yields unexpired claims with
/// the fixed issuer.
pub open spec fn verify_outcome(
    secret: Seq<char>,
    token: Seq<char>,
    now: u64,
    r: Result<Claims, VerifyError>,
) -> bool {
    &&& forall|iss: Seq<char>, exp: u64, id: i32|
        token == #[trigger] signed_token(secret, iss, exp, id) ==> expected_verdict(exp, id, now, r)
    &&& (r matches Ok(c) ==> c.exp > now && c.iss@ == issuer_spec())
}

/// Turns the decoded claims into the final verdict at time `now`: an
/// unexpired pair becomes the claims with the fixed issuer, an expired one
/// becomes the expiration error, and a decode failure stands as it is.
pub fn finish_verdict(decoded: Result<(u64, i32), VerifyError>, now: u64) -> (r: Result<
    Claims,
    VerifyError,
>)
    ensures
        decoded matches Ok(p) ==> (if p.0 > now {
            r matches Ok(c) && c.exp == p.0 && c.id == p.1 && c.iss@ == issuer_spec()
        } else {
            r == Err::<Claims, VerifyError>(VerifyError::Expired)
        }),
        decoded matches Err(e) ==> r == Err::<Claims, VerifyError>(e),
        r matches Ok(c) ==> c.exp > now && c.iss@ == issuer_spec(),
{
    match decoded {
        Ok((exp, id)) => {
            if exp > now {
                Ok(Claims::new(&id, exp))
            } else {
                Err(VerifyError::Expired)
            }
        },
        Err(e) => Err(e),
    }
}

/// Verifies `token` at the explicit time `now`: recomputes the signature
/// under `secret`, accepts only the HS512 algorithm tag, and requires the
/// expiration to be strictly after `now`.
pub fn validate_token_at(secret: &str, token: &str, now: u64) -> (r: Result<Claims, VerifyError>)
    ensures
        verify_outcome(secret@, token@, now, r),
{
    let decoded = decode_hs512(secret, token);
    let r = finish_verdict(decoded, now);
    proof {
        assert forall|iss: Seq<char>, exp: u64, id: i32|
            token@ == #[trigger] signed_token(secret@, iss, exp, id) implies expected_verdict(
            exp,
            id,
            now,
            r,
        ) by {
            assert(decoded == Ok::<(u64, i32), VerifyError>((exp, id)));
        }
    }
    r
}

/// Verifies `token` against the fixed secret, reading the clock for the
/// expiration check.
pub fn validate_token(token: &str) -> (r: Result<Claims, VerifyError>)
    ensures
        exists|now: u64| #[trigger] verify_outcome(secret_spec(), token@, now, r),
{
    let now = clamp_timestamp(now_unix());
    let r = validate_token_at(secret_str(), token, now);
    proof {
        assert(verify_outcome(secret_spec(), token@, now, r));
    }
    r
}

/// Round trip: the verdict on a token this codec signed for `id` with
/// expiration `exp`, checked at any time strictly before `exp`, is success,
/// and the claims carry exactly `id`, `exp` and the fixed issuer.
pub proof fn lemma_round_trip(
    secret: Seq<char>,
    id: i32,
    exp: u64,
    now: u64,
    r: Result<Claims, VerifyError>,
)
    requires
        verify_outcome(secret, signed_token(secret, issuer_spec(), exp, id), now, r),
        exp > now,
    ensures
        r matches Ok(c) && c.id == id && c.exp == exp && c.iss@ == issuer_spec(),
{
    assert(expected_verdict(exp, id, now, r));
}

/// Expiration boundary: the verdict on a token this codec signed with
/// expiration `exp`, checked at `exp` or any later time, is the expiration
/// error, whatever issuer and subject the token carries.
pub proof fn lemma_expiration_boundary(
    secret: Seq<char>,
    iss: Seq<char>,
    id: i32,
    exp: u64,
    now: u64,
    r: Result<Claims, VerifyError>,
)
    requires
        verify_outcome(secret, signed_token(secret, iss, exp, id), now, r),
        exp <= now,
    ensures
        r == Err::<Claims, VerifyError>(VerifyError::Expired),
{
    assert(expected_verdict(exp, id, now, r));
}

} // verus!
