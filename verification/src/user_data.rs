//! The identity extractor: from an optional `Authorization` header value to a
//! validated identity or a typed failure.
//!
//! Both variants share one step: find the header, demand the `"Bearer "`
//! prefix, and hand the rest to the token codec. The mandatory variant fails
//! on a missing header; the optional variant yields no identity then, but a
//! present header that does not verify is rejected by both.

use vstd::prelude::*;
use vstd::string::*;
use crate::auth::{
    Claims, VerifyError, bearer_prefix, secret_spec, secret_str, validate_token_at, verify_outcome,
    clamp_timestamp, now_unix, signed_token, issuer_spec, lemma_round_trip,
};

verus! {

/// The minimal authenticated-principal view a handler sees.
#[derive(Debug, Clone, Copy, PartialEq, Eq, Structural)]
pub struct UserData {
    /// The authenticated user's numeric identifier.
    pub id: i32,
}

/// Why extraction failed.
#[derive(Debug, Clone, Copy, PartialEq, Eq, Structural)]
pub enum ExtractError {
    /// No Authorization header on a route that demands one.
    MissingCredential,
    /// A header was present but its token did not verify.
    Invalid(VerifyError),
}

/// Whether a header value starts with the `"Bearer "` scheme prefix.
pub open spec fn has_bearer_prefix(h: Seq<char>) -> bool {
    h.len() >= 7 && h.subrange(0, 7) == bearer_prefix()
}

/// The token part of a header value that carries the prefix.
pub open spec fn bearer_payload(h: Seq<char>) -> Seq<char> {
    h.subrange(7, h.len() as int)
}

/// Strips the `"Bearer "` prefix from a header value; a value without that
/// exact prefix yields nothing rather than a panic.
pub fn strip_bearer<'a>(header: &'a str) -> (r: Option<&'a str>)
    ensures
        has_bearer_prefix(header@) ==> (r matches Some(t) && t@ == bearer_payload(header@)),
        !has_bearer_prefix(header@) ==> r is None,
{
    proof {
        reveal_strlit("Bearer ");
    }
    let n = header.unicode_len();
    if n < 7 {
        return None;
    }
    if header.get_char(0) == 'B' && header.get_char(1) == 'e' && header.get_char(2) == 'a'
        && header.get_char(3) == 'r' && header.get_char(4) == 'e' && header.get_char(5) == 'r'
        && header.get_char(6) == ' ' {
        proof {
            assert(header@.subrange(0, 7) =~= bearer_prefix());
        }
        Some(header.substring_char(7, n))
    } else {
        proof {
            if has_bearer_prefix(header@) {
                assert(header@[0] == header@.subrange(0, 7)[0]);
                assert(header@[1] == header@.subrange(0, 7)[1]);
                assert(header@[2] == header@.subrange(0, 7)[2]);
                assert(header@[3] == header@.subrange(0, 7)[3]);
                assert(header@[4] == header@.subrange(0, 7)[4]);
                assert(header@[5] == header@.subrange(0, 7)[5]);
                assert(header@[6] == header@.subrange(0, 7)[6]);
                assert(false);
            }
        }
        None
    }
}

/// A header value made of the scheme prefix and a token splits back into the
/// two: the prefix is recognised and the payload is exactly the token.
pub proof fn lemma_bearer_line(t: Seq<char>)
    ensures
        has_bearer_prefix(bearer_prefix() + t),
        bearer_payload(bearer_prefix() + t) == t,
{
    reveal_strlit("Bearer ");
    assert((bearer_prefix() + t).subrange(0, 7) =~= bearer_prefix());
    assert((bearer_prefix() + t).subrange(7, (bearer_prefix() + t).len() as int) =~= t);
}

/// The mandatory verdict that a codec verdict `v` on the token collapses to.
pub open spec fn collapsed(v: Result<Claims, VerifyError>) -> Result<UserData, ExtractError> {
    match v {
        Ok(c) => Ok(UserData { id: c.id }),
        Err(e) => Err(ExtractError::Invalid(e)),
    }
}

/// The optional verdict that a codec verdict `v` on the token collapses to:
/// success still carries an identity, and a failure is still a failure.
pub open spec fn collapsed_optional(v: Result<Claims, VerifyError>) -> Result<
    Option<UserData>,
    ExtractError,
> {
    match v {
        Ok(c) => Ok(Some(UserData { id: c.id })),
        Err(e) => Err(ExtractError::Invalid(e)),
    }
}

/// The view of an optional header value.
pub open spec fn header_view(header: Option<&str>) -> Option<Seq<char>> {
    match header {
        Some(h) => Some(h@),
        None => None,
    }
}

/// Everything mandatory extraction promises of its verdict `r` on `header`
/// at time `now`: a missing header is the missing-credential failure, a
/// header without the scheme prefix is a malformed-token failure, and a
/// header with it collapses some codec verdict on its payload.
pub open spec fn extraction_outcome(
    secret: Seq<char>,
    header: Option<Seq<char>>,
    now: u64,
    r: Result<UserData, ExtractError>,
) -> bool {
    match header {
        None => r == Err::<UserData, ExtractError>(ExtractError::MissingCredential),
        Some(h) => {
            &&& !has_bearer_prefix(h) ==> r == Err::<UserData, ExtractError>(
                ExtractError::Invalid(VerifyError::Malformed),
            )
            &&& has_bearer_prefix(h) ==> exists|v: Result<Claims, VerifyError>|
                #[trigger] verify_outcome(secret, bearer_payload(h), now, v) && r == collapsed(v)
        },
    }
}

/// The optional twin of `extraction_outcome`: only the missing header differs,
/// it degrades to "no identity" instead of failing.
pub open spec fn optional_extraction_outcome(
    secret: Seq<char>,
    header: Option<Seq<char>>,
    now: u64,
    r: Result<Option<UserData>, ExtractError>,
) -> bool {
    match header {
        None => r == Ok::<Option<UserData>, ExtractError>(None),
        Some(h) => {
            &&& !has_bearer_prefix(h) ==> r == Err::<Option<UserData>, ExtractError>(
                ExtractError::Invalid(VerifyError::Malformed),
            )
            &&& has_bearer_prefix(h) ==> exists|v: Result<Claims, VerifyError>|
                #[trigger] verify_outcome(secret, bearer_payload(h), now, v) && r
                    == collapsed_optional(v)
        },
    }
}

/// Mandatory extraction at the explicit time `now`.
pub fn extract_user_at(secret: &str, header: Option<&str>, now: u64) -> (r: Result<
    UserData,
    ExtractError,
>)
    ensures
        extraction_outcome(secret@, header_view(header), now, r),
        r matches Ok(u) ==> (header matches Some(h) && has_bearer_prefix(h@)),
{
    match header {
        None => Err(ExtractError::MissingCredential),
        Some(h) => match strip_bearer(h) {
            None => Err(ExtractError::Invalid(VerifyError::Malformed)),
            Some(token) => {
                let v = validate_token_at(secret, token, now);
                let r = match &v {
                    Ok(c) => Ok(UserData { id: c.id }),
                    Err(e) => Err(ExtractError::Invalid(*e)),
                };
                proof {
                    assert(verify_outcome(secret@, bearer_payload(h@), now, v));
                    assert(r == collapsed(v));
                }
                r
            },
        },
    }
}

/// Optional extraction at the explicit time `now`.
pub fn extract_user_optional_at(secret: &str, header: Option<&str>, now: u64) -> (r: Result<
    Option<UserData>,
    ExtractError,
>)
    ensures
        optional_extraction_outcome(secret@, header_view(header), now, r),
{
    match header {
        None => Ok(None),
        Some(h) => match strip_bearer(h) {
            None => Err(ExtractError::Invalid(VerifyError::Malformed)),
            Some(token) => {
                let v = validate_token_at(secret, token, now);
                let r = match &v {
                    Ok(c) => Ok(Some(UserData { id: c.id })),
                    Err(e) => Err(ExtractError::Invalid(*e)),
                };
                proof {
                    assert(verify_outcome(secret@, bearer_payload(h@), now, v));
                    assert(r == collapsed_optional(v));
                }
                r
            },
        },
    }
}

/// Mandatory extraction under the fixed secret, reading the clock.
pub fn extract_user(header: Option<&str>) -> (r: Result<UserData, ExtractError>)
    ensures
        exists|now: u64| #[trigger] extraction_outcome(secret_spec(), header_view(header), now, r),
{
    let now = clamp_timestamp(now_unix());
    let r = extract_user_at(secret_str(), header, now);
    proof {
        assert(extraction_outcome(secret_spec(), header_view(header), now, r));
    }
    r
}

/// Optional extraction under the fixed secret, reading the clock.
pub fn extract_user_optional(header: Option<&str>) -> (r: Result<Option<UserData>, ExtractError>)
    ensures
        exists|now: u64|
            #[trigger] optional_extraction_outcome(secret_spec(), header_view(header), now, r),
{
    let now = clamp_timestamp(now_unix());
    let r = extract_user_optional_at(secret_str(), header, now);
    proof {
        assert(optional_extraction_outcome(secret_spec(), header_view(header), now, r));
    }
    r
}

/// HTTP status and body for a failed extraction: a missing credential on a
/// mandatory route is a 401, a header that was present but did not verify is
/// a 400, whatever the underlying verification failure was.
pub fn rejection(e: &ExtractError) -> (r: (u16, &'static str))
    ensures
        e is MissingCredential ==> r.0 == 401 && r.1@ == "Authorization Not Found"@,
        e matches ExtractError::Invalid(_) ==> r.0 == 400 && r.1@ == "Invalid Authorization"@,
{
    match e {
        ExtractError::MissingCredential => (401, "Authorization Not Found"),
        ExtractError::Invalid(_) => (400, "Invalid Authorization"),
    }
}

/// The decimal digit for a value below ten.
pub open spec fn spec_digit(d: nat) -> char {
    if d == 0 {
        '0'
    } else if d == 1 {
        '1'
    } else if d == 2 {
        '2'
    } else if d == 3 {
        '3'
    } else if d == 4 {
        '4'
    } else if d == 5 {
        '5'
    } else if d == 6 {
        '6'
    } else if d == 7 {
        '7'
    } else if d == 8 {
        '8'
    } else {
        '9'
    }
}

/// The decimal digits of `n`, most significant first, with no sign and no
/// leading zero except on zero itself.
pub open spec fn spec_decimal(n: nat) -> Seq<char>
    decreases n,
{
    if n < 10 {
        seq![spec_digit(n)]
    } else {
        spec_decimal(n / 10).push(spec_digit(n % 10))
    }
}

/// The decimal rendering of `n`, a leading minus sign on a negative value.
pub open spec fn spec_decimal_int(n: int) -> Seq<char> {
    if n < 0 {
        seq!['-'] + spec_decimal((-n) as nat)
    } else {
        spec_decimal(n as nat)
    }
}

fn digit_str(d: u64) -> (r: &'static str)
    requires
        d < 10,
    ensures
        r@ == seq![spec_digit(d as nat)],
{
    proof {
        reveal_strlit("0");
        reveal_strlit("1");
        reveal_strlit("2");
        reveal_strlit("3");
        reveal_strlit("4");
        reveal_strlit("5");
        reveal_strlit("6");
        reveal_strlit("7");
        reveal_strlit("8");
        reveal_strlit("9");
    }
    let r = match d {
        0 => "0",
        1 => "1",
        2 => "2",
        3 => "3",
        4 => "4",
        5 => "5",
        6 => "6",
        7 => "7",
        8 => "8",
        _ => "9",
    };
    proof {
        assert(r@ =~= seq![spec_digit(d as nat)]);
    }
    r
}

fn u64_decimal(n: u64) -> (r: String)
    ensures
        r@ == spec_decimal(n as nat),
    decreases n,
{
    if n < 10 {
        String::from_str(digit_str(n))
    } else {
        let mut s = u64_decimal(n / 10);
        s.append(digit_str(n % 10));
        proof {
            assert(s@ =~= spec_decimal(n as nat));
        }
        s
    }
}

/// Renders `n` in decimal, sign included.
pub fn format_i32(n: i32) -> (r: String)
    ensures
        r@ == spec_decimal_int(n as int),
{
    if n >= 0 {
        u64_decimal(n as u64)
    } else {
        let magnitude = (-(n as i64)) as u64;
        proof {
            reveal_strlit("-");
        }
        let mut s = String::from_str("-");
        s.append(u64_decimal(magnitude).as_str());
        proof {
            assert(s@ =~= spec_decimal_int(n as int));
        }
        s
    }
}

/// The body of the public route's response: the same public data, with the
/// caller's id appended when the request was authenticated.
pub open spec fn public_message_spec(user: Option<UserData>) -> Seq<char> {
    match user {
        Some(u) => "public data with "@ + spec_decimal_int(u.id as int),
        None => "public data"@,
    }
}

/// Builds the public route's response body for an optionally authenticated
/// caller.
pub fn public_message(user: Option<UserData>) -> (r: String)
    ensures
        r@ == public_message_spec(user),
{
    match user {
        Some(u) => {
            let mut s = String::from_str("public data with ");
            s.append(format_i32(u.id).as_str());
            s
        },
        None => String::from_str("public data"),
    }
}

/// Missing versus malformed: only a missing header ever yields the
/// missing-credential failure, every failure on a present header is an
/// invalid-credential one, and the two map to distinct HTTP rejections.
pub proof fn lemma_missing_vs_invalid(
    secret: Seq<char>,
    header: Option<Seq<char>>,
    now: u64,
    r: Result<UserData, ExtractError>,
)
    requires
        extraction_outcome(secret, header, now, r),
    ensures
        header is None ==> r == Err::<UserData, ExtractError>(ExtractError::MissingCredential),
        r matches Err(e) ==> (header is Some ==> e matches ExtractError::Invalid(_)),
{
    match header {
        Some(h) => {
            if has_bearer_prefix(h) {
                let v = choose|v: Result<Claims, VerifyError>|
                    #[trigger] verify_outcome(secret, bearer_payload(h), now, v) && r == collapsed(
                        v,
                    );
                assert(r == collapsed(v));
            }
        },
        None => {
        },
    }
}

/// The optional variant degrades to "no identity" exactly when the header is
/// absent: a present header either names a caller or is rejected, it is
/// never silently ignored.
pub proof fn lemma_optional_degrades_only_on_absence(
    secret: Seq<char>,
    header: Option<Seq<char>>,
    now: u64,
    r: Result<Option<UserData>, ExtractError>,
)
    requires
        optional_extraction_outcome(secret, header, now, r),
    ensures
        r == Ok::<Option<UserData>, ExtractError>(None) <==> header is None,
{
    match header {
        Some(h) => {
            if has_bearer_prefix(h) {
                let v = choose|v: Result<Claims, VerifyError>|
                    #[trigger] verify_outcome(secret, bearer_payload(h), now, v) && r
                        == collapsed_optional(v);
                assert(r == collapsed_optional(v));
            }
        },
        None => {
        },
    }
}

/// Round trip through extraction: a header made of the scheme prefix and a
/// token this codec issued for `id`, extracted at any time strictly before
/// the token's expiration, yields exactly that identity.
pub proof fn lemma_extract_round_trip(
    secret: Seq<char>,
    id: i32,
    exp: u64,
    now: u64,
    r: Result<UserData, ExtractError>,
)
    requires
        extraction_outcome(
            secret,
            Some(bearer_prefix() + signed_token(secret, issuer_spec(), exp, id)),
            now,
            r,
        ),
        exp > now,
    ensures
        r == Ok::<UserData, ExtractError>(UserData { id }),
{
    let token = signed_token(secret, issuer_spec(), exp, id);
    lemma_bearer_line(token);
    let v = choose|v: Result<Claims, VerifyError>|
        #[trigger] verify_outcome(secret, bearer_payload(bearer_prefix() + token), now, v) && r
            == collapsed(v);
    lemma_round_trip(secret, id, exp, now, v);
}

} // verus!
