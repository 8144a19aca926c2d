//! Authentication: the bearer token of a request, session tokens, passwords,
//! registration and login.

use vstd::prelude::*;
use vstd::utf8::*;
use crate::clock::{is_clock_reading, latest_chrono_second, now_unix_seconds};
use crate::ids::{new_uuid_v4_text, is_uuid_v4_text};
use crate::models::{AuthResponse, LoginRequest, RegisterRequest, User};
use crate::reply::{Reply, Status, StoreError, is_error_reply, is_success_reply, reply_error, reply_ok};
use crate::text::{
    all_visible_ascii, digit_char, digits_value, int_decimal, is_digit, lemma_nat_decimal_value,
    lemma_trailing_digits_of_numeral, nat_decimal, parse_capped, trailing_digit_count, is_visible_text, json_string, lemma_ascii_bytes_valid_utf8,
    push_json_string, push_signed_decimal, utf8_text,
};

verus! {

/// The key session tokens are signed and checked with (HMAC-SHA256).
pub const JWT_SECRET: &'static str = "your-secret-key-change-this-in-production";

/// How long a session token stays valid: seven days, in seconds.
pub const TOKEN_LIFETIME_SECS: i64 = 604800;

/// The bcrypt cost passwords are hashed with.
pub const PASSWORD_HASH_COST: u32 = 4;

/// The claims a session token carries: the user it was issued to and when it
/// expires (seconds since the Unix epoch).
#[derive(Clone, Debug, PartialEq, Eq)]
pub struct Claims {
    pub sub: String,
    pub exp: i64,
}

/// Why a request was not authenticated.
#[derive(Clone, Copy, Debug, PartialEq, Eq, Structural)]
pub enum AuthError {
    /// The request has no `Authorization` header.
    MissingHeader,
    /// The header is not text, or the token in it does not verify.
    InvalidToken,
    /// The header does not start with `Bearer `.
    InvalidTokenFormat,
}

/// The message the service answers for an authentication failure.
pub open spec fn auth_error_message(e: AuthError) -> Seq<char> {
    match e {
        AuthError::MissingHeader => "Missing authorization header"@,
        AuthError::InvalidToken => "Invalid token"@,
        AuthError::InvalidTokenFormat => "Invalid token format"@,
    }
}

impl AuthError {
    /// The message the service answers for this failure.
    pub fn message(&self) -> (m: &'static str)
        ensures
            m@ == auth_error_message(*self),
    {
        match self {
            AuthError::MissingHeader => "Missing authorization header",
            AuthError::InvalidToken => "Invalid token",
            AuthError::InvalidTokenFormat => "Invalid token format",
        }
    }

    /// The reply to a request that failed authentication this way (401).
    pub fn reply<T>(&self) -> (r: Reply<T>)
        ensures
            is_error_reply(r, Status::Unauthorized, auth_error_message(*self)),
    {
        reply_error(Status::Unauthorized, self.message())
    }
}

/// The bytes of `Bearer `.
pub open spec fn bearer_prefix() -> Seq<u8> {
    seq![66u8, 101u8, 97u8, 114u8, 101u8, 114u8, 32u8]
}

/// The token a request carries in its `Authorization` header, or why it has none.
///
/// The header must be text (visible ASCII and tabs), start with `Bearer `, and
/// the token is the rest of it.
pub open spec fn spec_bearer_token(header: Option<Seq<u8>>) -> Result<Seq<char>, AuthError> {
    match header {
        None => Err(AuthError::MissingHeader),
        Some(h) => if !all_visible_ascii(h) {
            Err(AuthError::InvalidToken)
        } else if h.len() < 7 || h.take(7) != bearer_prefix() {
            Err(AuthError::InvalidTokenFormat)
        } else {
            Ok(decode_utf8(h.skip(7)))
        },
    }
}

/// The bytes of a header value, if there is one.
pub open spec fn header_bytes(header: Option<&[u8]>) -> Option<Seq<u8>> {
    match header {
        Some(h) => Some(h@),
        None => None,
    }
}

/// The `Authorization` header that carries the token `t`.
pub open spec fn authorization_header(t: Seq<char>) -> Seq<u8> {
    bearer_prefix() + encode_utf8(t)
}

/// Reads the bearer token from the value of the `Authorization` header
/// (`None` when the request has no such header).
pub fn bearer_token(header: Option<&[u8]>) -> (r: Result<String, AuthError>)
    ensures
        match r {
            Ok(t) => spec_bearer_token(header_bytes(header)) == Ok::<Seq<char>, AuthError>(t@),
            Err(e) => spec_bearer_token(header_bytes(header)) == Err::<Seq<char>, AuthError>(e),
        },
{
    let h = match header {
        None => {
            return Err(AuthError::MissingHeader);
        },
        Some(h) => h,
    };
    if !is_visible_text(h) {
        return Err(AuthError::InvalidToken);
    }
    if h.len() < 7 || h[0] != 66u8 || h[1] != 101u8 || h[2] != 97u8 || h[3] != 114u8
        || h[4] != 101u8 || h[5] != 114u8 || h[6] != 32u8 {
        proof {
            if h@.len() >= 7 && h@.take(7) == bearer_prefix() {
                assert(h@[0] == h@.take(7)[0]);
                assert(h@[1] == h@.take(7)[1]);
                assert(h@[2] == h@.take(7)[2]);
                assert(h@[3] == h@.take(7)[3]);
                assert(h@[4] == h@.take(7)[4]);
                assert(h@[5] == h@.take(7)[5]);
                assert(h@[6] == h@.take(7)[6]);
            }
        }
        return Err(AuthError::InvalidTokenFormat);
    }
    assert(h@.take(7) =~= bearer_prefix());
    let (_, rest) = h.split_at(7);
    assert(rest@ =~= h@.skip(7));
    proof {
        assert forall|i: int| 0 <= i < rest@.len() implies #[trigger] rest@[i] < 128 by {
            assert(rest@[i] == h@[i + 7]);
            assert(crate::text::is_visible_ascii(h@[i + 7]));
        }
        lemma_ascii_bytes_valid_utf8(rest@);
    }
    match utf8_text(rest) {
        Some(t) => Ok(t),
        None => Err(AuthError::InvalidToken),
    }
}

/// A character of the base64url alphabet, or the `.` that separates the parts
/// of a token.
pub open spec fn is_token_char(c: char) -> bool {
    ||| ('A' <= c && c <= 'Z')
    ||| ('a' <= c && c <= 'z')
    ||| ('0' <= c && c <= '9')
    ||| c == '-' || c == '_' || c == '.'
}

/// `t` is written with base64url characters and dots only.
pub open spec fn is_token_text(t: Seq<char>) -> bool {
    forall|i: int| 0 <= i < t.len() ==> #[trigger] is_token_char(t[i])
}

/// The JSON text of the claims a token carries, as jsonwebtoken's `decode`
/// yields it when it accepts the token under the key `secret` (the text is the
/// same whether or not the expiry is checked).
pub uninterp spec fn jwt_verified_payload(token: Seq<char>, secret: Seq<char>) -> Seq<char>;

/// The token jsonwebtoken's `encode` writes for the JSON claims `payload`,
/// with the default header (HS256) and the HMAC key `secret`.
pub uninterp spec fn jwt_signed_token(payload: Seq<char>, secret: Seq<char>) -> Seq<char>;

/// jsonwebtoken's error type.
#[verifier::external_type_specification]
#[verifier::external_body]
pub struct ExJwtError(jsonwebtoken::errors::Error);

/// jsonwebtoken's `decode` with the HMAC key `secret` and the default
/// validation (HS256, an `exp` claim required, 60 s of leeway), with the check
/// of the expiry against the clock on or off (`check_expiry`), asked for the
/// claims as raw JSON text.
///
/// When it succeeds, the text it yields is the token's payload, a function of
/// the token. With the expiry check on, whether it succeeds depends on the
/// clock. With it off, `decode` reads no clock, and it accepts a token that
/// `encode` wrote with the key `secret` for the claims `{"sub":…,"exp":N}`,
/// N a nonnegative `i64`: the header (HS256) and the signature check out, the
/// claims are JSON, `exp` reads as a `u64`, and there is no audience to check.
#[verifier::external_body]
fn jwt_decode_claims_text(token: &str, secret: &str, check_expiry: bool) -> (r: Result<String, jsonwebtoken::errors::Error>)
    ensures
        r matches Ok(p) ==> p@ == jwt_verified_payload(token@, secret@),
        !check_expiry && (exists|sub: Seq<char>, exp: int|
            0 <= exp <= i64::MAX && #[trigger] jwt_signed_token(spec_claims_json(sub, exp), secret@) == token@)
            ==> r is Ok,
{
    let key = jsonwebtoken::DecodingKey::from_secret(secret.as_bytes());
    let mut validation = jsonwebtoken::Validation::default();
    validation.validate_exp = check_expiry;
    let data = jsonwebtoken::decode::<Box<serde_json::value::RawValue>>(token, &key, &validation)?;
    Ok(data.claims.get().to_string())
}

/// jsonwebtoken's `encode` of the JSON text `payload` (taken as is, through
/// serde_json's `RawValue::from_string`) with the default header (HS256) and
/// the HMAC key `secret`.
///
/// The token is base64url header, payload and signature joined by two dots
/// (base64url has no dot); its
/// payload is `payload` itself, so a `decode` of it that succeeds gives back
/// `payload`. `RawValue::from_string` fails on text that is not JSON; the
/// claims text of `spec_claims_json` is JSON (serde_json's own escaping and an
/// integer), and `encode` with the default header and an HMAC key fails
/// nowhere else (it serialises the header and the raw claims, which cannot
/// fail, and HMAC signing returns `Ok`), so on that text it succeeds.
#[verifier::external_body]
fn jwt_encode_claims_text(payload: &str, secret: &str) -> (r: Result<String, jsonwebtoken::errors::Error>)
    requires
        payload@.len() > 0,
        payload@[0] == '{',
        payload@.last() == '}',
    ensures
        is_claims_json(payload@) ==> r is Ok,
        r matches Ok(t) ==> {
            &&& t@ == jwt_signed_token(payload@, secret@)
            &&& jwt_verified_payload(t@, secret@) == payload@
            &&& is_token_text(t@)
            &&& has_token_shape(t@)
        },
{
    let raw = serde_json::value::RawValue::from_string(payload.to_string())
        .map_err(jsonwebtoken::errors::Error::from)?;
    let key = jsonwebtoken::EncodingKey::from_secret(secret.as_bytes());
    jsonwebtoken::encode(&jsonwebtoken::Header::default(), &raw, &key)
}

/// The JSON text of the claims `(sub, exp)`, as serde_json writes the
/// `Claims` record: `{"sub":"…","exp":…}`.
pub open spec fn spec_claims_json(sub: Seq<char>, exp: int) -> Seq<char> {
    seq!['{', '"', 's', 'u', 'b', '"', ':'] + json_string(sub) + seq![',', '"', 'e', 'x', 'p', '"', ':']
        + int_decimal(exp) + seq!['}']
}

/// `p` is the JSON text of some claims record.
pub open spec fn is_claims_json(p: Seq<char>) -> bool {
    exists|sub: Seq<char>, exp: i64| p == #[trigger] spec_claims_json(sub, exp as int)
}

/// The JSON text of `claims`.
pub fn claims_json(claims: &Claims) -> (r: String)
    ensures
        r@ == spec_claims_json(claims.sub@, claims.exp as int),
{
    let mut out = String::new();
    out.append("{\"sub\":");
    proof {
        reveal_strlit("{\"sub\":");
    }
    push_json_string(&mut out, claims.sub.as_str());
    out.append(",\"exp\":");
    proof {
        reveal_strlit(",\"exp\":");
    }
    push_signed_decimal(&mut out, claims.exp);
    out.append("}");
    proof {
        reveal_strlit("}");
    }
    assert(out@ =~= spec_claims_json(claims.sub@, claims.exp as int));
    out
}

/// `t` is the session token signed for the claims `(sub, exp)`: it carries
/// exactly their JSON text.
pub open spec fn is_session_token(t: Seq<char>, sub: Seq<char>, exp: int) -> bool {
    &&& t == jwt_signed_token(spec_claims_json(sub, exp), JWT_SECRET@)
    &&& jwt_verified_payload(t, JWT_SECRET@) == spec_claims_json(sub, exp)
    &&& is_token_text(t)
    &&& has_token_shape(t)
}

/// Why no session token was issued.
#[derive(Clone, Copy, Debug, PartialEq, Eq, Structural)]
pub enum TokenError {
    /// The expiry would not fit the clock's range.
    ExpiryOutOfRange,
    /// jsonwebtoken could not sign the claims.
    Signing,
}

/// The claims of a session for `user_id` that starts at `now`: it expires
/// seven days later. `None` where that instant does not fit an `i64`.
pub fn session_claims(user_id: &str, now: i64) -> (r: Option<Claims>)
    ensures
        r is Some <==> now + TOKEN_LIFETIME_SECS <= i64::MAX,
        r matches Some(c) ==> c.sub@ == user_id@ && c.exp == now + TOKEN_LIFETIME_SECS,
{
    match now.checked_add(TOKEN_LIFETIME_SECS) {
        Some(exp) => Some(Claims { sub: user_id.to_string(), exp }),
        None => None,
    }
}

/// Signs `claims` into a session token. Signing always succeeds.
pub fn sign_claims(claims: &Claims) -> (r: Result<String, TokenError>)
    ensures
        r is Ok,
        r matches Ok(t) ==> is_session_token(t@, claims.sub@, claims.exp as int),
{
    let payload = claims_json(claims);
    proof {
        assert(is_claims_json(payload@)) by {
            assert(payload@ == spec_claims_json(claims.sub@, claims.exp as int));
        }
    }
    match jwt_encode_claims_text(payload.as_str(), JWT_SECRET) {
        Ok(t) => Ok(t),
        Err(_) => Err(TokenError::Signing),
    }
}

/// When a session that starts at `now` ends: seven days later.
pub open spec fn session_expiry(now: int) -> int {
    now + TOKEN_LIFETIME_SECS
}

/// Issues a session token for `user_id` at the time `now` (seconds since the
/// Unix epoch): it expires seven days later. It fails only where that instant
/// does not fit an `i64`.
pub fn issue_token_at(user_id: &str, now: i64) -> (r: Result<String, TokenError>)
    ensures
        r is Ok <==> session_expiry(now as int) <= i64::MAX,
        r matches Ok(t) ==> is_session_token(t@, user_id@, session_expiry(now as int)),
        r matches Err(e) ==> e == TokenError::ExpiryOutOfRange,
{
    match session_claims(user_id, now) {
        None => Err(TokenError::ExpiryOutOfRange),
        Some(claims) => sign_claims(&claims),
    }
}

/// The number of dots in `s`.
pub open spec fn dot_count(s: Seq<char>) -> nat
    decreases s.len(),
{
    if s.len() == 0 {
        0
    } else {
        dot_count(s.drop_last()) + if s.last() == '.' {
            1nat
        } else {
            0nat
        }
    }
}

/// `t` has the shape of a JSON Web Token: three parts (header, claims and
/// signature) separated by two dots.
pub open spec fn has_token_shape(t: Seq<char>) -> bool {
    dot_count(t) == 2
}

/// Whether `token` has the shape of a JSON Web Token.
pub fn token_shape(token: &str) -> (r: bool)
    ensures
        r == has_token_shape(token@),
{
    let n = token.unicode_len();
    let mut i: usize = 0;
    let mut dots: usize = 0;
    while i < n
        invariant
            n == token@.len(),
            i <= n,
            dots <= i,
            dots == dot_count(token@.take(i as int)),
        decreases n - i,
    {
        let c = token.get_char(i);
        proof {
            assert(token@.take(i + 1).drop_last() =~= token@.take(i as int));
            assert(token@.take(i + 1).last() == c);
        }
        if c == '.' {
            dots += 1;
        }
        i += 1;
    }
    proof {
        assert(token@.take(n as int) =~= token@);
    }
    dots == 2
}

/// The characters that come before the expiry in the claims this service
/// writes: `,"exp":`.
pub open spec fn expiry_marker() -> Seq<char> {
    seq![',', '"', 'e', 'x', 'p', '"', ':']
}

/// The expiry written in claims laid out as this service writes them,
/// `{…,"exp":N}`: N, when the text ends with `,"exp":`, one or more decimal
/// digits and `}`; `None` otherwise.
pub open spec fn claims_expiry(p: Seq<char>) -> Option<nat> {
    if p.len() > 0 && p.last() == '}' {
        let body = p.drop_last();
        let k = trailing_digit_count(body);
        let head = body.take(body.len() - k);
        if k > 0 && head.len() >= 7 && head.skip(head.len() - 7) == expiry_marker() {
            Some(digits_value(body.skip(body.len() - k)))
        } else {
            None
        }
    } else {
        None
    }
}

/// The number of trailing digits of a text is at most its length.
proof fn lemma_trailing_digit_count_bound(s: Seq<char>)
    ensures
        trailing_digit_count(s) <= s.len(),
    decreases s.len(),
{
    if s.len() > 0 {
        lemma_trailing_digit_count_bound(s.drop_last());
    }
}

/// The claims this service writes carry their expiry where `claims_expiry`
/// reads it: the claims of `(sub, exp)`, with `exp` not negative, have the
/// expiry `exp`.
pub proof fn lemma_claims_expiry(sub: Seq<char>, exp: int)
    requires
        0 <= exp,
    ensures
        claims_expiry(spec_claims_json(sub, exp)) == Some(exp as nat),
{
    let head = seq!['{', '"', 's', 'u', 'b', '"', ':'] + json_string(sub) + expiry_marker();
    let digits = nat_decimal(exp as nat);
    let p = spec_claims_json(sub, exp);
    assert(int_decimal(exp) == digits);
    assert(p =~= head + digits + seq!['}']);
    let body = p.drop_last();
    assert(body =~= head + digits);
    assert(!is_digit(head.last()));
    lemma_trailing_digits_of_numeral(head, exp as nat);
    lemma_nat_decimal_value(exp as nat);
    assert(body.take(body.len() - digits.len()) =~= head);
    assert(body.skip(body.len() - digits.len()) =~= digits);
    assert(head.skip(head.len() - 7) =~= expiry_marker());
}

/// The expiry of the claims `p` (see `claims_expiry`), capped at the largest
/// `u64`.
pub fn claims_expiry_of(p: &str) -> (r: Option<u64>)
    ensures
        match claims_expiry(p@) {
            None => r is None,
            Some(e) => r == Some(if e <= u64::MAX { e as u64 } else { u64::MAX }),
        },
{
    let n = p.unicode_len();
    if n == 0 {
        return None;
    }
    if p.get_char(n - 1) != '}' {
        return None;
    }
    let m = n - 1;
    let ghost body = p@.drop_last();
    let mut j: usize = m;
    let mut more = true;
    assert(body.take(m as int) =~= body);
    while more && j > 0
        invariant
            n == p@.len(),
            m == n - 1,
            body == p@.drop_last(),
            j <= m,
            trailing_digit_count(body) == trailing_digit_count(body.take(j as int)) + (m - j),
            !more ==> j > 0 && !is_digit(body[j - 1]),
            forall|i: int| j <= i < m ==> #[trigger] is_digit(body[i]),
        decreases j + if more { 1int } else { 0int },
    {
        let c = p.get_char(j - 1);
        assert(c == body[j - 1]);
        if '0' <= c && c <= '9' {
            proof {
                assert(body.take(j as int).drop_last() =~= body.take(j - 1));
                assert(body.take(j as int).last() == c);
            }
            j -= 1;
        } else {
            more = false;
        }
    }
    proof {
        if j == 0 {
            assert(body.take(0) =~= Seq::<char>::empty());
        } else {
            assert(body.take(j as int).last() == body[j - 1]);
        }
        assert(trailing_digit_count(body.take(j as int)) == 0);
        assert(body.len() - trailing_digit_count(body) == j);
    }
    let ghost head = body.take(j as int);
    if j == m || j < 7 {
        return None;
    }
    if p.get_char(j - 7) != ',' || p.get_char(j - 6) != '"' || p.get_char(j - 5) != 'e'
        || p.get_char(j - 4) != 'x' || p.get_char(j - 3) != 'p' || p.get_char(j - 2) != '"'
        || p.get_char(j - 1) != ':' {
        proof {
            if head.skip(head.len() - 7) == expiry_marker() {
                let t = head.skip(head.len() - 7);
                assert(t[0] == p@[j - 7]);
                assert(t[1] == p@[j - 6]);
                assert(t[2] == p@[j - 5]);
                assert(t[3] == p@[j - 4]);
                assert(t[4] == p@[j - 3]);
                assert(t[5] == p@[j - 2]);
                assert(t[6] == p@[j - 1]);
            }
        }
        return None;
    }
    assert(head.skip(head.len() - 7) =~= expiry_marker());
    let digits = p.substring_char(j, m);
    assert(digits@ =~= body.skip(j as int));
    proof {
        assert forall|i: int| 0 <= i < digits@.len() implies #[trigger] is_digit(digits@[i]) by {
            assert(digits@[i] == body[j + i]);
        }
    }
    parse_capped(digits, u64::MAX)
}

/// Checks a token at the time `now`: its shape, then its signature under the
/// service key, then its expiry, with 60 s of leeway. On success, the JSON
/// text of the claims it carries.
///
/// A token that is not three parts separated by two dots is refused before
/// any decoding. The expiry of claims laid out as this service writes them is
/// checked against `now`; claims laid out otherwise are left to jsonwebtoken,
/// which checks them against the clock.
pub fn verify_token_at(token: &str, now: i64) -> (r: Result<String, AuthError>)
    ensures
        !has_token_shape(token@) ==> r == Err::<String, AuthError>(AuthError::InvalidToken),
        r matches Ok(p) ==> p@ == jwt_verified_payload(token@, JWT_SECRET@),
        r matches Err(e) ==> e == AuthError::InvalidToken,
        forall|sub: Seq<char>, exp: int|
            #[trigger] is_session_token(token@, sub, exp) && 0 <= exp <= i64::MAX ==> (r is Ok <==> now
                <= exp + 60),
{
    if !token_shape(token) {
        return Err(AuthError::InvalidToken);
    }
    let decoded = jwt_decode_claims_text(token, JWT_SECRET, false);
    proof {
        assert forall|sub: Seq<char>, exp: int|
            #[trigger] is_session_token(token@, sub, exp) && 0 <= exp <= i64::MAX implies decoded matches Ok(p)
                && p@ == spec_claims_json(sub, exp) && claims_expiry(p@) == Some(exp as nat) by {
            lemma_claims_expiry(sub, exp);
        }
    }
    match decoded {
        Err(_) => Err(AuthError::InvalidToken),
        Ok(p) => match claims_expiry_of(p.as_str()) {
            Some(e) => {
                if (e as i128) + 60 >= (now as i128) {
                    Ok(p)
                } else {
                    Err(AuthError::InvalidToken)
                }
            },
            None => match jwt_decode_claims_text(token, JWT_SECRET, true) {
                Ok(q) => Ok(q),
                Err(_) => Err(AuthError::InvalidToken),
            },
        },
    }
}

/// Checks a token now (see `verify_token_at`); which second the clock reads
/// is left open.
pub fn verify_token(token: &str) -> (r: Result<String, AuthError>)
    ensures
        !has_token_shape(token@) ==> r == Err::<String, AuthError>(AuthError::InvalidToken),
        r matches Ok(p) ==> p@ == jwt_verified_payload(token@, JWT_SECRET@),
        r matches Err(e) ==> e == AuthError::InvalidToken,
        exists|now: i64|
            #[trigger] is_clock_reading(now as int) && forall|sub: Seq<char>, exp: int|
                #[trigger] is_session_token(token@, sub, exp) && 0 <= exp <= i64::MAX ==> (r is Ok <==> now
                    <= exp + 60),
{
    let now = now_unix_seconds();
    let r = verify_token_at(token, now);
    assert(is_clock_reading(now as int));
    r
}

/// Authenticates a request at the time `now` from its `Authorization`
/// header: reads the bearer token and checks it (see `verify_token_at`). On
/// success, the JSON text of the token's claims.
pub fn authenticate_at(header: Option<&[u8]>, now: i64) -> (r: Result<String, AuthError>)
    ensures
        match spec_bearer_token(header_bytes(header)) {
            Err(e) => r == Err::<String, AuthError>(e),
            Ok(t) => {
                &&& r matches Ok(p) ==> has_token_shape(t) && p@ == jwt_verified_payload(t, JWT_SECRET@)
                &&& r matches Err(e) ==> e == AuthError::InvalidToken
                &&& forall|sub: Seq<char>, exp: int|
                    #[trigger] is_session_token(t, sub, exp) && 0 <= exp <= i64::MAX ==> (r is Ok <==> now
                        <= exp + 60)
            },
        },
{
    let token = bearer_token(header)?;
    verify_token_at(token.as_str(), now)
}

/// Authenticates a request now (see `authenticate_at`); which second the
/// clock reads is left open.
pub fn authenticate(header: Option<&[u8]>) -> (r: Result<String, AuthError>)
    ensures
        match spec_bearer_token(header_bytes(header)) {
            Err(e) => r == Err::<String, AuthError>(e),
            Ok(t) => {
                &&& r matches Ok(p) ==> has_token_shape(t) && p@ == jwt_verified_payload(t, JWT_SECRET@)
                &&& r matches Err(e) ==> e == AuthError::InvalidToken
                &&& exists|now: i64|
                    #[trigger] is_clock_reading(now as int) && forall|sub: Seq<char>, exp: int|
                        #[trigger] is_session_token(t, sub, exp) && 0 <= exp <= i64::MAX ==> (r is Ok
                            <==> now <= exp + 60)
            },
        },
{
    let now = now_unix_seconds();
    let r = authenticate_at(header, now);
    assert(is_clock_reading(now as int));
    r
}

/// The claims of an authenticated request, once the JSON text of its token's
/// claims has been read (`None` when that text does not hold a subject and an
/// expiry): claims that cannot be read make the token invalid.
pub fn accept_claims(claims: Option<Claims>) -> (r: Result<Claims, AuthError>)
    ensures
        match claims {
            Some(c) => r == Ok::<Claims, AuthError>(c),
            None => r == Err::<Claims, AuthError>(AuthError::InvalidToken),
        },
{
    match claims {
        Some(c) => Ok(c),
        None => Err(AuthError::InvalidToken),
    }
}

/// A request that presents a session token in its `Authorization` header has
/// that token read back: the header `Bearer <token>` yields the token itself.
pub proof fn lemma_bearer_header_yields_token(t: Seq<char>)
    requires
        is_token_text(t),
    ensures
        spec_bearer_token(Some(authorization_header(t))) == Ok::<Seq<char>, AuthError>(t),
{
    let h = authorization_header(t);
    let bytes = encode_utf8(t);
    assert(is_ascii_chars(t)) by {
        assert forall|i: int| 0 <= i < t.len() implies '\0' <= #[trigger] t[i] <= '\u{7f}' by {
            assert(is_token_char(t[i]));
        }
    }
    is_ascii_chars_encode_utf8(t);
    assert forall|i: int| 0 <= i < h.len() implies #[trigger] crate::text::is_visible_ascii(h[i]) by {
        if i >= 7 {
            assert(h[i] == bytes[i - 7]);
            assert(t[i - 7] as u8 == bytes[i - 7]);
            assert(is_token_char(t[i - 7]));
        }
    }
    assert(h.take(7) =~= bearer_prefix());
    assert(h.skip(7) =~= bytes);
    encode_utf8_decode_utf8(t);
}

/// A session token issued by this service authenticates its bearer: presented
/// as `Bearer <token>`, it is read back, it passes the shape check, and
/// whenever its verification passes (which depends on the clock) it yields
/// exactly the claims it was issued with; `authenticate` then answers their
/// JSON text.
pub proof fn lemma_issued_token_authenticates(t: Seq<char>, sub: Seq<char>, exp: int)
    requires
        is_session_token(t, sub, exp),
    ensures
        spec_bearer_token(Some(authorization_header(t))) == Ok::<Seq<char>, AuthError>(t),
        has_token_shape(t),
        jwt_verified_payload(t, JWT_SECRET@) == spec_claims_json(sub, exp),
{
    lemma_bearer_header_yields_token(t);
}

/// bcrypt's verdict on `password` against the stored hash `hash`: `Some(true)`
/// when they match, `Some(false)` when they do not, `None` when bcrypt reports
/// an error (a malformed hash).
pub uninterp spec fn bcrypt_verdict(password: Seq<char>, hash: Seq<char>) -> Option<bool>;

/// bcrypt's error type.
#[verifier::external_type_specification]
#[verifier::external_body]
pub struct ExBcryptError(bcrypt::BcryptError);

/// The start of a bcrypt hash of version 2b made with the cost `cost`
/// (below 100): `$2b$`, the cost in two digits, and `$`.
pub open spec fn bcrypt_hash_prefix(cost: int) -> Seq<char> {
    seq!['$', '2', 'b', '$', digit_char(cost / 10), digit_char(cost % 10), '$']
}

/// bcrypt's `hash` of `password` with the cost `cost` and a random salt.
///
/// It refuses a cost outside 4 to 31. Otherwise it fails only when the
/// operating system gives no random salt; the hash it writes is `$2b$`, the
/// cost in two digits, `$`, then 22 characters of salt and 31 of hash, 60 in
/// all, and bcrypt's `verify` accepts `password` against it (it re-derives the
/// hash from the salt and cost written in it). Which salt, and so which hash,
/// is left open.
#[verifier::external_body]
fn bcrypt_hash(password: &str, cost: u32) -> (r: Result<String, bcrypt::BcryptError>)
    ensures
        cost < 4 || cost > 31 ==> r is Err,
        r matches Ok(h) ==> {
            &&& bcrypt_verdict(password@, h@) == Some(true)
            &&& h@.len() == 60
            &&& h@.take(7) == bcrypt_hash_prefix(cost as int)
        },
{
    bcrypt::hash(password, cost)
}

/// bcrypt's `verify` of `password` against the stored hash `hash`.
#[verifier::external_body]
fn bcrypt_verify(password: &str, hash: &str) -> (r: Result<bool, bcrypt::BcryptError>)
    ensures
        r matches Ok(b) ==> bcrypt_verdict(password@, hash@) == Some(b),
        r is Err ==> bcrypt_verdict(password@, hash@) is None,
{
    bcrypt::verify(password, hash)
}

/// Whether `password` matches the stored hash `hash`; a malformed hash matches
/// nothing.
pub fn password_matches(password: &str, hash: &str) -> (r: bool)
    ensures
        r == (bcrypt_verdict(password@, hash@) == Some(true)),
{
    match bcrypt_verify(password, hash) {
        Ok(b) => b,
        Err(_) => false,
    }
}

/// The identifier and password hash of an account about to be stored.
#[derive(Clone, Debug, PartialEq, Eq)]
pub struct NewAccount {
    pub id: String,
    pub password_hash: String,
}

/// The first step of a registration: a fresh identifier and the hash of the
/// password (bcrypt, cost 4: a hash that starts with `$2b$04$`).
pub fn begin_register(req: &RegisterRequest) -> (r: Result<NewAccount, Reply<AuthResponse>>)
    ensures
        match r {
            Ok(a) => {
                &&& is_uuid_v4_text(a.id@)
                &&& bcrypt_verdict(req.password@, a.password_hash@) == Some(true)
                &&& a.password_hash@.len() == 60
                &&& a.password_hash@.take(7) == bcrypt_hash_prefix(PASSWORD_HASH_COST as int)
            },
            Err(reply) => is_error_reply(reply, Status::ServerError, "Failed to hash password"@),
        },
{
    let id = new_uuid_v4_text();
    match bcrypt_hash(req.password.as_str(), PASSWORD_HASH_COST) {
        Ok(h) => Ok(NewAccount { id, password_hash: h }),
        Err(_) => Err(reply_error(Status::ServerError, "Failed to hash password")),
    }
}

/// `r` answers a successful authentication of the user `user_id`, named
/// `username`: status 200 with the user's identifier and name and a session
/// token issued to the user that expires at `exp`.
pub open spec fn is_auth_reply(r: Reply<AuthResponse>, user_id: Seq<char>, username: Seq<char>, exp: int) -> bool {
    &&& r.status == Status::Success
    &&& r.body.success
    &&& r.body.error is None
    &&& r.body.data matches Some(a) && a.user_id@ == user_id && a.username@ == username
        && is_session_token(a.token@, user_id, exp)
}

/// The reply to a successful authentication of the user `user_id`, named
/// `username`, who was issued the session token `token`.
pub fn auth_reply(user_id: String, username: String, token: String) -> (r: Reply<AuthResponse>)
    ensures
        is_success_reply(r, AuthResponse { user_id, token, username }),
{
    reply_ok(AuthResponse { user_id, token, username })
}

/// The reply to a successful authentication, at the time `now`, of the user
/// `user_id`, named `username`: a session token for the user that expires
/// seven days later, with the user's identifier and name.
fn authenticated_at(user_id: String, username: String, now: i64) -> (r: Reply<AuthResponse>)
    requires
        session_expiry(now as int) <= i64::MAX,
    ensures
        is_auth_reply(r, user_id@, username@, session_expiry(now as int)),
{
    let token = issue_token_at(user_id.as_str(), now).unwrap();
    auth_reply(user_id, username, token)
}

/// The last step of a registration at the time `now`, once the store has
/// answered the insertion of the account: the new user's identifier and name
/// and a session token that expires seven days after `now`, or "Username
/// already exists" (400) when the store refused the account.
pub fn finish_register_at(
    req: &RegisterRequest,
    account: NewAccount,
    inserted: Result<(), StoreError>,
    now: i64,
) -> (r: Reply<AuthResponse>)
    requires
        session_expiry(now as int) <= i64::MAX,
    ensures
        inserted is Err ==> is_error_reply(r, Status::BadRequest, "Username already exists"@),
        inserted is Ok ==> is_auth_reply(r, account.id@, req.username@, session_expiry(now as int)),
{
    if inserted.is_err() {
        return reply_error(Status::BadRequest, "Username already exists");
    }
    authenticated_at(account.id, req.username.clone(), now)
}

/// The last step of a registration, now (see `finish_register_at`). Which
/// instant the clock reads is left open.
pub fn finish_register(
    req: &RegisterRequest,
    account: NewAccount,
    inserted: Result<(), StoreError>,
) -> (r: Reply<AuthResponse>)
    ensures
        inserted is Err ==> is_error_reply(r, Status::BadRequest, "Username already exists"@),
        inserted is Ok ==> exists|now: i64|
            now <= latest_chrono_second() && #[trigger] is_auth_reply(
                r,
                account.id@,
                req.username@,
                session_expiry(now as int),
            ),
{
    let now = now_unix_seconds();
    finish_register_at(req, account, inserted, now)
}

/// What a login decides.
#[derive(Clone, Copy, Debug, PartialEq, Eq, Structural)]
pub enum LoginDecision {
    /// The store failed.
    StoreFailure,
    /// No user has that name.
    UnknownUser,
    /// The password does not match.
    WrongPassword,
    /// The password matches: the user is authenticated.
    Accept,
}

/// The decision of a login with `password`, given what the store found for
/// the user name.
pub open spec fn spec_login_decision(lookup: Result<Option<User>, StoreError>, password: Seq<char>) -> LoginDecision {
    match lookup {
        Err(_) => LoginDecision::StoreFailure,
        Ok(None) => LoginDecision::UnknownUser,
        Ok(Some(u)) => if bcrypt_verdict(password, u.password_hash@) == Some(true) {
            LoginDecision::Accept
        } else {
            LoginDecision::WrongPassword
        },
    }
}

/// A login at the time `now`, once the store has answered the lookup of the
/// user name: the user's identifier and name and a session token that expires
/// seven days after `now`, or why there is none. An unknown name is answered
/// as a wrong password is, "Invalid credentials".
pub fn login_at(req: &LoginRequest, lookup: Result<Option<User>, StoreError>, now: i64) -> (r: Reply<AuthResponse>)
    requires
        session_expiry(now as int) <= i64::MAX,
    ensures
        match spec_login_decision(lookup, req.password@) {
            LoginDecision::StoreFailure => is_error_reply(r, Status::ServerError, "Database error"@),
            LoginDecision::UnknownUser => is_error_reply(r, Status::Unauthorized, "Invalid credentials"@),
            LoginDecision::WrongPassword => is_error_reply(r, Status::Unauthorized, "Invalid credentials"@),
            LoginDecision::Accept => is_auth_reply(
                r,
                lookup->Ok_0->Some_0.id@,
                lookup->Ok_0->Some_0.username@,
                session_expiry(now as int),
            ),
        },
{
    match lookup {
        Err(_) => reply_error(Status::ServerError, "Database error"),
        Ok(None) => reply_error(Status::Unauthorized, "Invalid credentials"),
        Ok(Some(user)) => {
            if password_matches(req.password.as_str(), user.password_hash.as_str()) {
                authenticated_at(user.id, user.username, now)
            } else {
                reply_error(Status::Unauthorized, "Invalid credentials")
            }
        },
    }
}

/// A login, now (see `login_at`). Which instant the clock reads is left open.
pub fn login(req: &LoginRequest, lookup: Result<Option<User>, StoreError>) -> (r: Reply<AuthResponse>)
    ensures
        match spec_login_decision(lookup, req.password@) {
            LoginDecision::StoreFailure => is_error_reply(r, Status::ServerError, "Database error"@),
            LoginDecision::UnknownUser => is_error_reply(r, Status::Unauthorized, "Invalid credentials"@),
            LoginDecision::WrongPassword => is_error_reply(r, Status::Unauthorized, "Invalid credentials"@),
            LoginDecision::Accept => exists|now: i64|
                now <= latest_chrono_second() && #[trigger] is_auth_reply(
                    r,
                    lookup->Ok_0->Some_0.id@,
                    lookup->Ok_0->Some_0.username@,
                    session_expiry(now as int),
                ),
        },
{
    let now = now_unix_seconds();
    login_at(req, lookup, now)
}

/// A user who registered with a password logs in with it: the hash stored at
/// registration accepts that password, so a login that finds the account
/// decides `Accept`.
pub proof fn lemma_registered_password_logs_in(req: RegisterRequest, account: NewAccount, stored: User)
    requires
        bcrypt_verdict(req.password@, account.password_hash@) == Some(true),
        stored.password_hash == account.password_hash,
    ensures
        spec_login_decision(Ok(Some(stored)), req.password@) == LoginDecision::Accept,
{
}

} // verus!
