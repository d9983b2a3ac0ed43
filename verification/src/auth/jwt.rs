//! Signed, time-bounded identity tokens.
//!
//! A token is three base64url segments joined by dots: a header, the
//! claims, and an HMAC-SHA256 over the first two under the server's
//! secret. The clock and the secret are arguments, so every function here
//! is a function of what it is given.

use vstd::prelude::*;
use vstd::utf8::encode_utf8;
use jsonwebtoken::errors::ErrorKind;
use jsonwebtoken::{decode, encode, Algorithm, DecodingKey, EncodingKey, Header, Validation};
use serde_json::Value;
use crate::auth::{AuthPayload, AuthPayloadView};
use crate::error::TokenError;
use crate::ids::{format_id, parse_id, uuid_parsed, uuid_text};
use crate::text::{last_dot, split_at_last_dot};

verus! {

/// How long a token stays valid after it is issued: 24 hours, in seconds.
pub const TOKEN_LIFETIME_SECS: usize = 86400;

/// The signed payload of a token.
#[derive(Debug, Clone, PartialEq, Eq)]
pub struct Claims {
    /// The account id, as text.
    pub sub: String,
    /// The account's name when the token was issued.
    pub username: String,
    /// Whether the account was an administrator when the token was issued.
    pub admin: bool,
    /// Expiry, in seconds since the epoch.
    pub exp: usize,
    /// Time of issue, in seconds since the epoch.
    pub iat: usize,
}

/// The mathematical value of [`Claims`].
pub struct ClaimsView {
    pub sub: Seq<char>,
    pub username: Seq<char>,
    pub admin: bool,
    pub exp: usize,
    pub iat: usize,
}

impl View for Claims {
    type V = ClaimsView;

    open spec fn view(&self) -> ClaimsView {
        ClaimsView {
            sub: self.sub@,
            username: self.username@,
            admin: self.admin,
            exp: self.exp,
            iat: self.iat,
        }
    }
}

impl ClaimsView {
    /// Claims as they are issued: valid from `iat` for exactly the token
    /// lifetime.
    pub open spec fn well_formed(self) -> bool {
        self.iat < self.exp && self.exp == self.iat + TOKEN_LIFETIME_SECS
    }

    /// The identity these claims assert, if their subject is an account id.
    pub open spec fn identity(self) -> Option<AuthPayloadView> {
        match uuid_parsed(self.sub) {
            Some(id) => Some(AuthPayloadView { user_id: id, username: self.username, is_admin: self.admin }),
            None => None,
        }
    }
}

/// The claims issued for `payload` at time `now`.
pub open spec fn issued_claims(payload: AuthPayloadView, now: usize) -> ClaimsView {
    ClaimsView {
        sub: uuid_text(payload.user_id),
        username: payload.username,
        admin: payload.is_admin,
        exp: (now + TOKEN_LIFETIME_SECS) as usize,
        iat: now,
    }
}

/// The claims of a token as they come out of the decoder: each field is
/// there only if the token carries it with the right type.
#[derive(Debug, Clone, PartialEq, Eq)]
pub struct RawClaims {
    pub sub: Option<String>,
    pub username: Option<String>,
    pub admin: Option<bool>,
    pub exp: Option<u64>,
    pub iat: Option<u64>,
}

/// The mathematical value of [`RawClaims`].
pub struct RawClaimsView {
    pub sub: Option<Seq<char>>,
    pub username: Option<Seq<char>>,
    pub admin: Option<bool>,
    pub exp: Option<u64>,
    pub iat: Option<u64>,
}

impl View for RawClaims {
    type V = RawClaimsView;

    open spec fn view(&self) -> RawClaimsView {
        RawClaimsView {
            sub: match self.sub {
                Some(s) => Some(s@),
                None => None,
            },
            username: match self.username {
                Some(s) => Some(s@),
                None => None,
            },
            admin: self.admin,
            exp: self.exp,
            iat: self.iat,
        }
    }
}

impl RawClaimsView {
    /// The claims, if all five fields are there and the two times fit.
    pub open spec fn complete(self) -> Option<ClaimsView> {
        if self.sub is Some && self.username is Some && self.admin is Some && self.exp is Some
            && self.iat is Some && self.exp->0 <= usize::MAX && self.iat->0 <= usize::MAX {
            Some(
                ClaimsView {
                    sub: self.sub->0,
                    username: self.username->0,
                    admin: self.admin->0,
                    exp: self.exp->0 as usize,
                    iat: self.iat->0 as usize,
                },
            )
        } else {
            None
        }
    }
}

/// What decoding reads back from claims that were encoded.
pub open spec fn raw_of(claims: ClaimsView) -> RawClaimsView {
    RawClaimsView {
        sub: Some(claims.sub),
        username: Some(claims.username),
        admin: Some(claims.admin),
        exp: Some(claims.exp as u64),
        iat: Some(claims.iat as u64),
    }
}

/// Why the decoder turned a token down.
#[derive(Debug, Clone, Copy, PartialEq, Eq, Structural)]
pub enum DecodeFailure {
    /// The signature does not match.
    Signature,
    /// Anything else: the shape, the header, the algorithm, the encoding
    /// of a segment, or the claims as JSON.
    Other,
}

/// How many dots a text holds.
pub open spec fn count_dots(text: Seq<char>) -> nat
    decreases text.len(),
{
    if text.len() == 0 {
        0
    } else {
        count_dots(text.drop_last()) + if text.last() == '.' {
            1nat
        } else {
            0nat
        }
    }
}

/// A token has the shape of a signed token where it is three segments
/// joined by two dots.
pub open spec fn has_token_shape(token: Seq<char>) -> bool {
    count_dots(token) == 2
}

/// Whether `signature` is the base64url text of the HMAC-SHA256 of
/// `message` under `secret`, or `None` where the comparison could not be
/// made.
pub uninterp spec fn hs256_verified(message: Seq<u8>, signature: Seq<char>, secret: Seq<u8>) -> Option<
    bool,
>;

/// The MAC of a token matches: what stands behind its last dot is the
/// signature of what stands before it.
pub open spec fn signature_verified(token: Seq<char>, secret: Seq<u8>) -> bool {
    last_dot(token) matches Some(k) && hs256_verified(
        encode_utf8(token.take(k)),
        token.skip(k + 1),
        secret,
    ) == Some(true)
}

/// The token that signing `claims` under `secret` with HMAC-SHA256 gives,
/// or `None` where the encoder fails.
pub uninterp spec fn jwt_encoded(claims: ClaimsView, secret: Seq<u8>) -> Option<Seq<char>>;

/// What decoding `token` under `secret` gives, expiry left unexamined:
/// the claims of a token whose signature matches, or why it was turned down.
pub uninterp spec fn jwt_decoded(token: Seq<char>, secret: Seq<u8>) -> Result<
    RawClaimsView,
    DecodeFailure,
>;

/// Declares `jsonwebtoken::errors::Error`, the error of the encoder.
/// Nothing is known of a value of it; it is only handed on.
#[verifier::external_type_specification]
#[verifier::external_body]
pub struct ExJwtError(jsonwebtoken::errors::Error);

/// Encodes and signs `claims`.
///
/// Calls `jsonwebtoken::encode` with the default header (HS256) on a JSON
/// object that holds the five claims under the names `sub`, `username`,
/// `admin`, `exp` and `iat`, in this order. The result is a function of
/// claims and secret. It is three base64url segments joined by two dots,
/// the third being the signature the encoder computes over the first two,
/// so that recomputing it under the same secret gives the same text. The
/// contract also claims that the token decodes, under the same secret, to
/// the claims that went in: the decoder recomputes the same MAC over the
/// same two segments and parses the JSON that was written.
#[verifier::external_body]
fn jwt_encode(claims: &Claims, secret: &[u8]) -> (token: Result<String, jsonwebtoken::errors::Error>)
    ensures
        match token {
            Ok(t) => {
                &&& jwt_encoded(claims@, secret@) == Some(t@)
                &&& has_token_shape(t@)
                &&& signature_verified(t@, secret@)
                &&& jwt_decoded(t@, secret@) == Ok::<RawClaimsView, DecodeFailure>(raw_of(claims@))
            },
            Err(_) => jwt_encoded(claims@, secret@) is None,
        },
{
    let mut body = serde_json::Map::new();
    body.insert("sub".to_owned(), Value::from(claims.sub.as_str()));
    body.insert("username".to_owned(), Value::from(claims.username.as_str()));
    body.insert("admin".to_owned(), Value::from(claims.admin));
    body.insert("exp".to_owned(), Value::from(claims.exp));
    body.insert("iat".to_owned(), Value::from(claims.iat));
    encode(&Header::default(), &body, &EncodingKey::from_secret(secret))
}

/// Compares `signature` with the HMAC-SHA256 of `message` under `secret`.
///
/// Calls `jsonwebtoken::crypto::verify` for HS256, which signs the message
/// again under the secret and compares the two texts in constant time.
/// The result is a function of the three arguments.
#[verifier::external_body]
fn mac_verify(signature: &str, message: &[u8], secret: &[u8]) -> (checked: Result<
    bool,
    jsonwebtoken::errors::Error,
>)
    ensures
        match checked {
            Ok(matches) => hs256_verified(message@, signature@, secret@) == Some(matches),
            Err(_) => hs256_verified(message@, signature@, secret@) is None,
        },
{
    jsonwebtoken::crypto::verify(signature, message, &DecodingKey::from_secret(secret), Algorithm::HS256)
}

/// Checks the signature of `token` and reads its claims.
///
/// Calls `jsonwebtoken::decode` for HS256 with the expiry check switched
/// off, so that the call does not read the clock and its result is a
/// function of token and secret. Of the decoder's errors only a signature
/// mismatch is told apart. Each claim is picked from the decoded JSON by
/// name and type.
#[verifier::external_body]
fn jwt_decode(token: &str, secret: &[u8]) -> (decoded: Result<RawClaims, DecodeFailure>)
    ensures
        match decoded {
            Ok(raw) => jwt_decoded(token@, secret@) == Ok::<RawClaimsView, DecodeFailure>(raw@),
            Err(failure) => jwt_decoded(token@, secret@) == Err::<RawClaimsView, DecodeFailure>(
                failure,
            ),
        },
{
    let mut validation = Validation::new(Algorithm::HS256);
    validation.validate_exp = false;
    let decoded = decode::<Value>(token, &DecodingKey::from_secret(secret), &validation);
    let claims = decoded.map_err(|error| match error.kind() {
        ErrorKind::InvalidSignature => DecodeFailure::Signature,
        _ => DecodeFailure::Other,
    })?.claims;
    Ok(RawClaims {
        sub: claims["sub"].as_str().map(str::to_owned),
        username: claims["username"].as_str().map(str::to_owned),
        admin: claims["admin"].as_bool(),
        exp: claims["exp"].as_u64(),
        iat: claims["iat"].as_u64(),
    })
}

/// What a decoded token comes to at time `now`.
///
/// A token the decoder turned down is malformed, unless it was the
/// signature that failed. Claims that are not all there are malformed.
/// From its expiry on the token has expired, whatever else it holds. A
/// subject that is no account id is invalid. Otherwise the token yields
/// the identity it asserts.
pub open spec fn token_outcome(decoded: Result<RawClaimsView, DecodeFailure>, now: usize) -> Result<
    AuthPayloadView,
    TokenError,
> {
    match decoded {
        Err(DecodeFailure::Signature) => Err(TokenError::SignatureInvalid),
        Err(DecodeFailure::Other) => Err(TokenError::Malformed),
        Ok(raw) => match raw.complete() {
            None => Err(TokenError::Malformed),
            Some(claims) => if now >= claims.exp {
                Err(TokenError::Expired)
            } else {
                match claims.identity() {
                    Some(identity) => Ok(identity),
                    None => Err(TokenError::SubjectInvalid),
                }
            },
        },
    }
}

/// What verifying `token` under `secret` comes to at time `now`. A text
/// that is not three segments is malformed. A text of three segments
/// whose MAC does not match has an invalid signature, whatever its header
/// and claims hold. Any other text is what its decoding comes to.
pub open spec fn token_verdict(token: Seq<char>, secret: Seq<char>, now: usize) -> Result<
    AuthPayloadView,
    TokenError,
> {
    if !has_token_shape(token) {
        Err(TokenError::Malformed)
    } else if !signature_verified(token, encode_utf8(secret)) {
        Err(TokenError::SignatureInvalid)
    } else {
        token_outcome(jwt_decoded(token, encode_utf8(secret)), now)
    }
}

/// The mathematical value of a verification result.
pub open spec fn outcome_view(outcome: Result<AuthPayload, TokenError>) -> Result<
    AuthPayloadView,
    TokenError,
> {
    match outcome {
        Ok(payload) => Ok(payload@),
        Err(e) => Err(e),
    }
}

impl Claims {
    /// The claims of a token issued for `payload` at time `now`: a snapshot
    /// of the identity, valid for the token lifetime.
    pub fn issue(payload: &AuthPayload, now: usize) -> (claims: Claims)
        requires
            now + TOKEN_LIFETIME_SECS <= usize::MAX,
        ensures
            claims@ == issued_claims(payload@, now),
            claims@.well_formed(),
            claims@.identity() == Some(payload@),
    {
        Claims {
            sub: format_id(payload.user_id),
            username: payload.username.clone(),
            admin: payload.is_admin,
            exp: now + TOKEN_LIFETIME_SECS,
            iat: now,
        }
    }
}

/// Turns what the encoder returned into the library's result.
pub fn signing_outcome(token: Result<String, jsonwebtoken::errors::Error>) -> (outcome: Result<
    String,
    TokenError,
>)
    ensures
        match token {
            Ok(t) => outcome == Ok::<String, TokenError>(t),
            Err(_) => outcome == Err::<String, TokenError>(TokenError::Signing),
        },
{
    match token {
        Ok(t) => Ok(t),
        Err(_) => Err(TokenError::Signing),
    }
}

/// `token` is a token issued for `payload` at time `now` under `secret`:
/// it has three segments, its MAC matches, and it decodes, under that
/// secret, to the claims issued for `payload`.
pub open spec fn issued(token: Seq<char>, payload: AuthPayloadView, secret: Seq<char>, now: usize) -> bool {
    &&& has_token_shape(token)
    &&& signature_verified(token, encode_utf8(secret))
    &&& jwt_decoded(token, encode_utf8(secret)) == Ok::<RawClaimsView, DecodeFailure>(
        raw_of(issued_claims(payload, now)),
    )
    &&& issued_claims(payload, now).identity() == Some(payload)
}

/// Issues a token for `payload` at time `now`, signed under `secret`.
///
/// The token is fixed by the three arguments, and it decodes under the
/// same secret to the claims of `payload`.
pub fn create_token(payload: &AuthPayload, secret: &str, now: usize) -> (outcome: Result<
    String,
    TokenError,
>)
    requires
        now + TOKEN_LIFETIME_SECS <= usize::MAX,
    ensures
        match jwt_encoded(issued_claims(payload@, now), encode_utf8(secret@)) {
            Some(t) => outcome matches Ok(token) && token@ == t,
            None => outcome == Err::<String, TokenError>(TokenError::Signing),
        },
        outcome matches Ok(token) ==> issued(token@, payload@, secret@, now),
{
    let claims = Claims::issue(payload, now);
    signing_outcome(jwt_encode(&claims, secret.as_bytes()))
}

/// What the claims read from a token come to at time `now`.
pub fn claims_outcome(decoded: Result<RawClaims, DecodeFailure>, now: usize) -> (outcome: Result<
    AuthPayload,
    TokenError,
>)
    ensures
        outcome_view(outcome) == token_outcome(
            match decoded {
                Ok(raw) => Ok(raw@),
                Err(failure) => Err(failure),
            },
            now,
        ),
{
    let raw = match decoded {
        Ok(raw) => raw,
        Err(DecodeFailure::Signature) => {
            return Err(TokenError::SignatureInvalid);
        },
        Err(DecodeFailure::Other) => {
            return Err(TokenError::Malformed);
        },
    };
    match (raw.sub, raw.username, raw.admin, raw.exp, raw.iat) {
        (Some(sub), Some(username), Some(admin), Some(exp), Some(iat)) => {
            if exp > usize::MAX as u64 || iat > usize::MAX as u64 {
                return Err(TokenError::Malformed);
            }
            if now as u64 >= exp {
                return Err(TokenError::Expired);
            }
            match parse_id(sub.as_str()) {
                Some(user_id) => Ok(AuthPayload { user_id, username, is_admin: admin }),
                None => Err(TokenError::SubjectInvalid),
            }
        },
        _ => Err(TokenError::Malformed),
    }
}

/// Whether the comparison of the MAC established a match: a mismatch and
/// a comparison that could not be made both count as none.
pub fn signature_outcome(checked: Result<bool, jsonwebtoken::errors::Error>) -> (signed: bool)
    ensures
        signed == (checked matches Ok(matches) && matches),
{
    match checked {
        Ok(matches) => matches,
        Err(_) => false,
    }
}

/// Whether `token` is three segments joined by two dots.
pub fn check_token_shape(token: &str) -> (shaped: bool)
    ensures
        shaped == has_token_shape(token@),
{
    let mut dots: u8 = 0;
    for c in it: token.chars()
        invariant
            it.seq() == token@,
            dots <= 3,
            dots == 3 || dots == count_dots(token@.take(it.index() as int)),
            dots == 3 ==> count_dots(token@.take(it.index() as int)) >= 3,
    {
        assert(token@.take(it.index() + 1).drop_last() =~= token@.take(it.index() as int));
        if c == '.' && dots < 3 {
            dots += 1;
        }
    }
    assert(token@.take(token@.len() as int) =~= token@);
    dots == 2
}

/// Verifies `token` under `secret` at time `now` and returns the identity
/// it asserts.
///
/// The checks come in this order: the shape of the token, its MAC over
/// the first two segments, then header and claims as the decoder reads
/// them, the expiry, the subject. The first that fails names the error.
pub fn verify_token(token: &str, secret: &str, now: usize) -> (outcome: Result<AuthPayload, TokenError>)
    ensures
        outcome_view(outcome) == token_verdict(token@, secret@, now),
{
    if !check_token_shape(token) {
        return Err(TokenError::Malformed);
    }
    let signed = match split_at_last_dot(token) {
        Some((message, signature)) => signature_outcome(
            mac_verify(signature, message.as_bytes(), secret.as_bytes()),
        ),
        None => false,
    };
    if !signed {
        return Err(TokenError::SignatureInvalid);
    }
    claims_outcome(jwt_decode(token, secret.as_bytes()), now)
}

/// A token that is verified before its expiry, under the secret it was
/// signed with, yields the identity it was issued for.
pub proof fn lemma_issued_token_verifies(
    token: Seq<char>,
    payload: AuthPayloadView,
    secret: Seq<char>,
    now: usize,
    later: usize,
)
    requires
        now + TOKEN_LIFETIME_SECS <= usize::MAX,
        issued(token, payload, secret, now),
        later < now + TOKEN_LIFETIME_SECS,
    ensures
        token_verdict(token, secret, later) == Ok::<AuthPayloadView, TokenError>(payload),
{
    let claims = issued_claims(payload, now);
    assert(raw_of(claims).complete() == Some(claims));
}

/// A token that is verified at or after its expiry, 24 hours after it was
/// issued, has expired.
pub proof fn lemma_issued_token_expires(
    token: Seq<char>,
    payload: AuthPayloadView,
    secret: Seq<char>,
    now: usize,
    later: usize,
)
    requires
        now + TOKEN_LIFETIME_SECS <= usize::MAX,
        issued(token, payload, secret, now),
        later >= now + TOKEN_LIFETIME_SECS,
    ensures
        token_verdict(token, secret, later) == Err::<AuthPayloadView, TokenError>(TokenError::Expired),
{
    let claims = issued_claims(payload, now);
    assert(raw_of(claims).complete() == Some(claims));
}

/// A token read at or after the expiry in its claims has expired,
/// although it has the right shape, its signature matches and its claims
/// are all there.
pub proof fn lemma_expired_token_is_rejected(token: Seq<char>, secret: Seq<char>, now: usize)
    requires
        has_token_shape(token),
        signature_verified(token, encode_utf8(secret)),
        jwt_decoded(token, encode_utf8(secret)) matches Ok(raw) && (raw.complete() matches Some(claims)
            && now >= claims.exp),
    ensures
        token_verdict(token, secret, now) == Err::<AuthPayloadView, TokenError>(TokenError::Expired),
{
}

/// Expiry is final: a token that has expired stays expired.
pub proof fn lemma_expiry_is_final(token: Seq<char>, secret: Seq<char>, now: usize, later: usize)
    requires
        now <= later,
        token_verdict(token, secret, now) == Err::<AuthPayloadView, TokenError>(TokenError::Expired),
    ensures
        token_verdict(token, secret, later) == Err::<AuthPayloadView, TokenError>(TokenError::Expired),
{
}

/// A token that is accepted at some time was accepted, with the same
/// identity, at every earlier time: nothing but expiry depends on the
/// clock.
pub proof fn lemma_valid_until_expiry(token: Seq<char>, secret: Seq<char>, now: usize, later: usize)
    requires
        now <= later,
        token_verdict(token, secret, later) is Ok,
    ensures
        token_verdict(token, secret, now) == token_verdict(token, secret, later),
{
}

/// A token of three segments whose MAC does not match has an invalid
/// signature, whatever its header and its claims hold and whatever the
/// time: neither is looked at before the MAC.
pub proof fn lemma_unsigned_token_is_rejected(token: Seq<char>, secret: Seq<char>, now: usize)
    requires
        has_token_shape(token),
        !signature_verified(token, encode_utf8(secret)),
    ensures
        token_verdict(token, secret, now) == Err::<AuthPayloadView, TokenError>(
            TokenError::SignatureInvalid,
        ),
{
}

/// A token that is accepted has three segments and a MAC that matches.
pub proof fn lemma_accepted_token_is_signed(token: Seq<char>, secret: Seq<char>, now: usize)
    requires
        token_verdict(token, secret, now) is Ok,
    ensures
        has_token_shape(token),
        signature_verified(token, encode_utf8(secret)),
{
}

/// A text that is not three segments joined by two dots is never accepted,
/// whatever the secret and the time.
pub proof fn lemma_shapeless_token_is_malformed(token: Seq<char>, secret: Seq<char>, now: usize)
    requires
        !has_token_shape(token),
    ensures
        token_verdict(token, secret, now) == Err::<AuthPayloadView, TokenError>(TokenError::Malformed),
{
}

} // verus!
