//! Session tokens: signed, compact, and carrying who the user is and until
//! when the session lasts.
//!
//! A token is a JSON Web Token signed with HMAC-SHA256 under a secret that the
//! application holds. Its payload has the registered claims `sub` (the user's
//! identifier), `iat` and `exp` (seconds since the Unix epoch). Signing and
//! the check of the signature are the work of the `jwt` crate; what a checked
//! payload must hold to count as a session is decided here.

use hmac::{Hmac, Mac};
use jwt::{RegisteredClaims, SignWithKey, VerifyWithKey};
use sha2::Sha256;
use vstd::prelude::*;

verus! {

/// The claims of a session as the contracts speak of them.
pub struct ClaimsView {
    pub id: Seq<char>,
    pub issued: u64,
    pub expiration: u64,
}

/// The claims of a session: the user's identifier, and when the session was
/// issued and when it ends, in seconds since the Unix epoch.
#[derive(Debug)]
pub struct TokenClaims {
    pub id: String,
    pub issued: u64,
    pub expiration: u64,
}

impl View for TokenClaims {
    type V = ClaimsView;

    open spec fn view(&self) -> ClaimsView {
        ClaimsView { id: self.id@, issued: self.issued, expiration: self.expiration }
    }
}

impl Clone for TokenClaims {
    fn clone(&self) -> (r: Self)
        ensures
            r == *self,
    {
        TokenClaims { id: self.id.clone(), issued: self.issued, expiration: self.expiration }
    }
}

/// The payload of a token as the contracts speak of it.
pub struct RawClaimsView {
    pub subject: Option<Seq<char>>,
    pub issued_at: Option<u64>,
    pub expiration: Option<u64>,
}

/// What the payload of a token held of the three claims of a session. Any of
/// them may be missing: a token can be signed with the right key and still not
/// be a session.
#[derive(Debug)]
pub struct RawClaims {
    pub subject: Option<String>,
    pub issued_at: Option<u64>,
    pub expiration: Option<u64>,
}

impl View for RawClaims {
    type V = RawClaimsView;

    open spec fn view(&self) -> RawClaimsView {
        RawClaimsView {
            subject: match self.subject {
                Some(s) => Some(s@),
                None => None,
            },
            issued_at: self.issued_at,
            expiration: self.expiration,
        }
    }
}

/// Why a token was turned down, as the contracts speak of it.
pub enum VerificationErrorView {
    Rejected { reason: Seq<char> },
    MissingClaim,
    Expired,
}

/// Why a token was turned down.
#[derive(Debug)]
pub enum VerificationError {
    /// The token is malformed, or its signature does not match. `reason` is
    /// what the signature check reported.
    Rejected { reason: String },
    /// The signature matches, but the payload lacks the user's identifier or
    /// one of the two times.
    MissingClaim,
    /// The session has ended.
    Expired,
}

impl View for VerificationError {
    type V = VerificationErrorView;

    open spec fn view(&self) -> VerificationErrorView {
        match self {
            VerificationError::Rejected { reason } => VerificationErrorView::Rejected {
                reason: reason@,
            },
            VerificationError::MissingClaim => VerificationErrorView::MissingClaim,
            VerificationError::Expired => VerificationErrorView::Expired,
        }
    }
}

/// A text or an error text, by their views.
pub open spec fn text_result(r: Result<String, String>) -> Result<Seq<char>, Seq<char>> {
    match r {
        Ok(text) => Ok(text@),
        Err(e) => Err(e@),
    }
}

/// A payload or an error text, by their views.
pub open spec fn payload_result(r: Result<RawClaims, String>) -> Result<RawClaimsView, Seq<char>> {
    match r {
        Ok(raw) => Ok(raw@),
        Err(e) => Err(e@),
    }
}

/// Claims or the reason why there are none, by their views.
pub open spec fn claims_result(r: Result<TokenClaims, VerificationError>) -> Result<
    ClaimsView,
    VerificationErrorView,
> {
    match r {
        Ok(claims) => Ok(claims@),
        Err(e) => Err(e@),
    }
}

/// The payload that holds exactly these claims.
pub open spec fn payload_of(claims: ClaimsView) -> RawClaimsView {
    RawClaimsView {
        subject: Some(claims.id),
        issued_at: Some(claims.issued),
        expiration: Some(claims.expiration),
    }
}

/// The token that signing these claims under `secret` gives, or the text of
/// the error that signing ends with.
pub uninterp spec fn signed_token(
    secret: Seq<char>,
    subject: Seq<char>,
    issued_at: u64,
    expiration: u64,
) -> Result<Seq<char>, Seq<char>>;

/// The payload of `token` where its signature under `secret` matches, or the
/// text of the error with which the check of the token ends.
pub uninterp spec fn verified_claims(secret: Seq<char>, token: Seq<char>) -> Result<
    RawClaimsView,
    Seq<char>,
>;

/// Whether the check of `token` under `secret` goes through and finds exactly
/// these three claims in its payload.
pub open spec fn reads_as(
    secret: Seq<char>,
    token: Seq<char>,
    subject: Seq<char>,
    issued_at: u64,
    expiration: u64,
) -> bool {
    verified_claims(secret, token) == Ok::<RawClaimsView, Seq<char>>(
        payload_of(ClaimsView { id: subject, issued: issued_at, expiration }),
    )
}

/// Signs the claims `sub`, `iat` and `exp` with `jwt::SignWithKey::sign_with_key`,
/// under the HMAC-SHA256 key that `hmac::Mac::new_from_slice` makes of the
/// bytes of `secret`; an error of either comes back as its text.
///
/// Believed, not proved: the outcome depends on the four arguments alone, and
/// a token that comes out is one that `jwt::VerifyWithKey::verify_with_key`
/// accepts under the same secret and reads as the same three claims.
#[verifier::external_body]
fn jwt_sign(secret: &str, subject: &str, issued_at: u64, expiration: u64) -> (r: Result<String, String>)
    ensures
        text_result(r) == signed_token(secret@, subject@, issued_at, expiration),
        r matches Ok(token) ==> reads_as(secret@, token@, subject@, issued_at, expiration),
{
    let key: Hmac<Sha256> = match Hmac::new_from_slice(secret.as_bytes()) {
        Ok(key) => key,
        Err(e) => return Err(e.to_string()),
    };
    let subject = Some(subject.to_owned());
    let (issued_at, expiration) = (Some(issued_at), Some(expiration));
    let claims = RegisteredClaims { subject, issued_at, expiration, ..Default::default() };
    match claims.sign_with_key(&key) {
        Ok(token) => Ok(token),
        Err(e) => Err(e.to_string()),
    }
}

/// Checks `token` with `jwt::VerifyWithKey::verify_with_key`, under the
/// HMAC-SHA256 key that `hmac::Mac::new_from_slice` makes of the bytes of
/// `secret`, and hands out the claims `sub`, `iat` and `exp` of its payload;
/// an error of either comes back as its text.
///
/// Believed, not proved: the outcome depends on the two arguments alone.
#[verifier::external_body]
fn jwt_verify(secret: &str, token: &str) -> (r: Result<RawClaims, String>)
    ensures
        payload_result(r) == verified_claims(secret@, token@),
{
    let key: Hmac<Sha256> = match Hmac::new_from_slice(secret.as_bytes()) {
        Ok(key) => key,
        Err(e) => return Err(e.to_string()),
    };
    let verified: Result<RegisteredClaims, jwt::Error> = token.verify_with_key(&key);
    match verified {
        Ok(c) => Ok(RawClaims { subject: c.subject, issued_at: c.issued_at, expiration: c.expiration }),
        Err(e) => Err(e.to_string()),
    }
}

/// The verdict "a session, with these claims".
pub open spec fn accepted(claims: ClaimsView) -> Result<ClaimsView, VerificationErrorView> {
    Ok(claims)
}

/// The verdict "the session has ended".
pub open spec fn expired() -> Result<ClaimsView, VerificationErrorView> {
    Err(VerificationErrorView::Expired)
}

/// What a checked token is worth at the time `now`: a session if the check
/// went through, the payload has all three claims, and the end of the session
/// is not in the past.
pub open spec fn checked_claims(raw: Result<RawClaimsView, Seq<char>>, now: u64) -> Result<
    ClaimsView,
    VerificationErrorView,
> {
    match raw {
        Err(reason) => Err(VerificationErrorView::Rejected { reason }),
        Ok(payload) => match (payload.subject, payload.issued_at, payload.expiration) {
            (Some(id), Some(issued), Some(expiration)) => if expiration < now {
                Err(VerificationErrorView::Expired)
            } else {
                Ok(ClaimsView { id, issued, expiration })
            },
            _ => Err(VerificationErrorView::MissingClaim),
        },
    }
}

/// Decides what the outcome `raw` of a signature check is worth at the time
/// `now`.
pub fn check_claims(raw: Result<RawClaims, String>, now: u64) -> (r: Result<TokenClaims, VerificationError>)
    ensures
        claims_result(r) == checked_claims(payload_result(raw), now),
{
    match raw {
        Err(reason) => Err(VerificationError::Rejected { reason }),
        Ok(payload) => match (payload.subject, payload.issued_at, payload.expiration) {
            (Some(id), Some(issued), Some(expiration)) => if expiration < now {
                Err(VerificationError::Expired)
            } else {
                Ok(TokenClaims { id, issued, expiration })
            },
            _ => Err(VerificationError::MissingClaim),
        },
    }
}

/// Issues and verifies session tokens under one secret.
pub struct TokenCodec {
    secret: String,
}

impl TokenCodec {
    /// The secret that tokens are signed with.
    pub closed spec fn secret(&self) -> Seq<char> {
        self.secret@
    }

    /// Whether `token` is one that verification reads as exactly `claims`.
    pub open spec fn carries(&self, token: Seq<char>, claims: ClaimsView) -> bool {
        reads_as(self.secret(), token, claims.id, claims.issued, claims.expiration)
    }

    /// What `verify` makes of `token` at the time `now`.
    pub open spec fn verdict(&self, token: Seq<char>, now: u64) -> Result<
        ClaimsView,
        VerificationErrorView,
    > {
        checked_claims(verified_claims(self.secret(), token), now)
    }

    /// A codec for the given secret.
    pub fn new(secret: String) -> (r: Self)
        ensures
            r.secret() == secret@,
    {
        TokenCodec { secret }
    }

    /// Signs `claims`. A token that comes out carries them.
    pub fn issue(&self, claims: &TokenClaims) -> (r: Result<String, String>)
        ensures
            text_result(r) == signed_token(
                self.secret(),
                claims.id@,
                claims.issued,
                claims.expiration,
            ),
            r matches Ok(token) ==> self.carries(token@, claims@),
    {
        jwt_sign(self.secret.as_str(), claims.id.as_str(), claims.issued, claims.expiration)
    }

    /// Checks `token` at the time `now`, and gives its claims if it is a
    /// session that has not ended.
    pub fn verify(&self, token: &str, now: u64) -> (r: Result<TokenClaims, VerificationError>)
        ensures
            claims_result(r) == self.verdict(token@, now),
    {
        check_claims(jwt_verify(self.secret.as_str(), token), now)
    }
}

/// A token that carries claims is accepted, with those claims, up to and
/// including the second in which the session ends, and turned down as expired
/// from then on.
pub proof fn lemma_carried_claims_verify(
    codec: TokenCodec,
    token: Seq<char>,
    claims: ClaimsView,
    now: u64,
)
    requires
        codec.carries(token, claims),
    ensures
        now <= claims.expiration ==> codec.verdict(token, now) == accepted(claims),
        now > claims.expiration ==> codec.verdict(token, now) == expired(),
{
}

} // verus!
