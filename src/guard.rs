//! The guard that stands before every owner-only handler: it reads the request's
//! credential header, screens the bearer token for shape and expiry, and resolves
//! it to the diary's owner.
//!
//! The guard decides in two steps. `begin_authentication` refuses the request at
//! once or asks for the token to be looked up; the caller performs the lookup
//! and hands what it found to `complete_authentication`. An expired or malformed
//! token thus never reaches the store.

use crate::models::DiaryOwner;
use vstd::prelude::*;

verus! {

/// An error of the token library, carried through unread.
#[verifier::external_type_specification]
#[verifier::external_body]
pub struct ExJwtError(jwt::Error);

/// Why a request was refused.
#[derive(Debug, Clone, Copy, PartialEq, Eq, Structural)]
pub enum AuthError {
    /// The request carried no credential header, or more than one.
    MissingOrAmbiguousCredential,
    /// The token does not parse into a header and claims.
    MalformedToken,
    /// The token's claims hold no expiry.
    MissingExpiry,
    /// The token's expiry lies before the current time.
    Expired,
    /// No owner holds the token.
    UnknownToken,
}

/// What one authentication attempt came to.
#[derive(Debug)]
pub enum AuthOutcome {
    Authenticated(DiaryOwner),
    Rejected(AuthError),
}

/// What the guard asks for once it has read the request: a refusal, or a
/// lookup of the owner that holds the given token.
#[derive(Debug)]
pub enum GuardStep {
    Reject(AuthError),
    LookUp(String),
}

impl View for GuardStep {
    /// A lookup is `Ok` with the token to look up; a refusal is `Err` with its reason.
    type V = Result<Seq<char>, AuthError>;

    open spec fn view(&self) -> Result<Seq<char>, AuthError> {
        match self {
            GuardStep::Reject(e) => Err(*e),
            GuardStep::LookUp(t) => Ok(t@),
        }
    }
}

/// The expiry that a token's claims hold: `None` where the token does not
/// parse into a header and claims, `Some(None)` where its claims hold no expiry.
pub uninterp spec fn token_expiry(raw: Seq<char>) -> Option<Option<u64>>;

/// The verdict on a parsed token at time `now`: `None` lets it through.
pub open spec fn expiry_verdict(parsed: Option<Option<u64>>, now: u64) -> Option<AuthError> {
    match parsed {
        None => Some(AuthError::MalformedToken),
        Some(None) => Some(AuthError::MissingExpiry),
        Some(Some(exp)) => if exp < now {
            Some(AuthError::Expired)
        } else {
            None
        },
    }
}

/// The values of a request's credential headers.
pub open spec fn header_values(headers: Seq<String>) -> Seq<Seq<char>> {
    headers.map_values(|h: String| h@)
}

/// What the guard makes of a request's credential headers at time `now`:
/// the token to look up, or the reason to refuse. A token of at most one
/// character is looked up without any check of its shape or expiry.
pub open spec fn screening(headers: Seq<Seq<char>>, now: u64) -> Result<Seq<char>, AuthError> {
    if headers.len() != 1 {
        Err(AuthError::MissingOrAmbiguousCredential)
    } else if headers[0].len() <= 1 {
        Ok(headers[0])
    } else {
        match expiry_verdict(token_expiry(headers[0]), now) {
            Some(e) => Err(e),
            None => Ok(headers[0]),
        }
    }
}

/// The outcome once the lookup of a screened token has found `found`.
pub open spec fn lookup_outcome(found: Option<DiaryOwner>) -> AuthOutcome {
    match found {
        Some(owner) => AuthOutcome::Authenticated(owner),
        None => AuthOutcome::Rejected(AuthError::UnknownToken),
    }
}

/// The outcome of a whole attempt at time `now`, where `lookup` gives the
/// owner that holds each token, if any.
pub open spec fn authentication(
    headers: Seq<Seq<char>>,
    now: u64,
    lookup: spec_fn(Seq<char>) -> Option<DiaryOwner>,
) -> AuthOutcome {
    match screening(headers, now) {
        Err(e) => AuthOutcome::Rejected(e),
        Ok(token) => lookup_outcome(lookup(token)),
    }
}

/// Relies on jwt's `Token::parse_unverified` with its `Header` and `Claims`:
/// it parses the token without checking its signature, and the result is the
/// `exp` claim. A string without a `.` has no claims component and fails.
#[verifier::external_body]
fn parse_expiry(raw: &str) -> (r: Result<Option<u64>, jwt::Error>)
    ensures
        match r {
            Ok(exp) => token_expiry(raw@) == Some(exp),
            Err(_) => token_expiry(raw@) is None,
        },
        !raw@.contains('.') ==> r is Err,
{
    let token: jwt::Token<jwt::Header, jwt::Claims, jwt::Unverified> =
        jwt::Token::parse_unverified(raw)?;
    Ok(token.claims().registered.expiration)
}

/// Relies on time's `get_time`: the system clock's seconds since the Unix
/// epoch. Nothing is promised of the value read.
#[verifier::external_body]
fn current_time() -> (r: u64) {
    time::get_time().sec as u64
}

/// Judges a parsed token at time `now`: refuses one that did not parse, one
/// without an expiry, and one whose expiry lies strictly before `now`.
pub fn check_expiry(parsed: Option<Option<u64>>, now: u64) -> (r: Option<AuthError>)
    ensures
        r == expiry_verdict(parsed, now),
{
    match parsed {
        None => Some(AuthError::MalformedToken),
        Some(None) => Some(AuthError::MissingExpiry),
        Some(Some(exp)) => if exp < now {
            Some(AuthError::Expired)
        } else {
            None
        },
    }
}

/// Screens a request's credential headers at time `now` (seconds since the
/// Unix epoch): refuses the request, or names the token to look up.
pub fn begin_authentication(headers: &Vec<String>, now: u64) -> (r: GuardStep)
    ensures
        r@ == screening(header_values(headers@), now),
        headers@.len() == 1 && headers@[0]@.len() > 1 && !headers@[0]@.contains('.') ==> r@ == Err::<
            Seq<char>,
            AuthError,
        >(AuthError::MalformedToken),
{
    if headers.len() != 1 {
        return GuardStep::Reject(AuthError::MissingOrAmbiguousCredential);
    }
    let raw: &str = headers[0].as_str();
    if raw.unicode_len() > 1 {
        let parsed = match parse_expiry(raw) {
            Ok(exp) => Some(exp),
            Err(_) => None,
        };
        if let Some(e) = check_expiry(parsed, now) {
            return GuardStep::Reject(e);
        }
    }
    GuardStep::LookUp(headers[0].clone())
}

/// Reads the clock and screens the request's credential headers at that
/// time. Returns the time read together with the step.
pub fn begin_authentication_now(headers: &Vec<String>) -> (r: (u64, GuardStep))
    ensures
        r.1@ == screening(header_values(headers@), r.0),
{
    let now: u64 = current_time();
    (now, begin_authentication(headers, now))
}

/// Ends an attempt whose token was looked up: the owner found is
/// authenticated, and no owner means an unknown token.
pub fn complete_authentication(found: Option<DiaryOwner>) -> (r: AuthOutcome)
    ensures
        r == lookup_outcome(found),
{
    match found {
        Some(owner) => AuthOutcome::Authenticated(owner),
        None => AuthOutcome::Rejected(AuthError::UnknownToken),
    }
}

/// A request with no credential header, or with two or more, is refused as
/// missing or ambiguous, whatever the headers hold and whatever the time.
pub proof fn lemma_header_count_rejected(
    headers: Seq<Seq<char>>,
    now: u64,
    lookup: spec_fn(Seq<char>) -> Option<DiaryOwner>,
)
    requires
        headers.len() != 1,
    ensures
        screening(headers, now) == Err::<Seq<char>, AuthError>(
            AuthError::MissingOrAmbiguousCredential,
        ),
        authentication(headers, now, lookup) == AuthOutcome::Rejected(
            AuthError::MissingOrAmbiguousCredential,
        ),
{
}

/// A token of at most one character goes straight to the lookup, whatever the
/// time: the outcome is what the lookup makes of it.
pub proof fn lemma_short_token_skips_expiry(
    token: Seq<char>,
    now: u64,
    lookup: spec_fn(Seq<char>) -> Option<DiaryOwner>,
)
    requires
        token.len() <= 1,
    ensures
        screening(seq![token], now) == Ok::<Seq<char>, AuthError>(token),
        authentication(seq![token], now, lookup) == lookup_outcome(lookup(token)),
{
}

/// A token longer than one character that does not parse is refused as
/// malformed.
pub proof fn lemma_malformed_token_rejected(
    token: Seq<char>,
    now: u64,
    lookup: spec_fn(Seq<char>) -> Option<DiaryOwner>,
)
    requires
        token.len() > 1,
        token_expiry(token) is None,
    ensures
        authentication(seq![token], now, lookup) == AuthOutcome::Rejected(
            AuthError::MalformedToken,
        ),
{
}

/// A parsed token longer than one character whose expiry lies before the
/// current time is refused as expired, whichever owner the lookup would give.
pub proof fn lemma_expired_token_rejected(
    token: Seq<char>,
    exp: u64,
    now: u64,
    lookup: spec_fn(Seq<char>) -> Option<DiaryOwner>,
)
    requires
        token.len() > 1,
        token_expiry(token) == Some(Some(exp)),
        exp < now,
    ensures
        authentication(seq![token], now, lookup) == AuthOutcome::Rejected(AuthError::Expired),
{
}

/// A parsed token that has not expired and that no owner holds is refused as
/// unknown.
pub proof fn lemma_unknown_token_rejected(
    token: Seq<char>,
    exp: u64,
    now: u64,
    lookup: spec_fn(Seq<char>) -> Option<DiaryOwner>,
)
    requires
        token_expiry(token) == Some(Some(exp)),
        exp >= now,
        lookup(token) is None,
    ensures
        authentication(seq![token], now, lookup) == AuthOutcome::Rejected(
            AuthError::UnknownToken,
        ),
{
}

/// A parsed token that has not expired and that an owner holds authenticates
/// exactly that owner, with the identifier the lookup resolved.
pub proof fn lemma_known_token_authenticated(
    token: Seq<char>,
    exp: u64,
    now: u64,
    lookup: spec_fn(Seq<char>) -> Option<DiaryOwner>,
    owner: DiaryOwner,
)
    requires
        token_expiry(token) == Some(Some(exp)),
        exp >= now,
        lookup(token) == Some(owner),
    ensures
        authentication(seq![token], now, lookup) == AuthOutcome::Authenticated(owner),
        authentication(seq![token], now, lookup) matches AuthOutcome::Authenticated(o) && o.id
            == owner.id,
{
}

/// Screening a request twice, with headers of the same values at the same
/// time, gives the same step: nothing of the token or the owners is changed
/// by an attempt.
pub proof fn lemma_screening_repeatable(a: Vec<String>, b: Vec<String>, now: u64)
    requires
        header_values(a@) == header_values(b@),
    ensures
        screening(header_values(a@), now) == screening(header_values(b@), now),
{
}

} // verus!
