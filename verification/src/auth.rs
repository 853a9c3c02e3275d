//! Credentials: what a bearer header must look like, what a token's claims
//! say about its user, and the decisions of registration and login.
//!
//! Reading the clock, signing tokens and querying users happen elsewhere;
//! the functions here take what those steps returned.

use crate::text::{same_text, strip_prefix};
use vstd::arithmetic::power::pow;
use vstd::prelude::*;

verus! {

/// How long an issued token is valid, in days.
pub const TOKEN_LIFETIME_DAYS: i64 = 7;

/// How long an issued token is valid, in seconds: seven days.
pub const TOKEN_LIFETIME_SECS: i64 = 604800;

/// The last second of the year 9999, counted from the Unix epoch.
pub const LAST_SECOND_OF_9999: i64 = 253402300799;

/// The claims a token carries: its subject, a user identifier in text
/// form, and the second at which it expires.
#[derive(Debug, Clone, PartialEq, Eq)]
pub struct Claims {
    pub sub: String,
    pub exp: i64,
}

/// The user on whose behalf a request runs.
#[derive(Debug, Clone, Copy, PartialEq, Eq, Structural)]
pub struct CurrentUser {
    pub user_id: u128,
}

/// The broad class of a failure, which decides how it is reported.
#[derive(Debug, Clone, Copy, PartialEq, Eq, Structural)]
pub enum ErrorClass {
    Unauthorized,
    BadRequest,
    Internal,
}

/// Why a credential step failed.
#[derive(Debug, Clone, PartialEq, Eq)]
pub enum AuthError {
    /// The request carries no authorization header.
    MissingHeader,
    /// The header does not begin with `Bearer `.
    InvalidFormat,
    /// The token did not verify.
    InvalidToken,
    /// The token's subject is no user identifier.
    InvalidSubject,
    /// The e-mail address is registered already.
    EmailTaken,
    /// The user name is registered already.
    UsernameTaken,
    /// No user has this e-mail address.
    UserNotFound,
    /// The password does not match.
    InvalidCredentials,
    /// The password could not be hashed or checked.
    Hashing(String),
    /// The expiry of a token could not be calculated.
    Expiration,
}

impl AuthError {
    /// The class each failure is reported under.
    pub open spec fn spec_class(&self) -> ErrorClass {
        match self {
            AuthError::MissingHeader => ErrorClass::Unauthorized,
            AuthError::InvalidFormat => ErrorClass::Unauthorized,
            AuthError::InvalidToken => ErrorClass::Unauthorized,
            AuthError::UserNotFound => ErrorClass::Unauthorized,
            AuthError::EmailTaken => ErrorClass::BadRequest,
            AuthError::UsernameTaken => ErrorClass::BadRequest,
            AuthError::InvalidCredentials => ErrorClass::BadRequest,
            AuthError::InvalidSubject => ErrorClass::Internal,
            AuthError::Hashing(_) => ErrorClass::Internal,
            AuthError::Expiration => ErrorClass::Internal,
        }
    }

    /// The class this failure is reported under.
    #[verifier::when_used_as_spec(spec_class)]
    pub fn class(&self) -> (class: ErrorClass)
        ensures
            class == self.spec_class(),
    {
        match self {
            AuthError::MissingHeader => ErrorClass::Unauthorized,
            AuthError::InvalidFormat => ErrorClass::Unauthorized,
            AuthError::InvalidToken => ErrorClass::Unauthorized,
            AuthError::UserNotFound => ErrorClass::Unauthorized,
            AuthError::EmailTaken => ErrorClass::BadRequest,
            AuthError::UsernameTaken => ErrorClass::BadRequest,
            AuthError::InvalidCredentials => ErrorClass::BadRequest,
            AuthError::InvalidSubject => ErrorClass::Internal,
            AuthError::Hashing(_) => ErrorClass::Internal,
            AuthError::Expiration => ErrorClass::Internal,
        }
    }
}

/// The identifier that `uuid::Uuid::parse_str` reads from a text, as a
/// 128-bit number, or `None` where it reads none.
pub uninterp spec fn uuid_parse(text: Seq<char>) -> Option<u128>;

/// Which of the 32 hexadecimal digits of an identifier stands at `place`
/// of its text, counted from the most significant one. The places 8, 13,
/// 18 and 23 hold hyphens.
pub open spec fn digit_at(place: int) -> int {
    if place > 23 {
        place - 4
    } else if place > 18 {
        place - 3
    } else if place > 13 {
        place - 2
    } else if place > 8 {
        place - 1
    } else {
        place
    }
}

/// The text an identifier is displayed as: its 32 hexadecimal digits in
/// lower case, most significant first, in groups of 8, 4, 4, 4 and 12 with
/// a hyphen between two groups.
pub open spec fn uuid_text(id: u128) -> Seq<char> {
    Seq::new(
        36,
        |place: int|
            if place == 8 || place == 13 || place == 18 || place == 23 {
                '-'
            } else {
                "0123456789abcdef"@[(id as int / pow(16, (31 - digit_at(place)) as nat)) % 16]
            },
    )
}

/// What `bcrypt::verify` returns for a password and a hash: whether they
/// match, or the text of its error.
pub uninterp spec fn bcrypt_verify(password: Seq<char>, hash: Seq<char>) -> Result<bool, Seq<char>>;

/// The outcome of a password check with its error, if any, as plain text.
pub open spec fn as_text(checked: Result<bool, String>) -> Result<bool, Seq<char>> {
    match checked {
        Ok(same) => Ok(same),
        Err(text) => Err(text@),
    }
}

/// `uuid::Uuid::parse_str`, with the identifier taken as a number by
/// `Uuid::as_u128`. The result depends on the text alone.
#[verifier::external_body]
fn parse_uuid(text: &str) -> (id: Option<u128>)
    ensures
        id == uuid_parse(text@),
{
    match uuid::Uuid::parse_str(text) {
        Ok(id) => Some(id.as_u128()),
        Err(_) => None,
    }
}

/// The display form of `uuid::Uuid::from_u128(id)`: the hyphenated
/// lower-case form of the identifier's 16 bytes, most significant first,
/// which `parse_str` reads back as the same identifier.
#[verifier::external_body]
fn format_uuid(id: u128) -> (text: String)
    ensures
        text@ == uuid_text(id),
        uuid_parse(text@) == Some(id),
{
    uuid::Uuid::from_u128(id).to_string()
}

/// `bcrypt::verify`. The result depends on the password and the hash
/// alone; an error is returned as its text.
#[verifier::external_body]
fn verify_password(password: &str, hash: &str) -> (checked: Result<bool, String>)
    ensures
        as_text(checked) == bcrypt_verify(password@, hash@),
{
    match bcrypt::verify(password, hash) {
        Ok(b) => Ok(b),
        Err(e) => Err(e.to_string()),
    }
}

/// `bcrypt::hash` at `bcrypt::DEFAULT_COST`. The salt is random, so the
/// hash differs from call to call; every hash it returns is one that
/// `bcrypt::verify` accepts for the same password.
#[verifier::external_body]
fn hash_password(password: &str) -> (hashed: Result<String, String>)
    ensures
        hashed matches Ok(h) ==> bcrypt_verify(password@, h@) == as_text(Ok(true)),
{
    match bcrypt::hash(password, bcrypt::DEFAULT_COST) {
        Ok(h) => Ok(h),
        Err(e) => Err(e.to_string()),
    }
}

/// The second that lies `days` days after `now`, by chrono's
/// `DateTime::from_timestamp`, `TimeDelta::try_days`,
/// `checked_add_signed` and `timestamp`. Where chrono can represent both
/// instants the result is `now` plus 86400 for each day; where it cannot,
/// there is none. Chrono's dates reach far beyond the year 9999 in both
/// directions, so every second from the epoch to the end of that year has
/// a result for up to a hundred years.
#[verifier::external_body]
fn days_after(now: i64, days: i64) -> (later: Option<i64>)
    ensures
        later matches Some(t) ==> t == now + days * 86400,
        0 <= now <= LAST_SECOND_OF_9999 && 0 <= days <= 36500 ==> later is Some,
{
    let start = chrono::DateTime::from_timestamp(now, 0)?;
    let span = chrono::TimeDelta::try_days(days)?;
    let end = start.checked_add_signed(span)?;
    Some(end.timestamp())
}

/// The header value as plain text.
pub open spec fn header_text(header: Option<&str>) -> Option<Seq<char>> {
    match header {
        Some(value) => Some(value@),
        None => None,
    }
}

/// The token, or the failure, as plain text.
pub open spec fn token_text(token: Result<&str, AuthError>) -> Result<Seq<char>, AuthError> {
    match token {
        Ok(text) => Ok(text@),
        Err(error) => Err(error),
    }
}

/// The user the store found, as plain text.
pub open spec fn found_text(found: Option<(&str, &str)>) -> Option<(Seq<char>, Seq<char>)> {
    match found {
        Some((email, username)) => Some((email@, username@)),
        None => None,
    }
}

/// The token of an authorization header: what follows `Bearer `. A
/// request without the header, or with a header of another form, is
/// turned away.
pub open spec fn bearer(header: Option<Seq<char>>) -> Result<Seq<char>, AuthError> {
    match header {
        None => Err(AuthError::MissingHeader),
        Some(value) => if "Bearer "@.is_prefix_of(value) {
            Ok(value.skip(7))
        } else {
            Err(AuthError::InvalidFormat)
        },
    }
}

/// The user a token's claims speak of.
pub open spec fn subject(claims: Claims) -> Result<u128, AuthError> {
    match uuid_parse(claims.sub@) {
        Some(id) => Ok(id),
        None => Err(AuthError::InvalidSubject),
    }
}

/// The user of a request whose token carries `claims`.
pub open spec fn requester(claims: Claims) -> Result<CurrentUser, AuthError> {
    match subject(claims) {
        Ok(user_id) => Ok(CurrentUser { user_id }),
        Err(error) => Err(error),
    }
}

/// The user of a request, given the claims that verifying its token
/// brought: a token that did not verify names nobody.
pub open spec fn authenticated(verified: Option<Claims>) -> Result<CurrentUser, AuthError> {
    match verified {
        Some(claims) => requester(claims),
        None => Err(AuthError::InvalidToken),
    }
}

/// The user a login is for, given what the store found under the e-mail
/// address.
pub open spec fn known<U>(found: Option<U>) -> Result<U, AuthError> {
    match found {
        Some(user) => Ok(user),
        None => Err(AuthError::UserNotFound),
    }
}

/// Whether `claims` are those of a token for `user_id` that expires at
/// the second `exp`: the subject is the display form of the identifier,
/// and reads back as the identifier.
pub open spec fn names(claims: Claims, user_id: u128, exp: int) -> bool {
    &&& claims.exp == exp
    &&& claims.sub@ == uuid_text(user_id)
    &&& subject(claims) is Ok
    &&& subject(claims)->Ok_0 == user_id
}

/// Whether a registration collides with the user found under the same
/// e-mail address or user name, if one was found. The e-mail address is
/// looked at first.
pub open spec fn registration(
    found: Option<(Seq<char>, Seq<char>)>,
    email: Seq<char>,
    username: Seq<char>,
) -> Result<(), AuthError> {
    match found {
        Some((found_email, found_username)) => if found_email == email {
            Err(AuthError::EmailTaken)
        } else if found_username == username {
            Err(AuthError::UsernameTaken)
        } else {
            Ok(())
        },
        None => Ok(()),
    }
}

/// Whether `hash` is a hash that `password` checks against.
pub open spec fn checks_against(password: Seq<char>, hash: Seq<char>) -> bool {
    bcrypt_verify(password, hash) == as_text(Ok(true))
}

/// The verdict of a login on a password, given what the check returned:
/// a match lets the login pass, a mismatch is the user's fault, and a
/// check that failed is passed on with its text.
pub open spec fn password_verdict(checked: Result<bool, String>) -> Result<(), AuthError> {
    match checked {
        Ok(true) => Ok(()),
        Ok(false) => Err(AuthError::InvalidCredentials),
        Err(text) => Err(AuthError::Hashing(text)),
    }
}

/// Whether `verdict` is what a login makes of the check `checked`, with
/// the text of a failed check compared as plain text.
pub open spec fn login_verdict(checked: Result<bool, Seq<char>>, verdict: Result<(), AuthError>) -> bool {
    match checked {
        Ok(true) => verdict is Ok,
        Ok(false) => verdict == Err::<(), AuthError>(AuthError::InvalidCredentials),
        Err(text) => verdict matches Err(AuthError::Hashing(t)) && t@ == text,
    }
}

/// Extracts the bearer token from the value of the authorization header.
pub fn bearer_token<'a>(header: Option<&'a str>) -> (token: Result<&'a str, AuthError>)
    ensures
        token_text(token) == bearer(header_text(header)),
{
    proof {
        reveal_strlit("Bearer ");
    }
    match header {
        None => Err(AuthError::MissingHeader),
        Some(value) => match strip_prefix(value, "Bearer ") {
            Some(token) => {
                proof {
                    let prefix = "Bearer "@;
                    assert(prefix.len() == 7);
                    assert((prefix + token@).skip(7) =~= token@);
                    assert(value@.subrange(0, 7) =~= prefix);
                }
                Ok(token)
            },
            None => Err(AuthError::InvalidFormat),
        },
    }
}

/// Names the user of a request from what verifying its token brought:
/// the claims, or nothing where the token did not verify.
pub fn authenticate(verified: Option<Claims>) -> (user: Result<CurrentUser, AuthError>)
    ensures
        user == authenticated(verified),
{
    match verified {
        Some(claims) => claims.current_user(),
        None => Err(AuthError::InvalidToken),
    }
}

/// Lets a login go on only for a user that the store found.
pub fn require_user<U>(found: Option<U>) -> (user: Result<U, AuthError>)
    ensures
        user == known(found),
{
    match found {
        Some(user) => Ok(user),
        None => Err(AuthError::UserNotFound),
    }
}

/// Decides whether a registration may go on, given the user that the
/// store found under the same e-mail address or user name.
pub fn check_registration(found: Option<(&str, &str)>, email: &str, username: &str) -> (verdict:
    Result<(), AuthError>)
    ensures
        verdict == registration(found_text(found), email@, username@),
{
    match found {
        Some((found_email, found_username)) => {
            if same_text(found_email, email) {
                Err(AuthError::EmailTaken)
            } else if same_text(found_username, username) {
                Err(AuthError::UsernameTaken)
            } else {
                Ok(())
            }
        },
        None => Ok(()),
    }
}

/// Turns the outcome of a password check into the verdict of a login.
pub fn judge_password(checked: Result<bool, String>) -> (verdict: Result<(), AuthError>)
    ensures
        verdict == password_verdict(checked),
{
    match checked {
        Ok(same) => if same {
            Ok(())
        } else {
            Err(AuthError::InvalidCredentials)
        },
        Err(text) => Err(AuthError::Hashing(text)),
    }
}

/// Checks a password against the hash stored for a user. The login
/// passes exactly when the password checks against the hash.
pub fn check_password(password: &str, stored_hash: &str) -> (verdict: Result<(), AuthError>)
    ensures
        login_verdict(bcrypt_verify(password@, stored_hash@), verdict),
        verdict is Ok <==> checks_against(password@, stored_hash@),
{
    judge_password(verify_password(password, stored_hash))
}

/// Hashes the password of a new user. A hash that comes back is one the
/// same password checks against; a failure is a failure of hashing.
pub fn hash_new_password(password: &str) -> (hashed: Result<String, AuthError>)
    ensures
        hashed matches Ok(h) ==> checks_against(password@, h@),
        hashed matches Err(e) ==> e is Hashing,
{
    match hash_password(password) {
        Ok(hash) => Ok(hash),
        Err(text) => Err(AuthError::Hashing(text)),
    }
}

impl Claims {
    /// The claims of a token for `user_id` whose validity ends at
    /// `expiry`. Without an expiry no claims are made.
    pub fn expiring(user_id: u128, expiry: Option<i64>) -> (claims: Result<Claims, AuthError>)
        ensures
            expiry matches Some(exp) ==> claims is Ok && names(claims->Ok_0, user_id, exp as int),
            expiry is None ==> claims == Err::<Claims, AuthError>(AuthError::Expiration),
    {
        match expiry {
            Some(exp) => Ok(Claims { sub: format_uuid(user_id), exp }),
            None => Err(AuthError::Expiration),
        }
    }

    /// The claims of a token issued to `user_id` at the second `now`. The
    /// token names the user as its subject and expires seven days later.
    /// Every second from the epoch to the end of the year 9999 is one at
    /// which a token can be issued.
    pub fn issue(user_id: u128, now: i64) -> (claims: Result<Claims, AuthError>)
        ensures
            0 <= now <= LAST_SECOND_OF_9999 ==> claims is Ok,
            claims matches Ok(c) ==> names(c, user_id, now + TOKEN_LIFETIME_SECS),
            claims matches Err(e) ==> e == AuthError::Expiration,
    {
        Claims::expiring(user_id, days_after(now, TOKEN_LIFETIME_DAYS))
    }

    /// The user these claims speak of.
    pub fn user_id(&self) -> (user: Result<u128, AuthError>)
        ensures
            user == subject(*self),
    {
        match parse_uuid(self.sub.as_str()) {
            Some(id) => Ok(id),
            None => Err(AuthError::InvalidSubject),
        }
    }

    /// The user a request runs for, once its token's claims are known.
    pub fn current_user(&self) -> (user: Result<CurrentUser, AuthError>)
        ensures
            user == requester(*self),
    {
        match self.user_id() {
            Ok(user_id) => Ok(CurrentUser { user_id }),
            Err(e) => Err(e),
        }
    }
}

/// Every failure to present a usable token is one of the unauthorized
/// class, and none of them a fault of the server.
pub proof fn law_header_failures_are_unauthorized(header: Option<Seq<char>>)
    ensures
        bearer(header) matches Err(e) ==> e.spec_class() == ErrorClass::Unauthorized,
{
}

/// A registration is turned away exactly when the user that was found
/// shares the e-mail address or the user name, and the e-mail address is
/// named first where both are shared.
pub proof fn law_registration_conflicts(
    found: Option<(Seq<char>, Seq<char>)>,
    email: Seq<char>,
    username: Seq<char>,
)
    ensures
        registration(found, email, username) is Err <==> (found matches Some((e, u)) && (e == email
            || u == username)),
        (found matches Some((e, u)) && e == email) ==> registration(found, email, username)
            == Err::<(), AuthError>(AuthError::EmailTaken),
{
}

} // verus!
