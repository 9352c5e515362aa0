//! Authentication: the errors and codes of the auth API, the claims of the
//! tokens the service issues, how an issued token is read back and checked
//! for expiry, the password checks of login and password change, and how
//! failed queries map onto auth errors.
use vstd::prelude::*;
use vstd::string::*;

use crate::credentials::{
    email_valid, is_valid_email, argon2_matches, argon2_phc, claims_map, decode_utf8, hash_password, hs256_claims, hs256_token,
    password_matches, sign_claims, utf8_text, verify_claims, ClaimSeq,
};
use crate::database::{StoreError, StoreErrorKind};
use crate::email::EmailParams;
use crate::text::{i64_to_string, int_to_decimal, parse_i32, parse_i32_spec, parse_i64, parse_i64_spec, str_eq};
use crate::time::{before, now, Timestamp, MAX_TIMESTAMP, MIN_TIMESTAMP};

verus! {

/// Failure of an authentication operation, with the message shown to the
/// client.
#[derive(Debug)]
pub enum AuthError {
    AuthenticationFailed(String),
    TokenInvalid(String),
    TokenExpired(String),
    EmailAlreadyExists(String),
    EmailAlreadyConfirmed(String),
    RoleNotFound(String),
    UserNotFound(String),
    UserNotVerified(String),
    InternalServerError,
}

/// Message of every internal failure.
pub open spec fn internal_message() -> Seq<char> {
    "Internal Server Error"@
}

impl AuthError {
    /// The message of the error.
    pub open spec fn message(&self) -> Seq<char> {
        match self {
            AuthError::AuthenticationFailed(m) => m@,
            AuthError::TokenInvalid(m) => m@,
            AuthError::TokenExpired(m) => m@,
            AuthError::EmailAlreadyExists(m) => m@,
            AuthError::EmailAlreadyConfirmed(m) => m@,
            AuthError::RoleNotFound(m) => m@,
            AuthError::UserNotFound(m) => m@,
            AuthError::UserNotVerified(m) => m@,
            AuthError::InternalServerError => internal_message(),
        }
    }

    /// The message of the error.
    pub fn to_string(&self) -> (r: String)
        ensures
            r@ == self.message(),
    {
        match self {
            AuthError::AuthenticationFailed(m) => m.clone(),
            AuthError::TokenInvalid(m) => m.clone(),
            AuthError::TokenExpired(m) => m.clone(),
            AuthError::EmailAlreadyExists(m) => m.clone(),
            AuthError::EmailAlreadyConfirmed(m) => m.clone(),
            AuthError::RoleNotFound(m) => m.clone(),
            AuthError::UserNotFound(m) => m.clone(),
            AuthError::UserNotVerified(m) => m.clone(),
            AuthError::InternalServerError => String::from_str("Internal Server Error"),
        }
    }
}

/// Error codes of the auth API.
#[derive(Debug, Clone, Copy, PartialEq, Eq, Structural)]
pub enum AuthErrorCode {
    AuthenticationFailed,
    TokenInvalid,
    TokenExpired,
    EmailAlreadyExists,
    EmailAlreadyConfirmed,
    RoleNotFound,
    UserNotFound,
    UserNotVerified,
    UserInvalidOldPassword,
    ForbiddenPermission,
    InternalServerError,
}

impl AuthErrorCode {
    /// The code as the API writes it.
    pub open spec fn text(self) -> Seq<char> {
        match self {
            AuthErrorCode::AuthenticationFailed => "AUTHENTICATION_FAILED"@,
            AuthErrorCode::TokenInvalid => "TOKEN_INVALID"@,
            AuthErrorCode::TokenExpired => "TOKEN_EXPIRED"@,
            AuthErrorCode::EmailAlreadyExists => "EMAIL_ALREADY_EXISTS"@,
            AuthErrorCode::EmailAlreadyConfirmed => "EMAIL_ALREADY_CONFIRMED"@,
            AuthErrorCode::RoleNotFound => "ROLE_NOT_FOUND"@,
            AuthErrorCode::UserNotFound => "USER_NOT_FOUND"@,
            AuthErrorCode::UserNotVerified => "USER_NOT_VERIFIED"@,
            AuthErrorCode::UserInvalidOldPassword => "USER_INVALID_OLD_PASSWORD"@,
            AuthErrorCode::ForbiddenPermission => "FORBIDDEN_PERMISSION"@,
            AuthErrorCode::InternalServerError => "INTERNAL_SERVER_ERROR"@,
        }
    }

    /// The code as the API writes it.
    pub fn to_string(&self) -> (r: String)
        ensures
            r@ == self.text(),
    {
        match self {
            AuthErrorCode::AuthenticationFailed => String::from_str("AUTHENTICATION_FAILED"),
            AuthErrorCode::TokenInvalid => String::from_str("TOKEN_INVALID"),
            AuthErrorCode::TokenExpired => String::from_str("TOKEN_EXPIRED"),
            AuthErrorCode::EmailAlreadyExists => String::from_str("EMAIL_ALREADY_EXISTS"),
            AuthErrorCode::EmailAlreadyConfirmed => String::from_str("EMAIL_ALREADY_CONFIRMED"),
            AuthErrorCode::RoleNotFound => String::from_str("ROLE_NOT_FOUND"),
            AuthErrorCode::UserNotFound => String::from_str("USER_NOT_FOUND"),
            AuthErrorCode::UserNotVerified => String::from_str("USER_NOT_VERIFIED"),
            AuthErrorCode::UserInvalidOldPassword => String::from_str("USER_INVALID_OLD_PASSWORD"),
            AuthErrorCode::ForbiddenPermission => String::from_str("FORBIDDEN_PERMISSION"),
            AuthErrorCode::InternalServerError => String::from_str("INTERNAL_SERVER_ERROR"),
        }
    }
}

/// Failure to change a password.
#[derive(Debug, Clone, Copy)]
pub enum ChangePasswordError {
    UserNotFound(&'static str),
    UserInvalidOldPassword(&'static str),
    InternalServerError,
}

impl ChangePasswordError {
    /// The message of the error.
    pub open spec fn message(&self) -> Seq<char> {
        match self {
            ChangePasswordError::UserNotFound(m) => m@,
            ChangePasswordError::UserInvalidOldPassword(m) => m@,
            ChangePasswordError::InternalServerError => internal_message(),
        }
    }

    /// The message of the error.
    pub fn to_string(&self) -> (r: String)
        ensures
            r@ == self.message(),
    {
        match self {
            ChangePasswordError::UserNotFound(m) => String::from_str(m),
            ChangePasswordError::UserInvalidOldPassword(m) => String::from_str(m),
            ChangePasswordError::InternalServerError => String::from_str("Internal Server Error"),
        }
    }
}

/// Failure to create the default user.
#[derive(Debug, Clone, Copy)]
pub enum SeedDefaultUserError {
    EmailAlreadyExists(&'static str),
    InternalServerError,
}

impl SeedDefaultUserError {
    /// The message of the error.
    pub open spec fn message(&self) -> Seq<char> {
        match self {
            SeedDefaultUserError::EmailAlreadyExists(m) => m@,
            SeedDefaultUserError::InternalServerError => internal_message(),
        }
    }

    /// The message of the error.
    pub fn to_string(&self) -> (r: String)
        ensures
            r@ == self.message(),
    {
        match self {
            SeedDefaultUserError::EmailAlreadyExists(m) => String::from_str(m),
            SeedDefaultUserError::InternalServerError => String::from_str("Internal Server Error"),
        }
    }
}

/// Failure of the authentication a request carries.
#[derive(Debug, Clone, Copy)]
pub enum AuthenticateError {
    AuthenticationFailed(&'static str),
    ForbiddenPermission(&'static str),
    InternalServerError,
}

impl AuthenticateError {
    /// The message of the error.
    pub open spec fn message(&self) -> Seq<char> {
        match self {
            AuthenticateError::AuthenticationFailed(m) => m@,
            AuthenticateError::ForbiddenPermission(m) => m@,
            AuthenticateError::InternalServerError => internal_message(),
        }
    }

    /// The message of the error.
    pub fn to_string(&self) -> (r: String)
        ensures
            r@ == self.message(),
    {
        match self {
            AuthenticateError::AuthenticationFailed(m) => String::from_str(m),
            AuthenticateError::ForbiddenPermission(m) => String::from_str(m),
            AuthenticateError::InternalServerError => String::from_str("Internal Server Error"),
        }
    }
}

/// A user's status as shown: its label and its stored value.
#[derive(Debug)]
pub struct UserStatusObject {
    pub label: String,
    pub value: String,
}

/// A permission of a role.
#[derive(Debug)]
pub struct PermissionAuthEntity {
    pub id: i32,
    pub name: String,
}

/// A role with its permissions.
#[derive(Debug)]
pub struct RoleAuthEntity {
    pub id: i32,
    pub name: String,
    pub permissions: Vec<PermissionAuthEntity>,
}

/// A fresh pair of tokens.
#[derive(Debug)]
pub struct RefreshTokenResult {
    pub access_token: String,
    pub refresh_token: String,
}

/// What a registration is made from.
#[derive(Debug)]
pub struct RegisterParams {
    pub name: String,
    pub email: String,
    pub password: String,
    pub reason: Option<String>,
    pub role_id: i32,
}

/// What a login is made from.
#[derive(Debug)]
pub struct LoginParams {
    pub email: String,
    pub password: String,
}

/// The body of a registration request.
#[derive(Debug)]
pub struct RegisterBody {
    pub name: String,
    pub email: String,
    pub password: String,
    pub reason: Option<String>,
    pub role: String,
    pub building_id: i32,
}

/// The query string that carries an e-mail confirmation token.
#[derive(Debug)]
pub struct VerifyEmailConfirmationTokenQueryParams {
    pub token: String,
}

/// The body of an e-mail confirmation.
#[derive(Debug)]
pub struct ConfirmEmailBody {
    pub token: String,
}

/// The body of a login request.
#[derive(Debug)]
pub struct LoginBody {
    pub email: String,
    pub password: String,
}

/// The body of a password change.
#[derive(Debug)]
pub struct ChangePasswordBody {
    pub old_password: String,
    pub new_password: String,
}

/// A permission as the API shows it.
#[derive(Debug)]
pub struct PermissionObject {
    pub label: &'static str,
    pub value: &'static str,
}

/// A role as the API shows it.
#[derive(Debug)]
pub struct RoleObject {
    pub name: &'static str,
    pub description: &'static str,
    pub permissions: Vec<PermissionObject>,
}

/// The user a login answers with.
#[derive(Debug)]
pub struct LoginResponse {
    pub id: i32,
    pub name: String,
    pub email: String,
    pub profile_picture: Option<String>,
    pub is_email_confirmed: bool,
    pub user_status: UserStatusObject,
    pub role: RoleAuthEntity,
}

/// The stored user that a login or password change reads: its id and
/// e-mail, the stored PHC string of its password (as bytes), whether its
/// e-mail is confirmed and whether an administrator rejected it.
#[derive(Debug)]
pub struct UserRecord {
    pub id: i32,
    pub email: String,
    pub password: Vec<u8>,
    pub is_email_confirmed: bool,
    pub is_rejected: bool,
}

// ---------------------------------------------------------------------------
// Token claims

/// A claim: its name and value.
pub open spec fn claim(name: Seq<char>, value: Seq<char>) -> (Seq<char>, Seq<char>) {
    (name, value)
}

/// The claims of an access token: the user, its role and status, when it
/// was issued and when it expires (seconds since the epoch, in decimal).
pub open spec fn access_claims(user_id: int, role_id: int, status: Seq<char>, issued: int, expires: int) -> ClaimSeq {
    seq![
        claim("user_id"@, int_to_decimal(user_id)),
        claim("role_id"@, int_to_decimal(role_id)),
        claim("status"@, status),
        claim("iat"@, int_to_decimal(issued)),
        claim("exp"@, int_to_decimal(expires)),
    ]
}

/// The claims of a refresh token or an e-mail confirmation token: the user,
/// when it was issued and when it expires.
pub open spec fn user_claims(user_id: int, issued: int, expires: int) -> ClaimSeq {
    seq![
        claim("user_id"@, int_to_decimal(user_id)),
        claim("iat"@, int_to_decimal(issued)),
        claim("exp"@, int_to_decimal(expires)),
    ]
}

fn named(name: &str, value: String) -> (r: (String, String))
    ensures
        r.0@ == name@,
        r.1@ == value@,
{
    (String::from_str(name), value)
}

/// The claims of an access token issued at `issued` for `expires_in`
/// seconds.
pub fn access_token_claims(user_id: i32, role_id: i32, status: &str, issued: i64, expires_in: i64) -> (r: Vec<(String, String)>)
    requires
        i64::MIN <= issued + expires_in <= i64::MAX,
    ensures
        r.deep_view() == access_claims(user_id as int, role_id as int, status@, issued as int, issued + expires_in),
{
    let mut v: Vec<(String, String)> = Vec::new();
    v.push(named("user_id", i64_to_string(user_id as i64)));
    v.push(named("role_id", i64_to_string(role_id as i64)));
    v.push(named("status", String::from_str(status)));
    v.push(named("iat", i64_to_string(issued)));
    v.push(named("exp", i64_to_string(issued + expires_in)));
    proof {
        reveal_strlit("user_id");
        reveal_strlit("role_id");
        reveal_strlit("status");
        reveal_strlit("iat");
        reveal_strlit("exp");
        assert(v.deep_view() =~= access_claims(user_id as int, role_id as int, status@, issued as int, issued + expires_in));
    }
    v
}

/// The claims of a refresh or e-mail confirmation token issued at `issued`
/// for `expires_in` seconds.
pub fn user_token_claims(user_id: i32, issued: i64, expires_in: i64) -> (r: Vec<(String, String)>)
    requires
        i64::MIN <= issued + expires_in <= i64::MAX,
    ensures
        r.deep_view() == user_claims(user_id as int, issued as int, issued + expires_in),
{
    let mut v: Vec<(String, String)> = Vec::new();
    v.push(named("user_id", i64_to_string(user_id as i64)));
    v.push(named("iat", i64_to_string(issued)));
    v.push(named("exp", i64_to_string(issued + expires_in)));
    proof {
        reveal_strlit("user_id");
        reveal_strlit("iat");
        reveal_strlit("exp");
        assert(v.deep_view() =~= user_claims(user_id as int, issued as int, issued + expires_in));
    }
    v
}

/// The largest token lifetime, in seconds, that chrono's
/// `Duration::seconds` accepts.
pub const MAX_TOKEN_LIFETIME: i64 = 9_223_372_036_854_775i64;

/// The expiry of a token issued now: `None` where it would fall outside the
/// instants chrono can hold.
fn expiry(issued: i64, expires_in: i64) -> (r: Option<i64>)
    requires
        0 <= issued <= MAX_TIMESTAMP,
        -MAX_TOKEN_LIFETIME <= expires_in <= MAX_TOKEN_LIFETIME,
    ensures
        match r {
            Some(e) => e == issued + expires_in && MIN_TIMESTAMP <= e <= MAX_TIMESTAMP,
            None => !(MIN_TIMESTAMP <= issued + expires_in <= MAX_TIMESTAMP),
        },
{
    let e = issued + expires_in;
    if MIN_TIMESTAMP <= e && e <= MAX_TIMESTAMP {
        Some(e)
    } else {
        None
    }
}

/// Signs claims into a token; a signing failure is internal.
pub fn sign_token(secret: &str, claims: &Vec<(String, String)>) -> (r: Result<String, AuthError>)
    ensures
        match hs256_token(secret@, claims.deep_view()) {
            Some(t) => r matches Ok(s) && s@ == t,
            None => r matches Err(e) && e is InternalServerError,
        },
{
    match sign_claims(secret, claims) {
        Some(t) => Ok(t),
        None => Err(AuthError::InternalServerError),
    }
}

/// The access token that issuing at the instant `issued` (whole seconds)
/// gives: none where the expiry falls outside the instants chrono can hold
/// or where signing fails.
pub open spec fn access_token_at(secret: Seq<char>, user_id: int, role_id: int, status: Seq<char>, issued: int, expires_in: int) -> Option<Seq<char>> {
    if MIN_TIMESTAMP <= issued + expires_in <= MAX_TIMESTAMP {
        hs256_token(secret, access_claims(user_id, role_id, status, issued, issued + expires_in))
    } else {
        None
    }
}

/// The refresh or confirmation token that issuing at the instant `issued`
/// gives: none where the expiry falls outside the instants chrono can hold
/// or where signing fails.
pub open spec fn user_token_at(secret: Seq<char>, user_id: int, issued: int, expires_in: int) -> Option<Seq<char>> {
    if MIN_TIMESTAMP <= issued + expires_in <= MAX_TIMESTAMP {
        hs256_token(secret, user_claims(user_id, issued, issued + expires_in))
    } else {
        None
    }
}

/// Whether `r` answers a token issue that gave `token`: the token itself,
/// or an internal error where there is none.
pub open spec fn token_answer(r: Result<String, AuthError>, token: Option<Seq<char>>) -> bool {
    match token {
        Some(t) => r matches Ok(s) && s@ == t,
        None => r matches Err(e) && e is InternalServerError,
    }
}

/// Issues an access token for the user, its role and status at the instant
/// `issued`, valid for `expires_in` seconds. An expiry beyond the instants
/// chrono can hold, or a signing failure, is an internal error.
pub fn access_token_issued_at(secret: &str, user_id: i32, role_id: i32, status: &str, issued: i64, expires_in: i64) -> (r: Result<String, AuthError>)
    requires
        0 <= issued <= MAX_TIMESTAMP,
        -MAX_TOKEN_LIFETIME <= expires_in <= MAX_TOKEN_LIFETIME,
    ensures
        token_answer(r, access_token_at(secret@, user_id as int, role_id as int, status@, issued as int, expires_in as int)),
{
    match expiry(issued, expires_in) {
        Some(_) => {},
        None => return Err(AuthError::InternalServerError),
    }
    let claims = access_token_claims(user_id, role_id, status, issued, expires_in);
    sign_token(secret, &claims)
}

/// Issues a refresh token (or an e-mail confirmation token) for the user at
/// the instant `issued`, valid for `expires_in` seconds. An expiry beyond
/// the instants chrono can hold, or a signing failure, is an internal error.
pub fn user_token_issued_at(secret: &str, user_id: i32, issued: i64, expires_in: i64) -> (r: Result<String, AuthError>)
    requires
        0 <= issued <= MAX_TIMESTAMP,
        -MAX_TOKEN_LIFETIME <= expires_in <= MAX_TOKEN_LIFETIME,
    ensures
        token_answer(r, user_token_at(secret@, user_id as int, issued as int, expires_in as int)),
{
    match expiry(issued, expires_in) {
        Some(_) => {},
        None => return Err(AuthError::InternalServerError),
    }
    let claims = user_token_claims(user_id, issued, expires_in);
    sign_token(secret, &claims)
}

/// Issues an access token for the user, its role and status, valid for
/// `expires_in` seconds from now: what `access_token_issued_at` gives at the
/// instant the clock reads.
pub fn generate_access_token(secret: &str, user_id: i32, role_id: i32, status: &str, expires_in: i64) -> (r: Result<String, AuthError>)
    requires
        -MAX_TOKEN_LIFETIME <= expires_in <= MAX_TOKEN_LIFETIME,
    ensures
        exists|issued: int| 0 <= issued <= MAX_TIMESTAMP && token_answer(
            r,
            #[trigger] access_token_at(secret@, user_id as int, role_id as int, status@, issued, expires_in as int),
        ),
{
    let issued = now().secs;
    let r = access_token_issued_at(secret, user_id, role_id, status, issued, expires_in);
    assert(token_answer(r, access_token_at(secret@, user_id as int, role_id as int, status@, issued as int, expires_in as int)));
    r
}

/// Issues a refresh token (or an e-mail confirmation token) for the user,
/// valid for `expires_in` seconds from now: what `user_token_issued_at`
/// gives at the instant the clock reads.
pub fn generate_user_token(secret: &str, user_id: i32, expires_in: i64) -> (r: Result<String, AuthError>)
    requires
        -MAX_TOKEN_LIFETIME <= expires_in <= MAX_TOKEN_LIFETIME,
    ensures
        exists|issued: int| 0 <= issued <= MAX_TIMESTAMP && token_answer(
            r,
            #[trigger] user_token_at(secret@, user_id as int, issued, expires_in as int),
        ),
{
    let issued = now().secs;
    let r = user_token_issued_at(secret, user_id, issued, expires_in);
    assert(token_answer(r, user_token_at(secret@, user_id as int, issued as int, expires_in as int)));
    r
}

/// Whether `r` answers a login that issued the access token `access` and
/// then the refresh token `refresh`: both tokens, or an internal error as
/// soon as one is missing.
pub open spec fn login_tokens_answer(r: Result<(String, String), AuthError>, access: Option<Seq<char>>, refresh: Option<Seq<char>>) -> bool {
    match (access, refresh) {
        (Some(a), Some(f)) => r matches Ok((ra, rf)) && ra@ == a && rf@ == f,
        _ => r matches Err(e) && e is InternalServerError,
    }
}

/// The two tokens a successful login hands out: an access token for the
/// user's auth entity, its role and status, then a refresh token for the
/// user, each issued at the instant the clock reads; the first that cannot
/// be issued fails the login as internal.
pub fn issue_login_tokens(
    access_secret: &str,
    refresh_secret: &str,
    entity_id: i32,
    role_id: i32,
    status: &str,
    user_id: i32,
    access_expires_in: i64,
    refresh_expires_in: i64,
) -> (r: Result<(String, String), AuthError>)
    requires
        -MAX_TOKEN_LIFETIME <= access_expires_in <= MAX_TOKEN_LIFETIME,
        -MAX_TOKEN_LIFETIME <= refresh_expires_in <= MAX_TOKEN_LIFETIME,
    ensures
        exists|first: int, second: int|
            #![trigger access_token_at(access_secret@, entity_id as int, role_id as int, status@, first, access_expires_in as int), user_token_at(refresh_secret@, user_id as int, second, refresh_expires_in as int)]
            0 <= first <= MAX_TIMESTAMP && 0 <= second <= MAX_TIMESTAMP && login_tokens_answer(
                r,
                access_token_at(access_secret@, entity_id as int, role_id as int, status@, first, access_expires_in as int),
                user_token_at(refresh_secret@, user_id as int, second, refresh_expires_in as int),
            ),
{
    let first = now().secs;
    let access = access_token_issued_at(access_secret, entity_id, role_id, status, first, access_expires_in);
    let ghost a = access_token_at(access_secret@, entity_id as int, role_id as int, status@, first as int, access_expires_in as int);
    let access = match access {
        Ok(t) => t,
        Err(e) => {
            let ghost f = user_token_at(refresh_secret@, user_id as int, first as int, refresh_expires_in as int);
            assert(login_tokens_answer(Err(e), a, f));
            return Err(e);
        },
    };
    let second = now().secs;
    let refresh = user_token_issued_at(refresh_secret, user_id, second, refresh_expires_in);
    let ghost f = user_token_at(refresh_secret@, user_id as int, second as int, refresh_expires_in as int);
    match refresh {
        Ok(t) => {
            let r = Ok((access, t));
            assert(login_tokens_answer(r, a, f));
            r
        },
        Err(e) => {
            assert(login_tokens_answer(Err(e), a, f));
            Err(e)
        },
    }
}

// ---------------------------------------------------------------------------
// Reading tokens back

/// The value of a claim, if the claims carry it.
pub open spec fn claim_in(claims: ClaimSeq, name: Seq<char>) -> Option<Seq<char>> {
    if claims_map(claims).dom().contains(name) {
        Some(claims_map(claims)[name])
    } else {
        None
    }
}

proof fn lemma_claims_map_skip_tail(c: ClaimSeq, i: int, name: Seq<char>)
    requires
        0 <= i <= c.len(),
        forall|j: int| i <= j < c.len() ==> (#[trigger] c[j]).0 != name,
    ensures
        claim_in(c, name) == claim_in(c.take(i), name),
    decreases c.len() - i,
{
    if i < c.len() {
        let d = c.drop_last();
        assert(c.take(i) =~= d.take(i));
        assert forall|j: int| i <= j < d.len() implies (#[trigger] d[j]).0 != name by {
            assert(d[j] == c[j]);
        }
        lemma_claims_map_skip_tail(d, i, name);
        assert(claims_map(c) == claims_map(d).insert(c.last().0, c.last().1));
    } else {
        assert(c.take(i) =~= c);
    }
}

/// The value of a claim: the last pair with that name.
pub fn claim_value(claims: &Vec<(String, String)>, name: &str) -> (r: Option<String>)
    ensures
        r.deep_view() == claim_in(claims.deep_view(), name@),
{
    let ghost c = claims.deep_view();
    let mut i: usize = claims.len();
    while i > 0
        invariant
            i <= claims@.len(),
            c == claims.deep_view(),
            forall|j: int| i <= j < c.len() ==> (#[trigger] c[j]).0 != name@,
        decreases i,
    {
        let k = i - 1;
        proof {
            assert(c[k as int] == claims@[k as int].deep_view());
        }
        if str_eq(claims[k].0.as_str(), name) {
            proof {
                lemma_claims_map_skip_tail(c, i as int, name@);
                assert(c.take(i as int).drop_last() =~= c.take(k as int));
                assert(c.take(i as int).last() == c[k as int]);
            }
            return Some(claims[k].1.clone());
        }
        i = k;
    }
    proof {
        lemma_claims_map_skip_tail(c, 0, name@);
        assert(c.take(0) =~= Seq::<(Seq<char>, Seq<char>)>::empty());
    }
    None
}

/// How a token's claims fare against the clock.
#[derive(Debug, Clone, Copy, PartialEq, Eq, Structural)]
pub enum TokenVerdict {
    /// The token has not expired yet.
    Valid,
    /// The expiry is not a decimal `i64`.
    Invalid,
    /// The expiry has passed.
    Expired,
    /// The expiry is missing or outside the instants chrono can hold (where
    /// reading the token cannot go on).
    Unreadable,
}

/// The verdict on claims read at `now`.
pub open spec fn token_verdict(claims: ClaimSeq, now: Timestamp) -> TokenVerdict {
    match claim_in(claims, "exp"@) {
        None => TokenVerdict::Unreadable,
        Some(text) => match parse_i64_spec(text) {
            None => TokenVerdict::Invalid,
            Some(e) => if !(MIN_TIMESTAMP <= e <= MAX_TIMESTAMP) {
                TokenVerdict::Unreadable
            } else if before(now, Timestamp { secs: e as i64, nanos: 0 }) {
                TokenVerdict::Valid
            } else {
                TokenVerdict::Expired
            },
        },
    }
}

/// Message of an invalid token.
pub open spec fn token_invalid_message() -> Seq<char> {
    "Authorization failed, token is invalid"@
}

/// Message of an expired token.
pub open spec fn token_expired_message() -> Seq<char> {
    "Token is already expired, please send a new confirmation email"@
}

/// Whether the outcome of reading a token is the one a verdict calls for.
pub open spec fn outcome_of<T>(r: Result<T, AuthError>, v: TokenVerdict) -> bool {
    match v {
        TokenVerdict::Valid => r is Ok,
        TokenVerdict::Invalid => r matches Err(AuthError::TokenInvalid(m)) && m@ == token_invalid_message(),
        TokenVerdict::Expired => r matches Err(AuthError::TokenExpired(m)) && m@ == token_expired_message(),
        TokenVerdict::Unreadable => r matches Err(e) && e is InternalServerError,
    }
}

/// Checks the expiry of a token's claims against `now`.
pub fn check_token_expiry(claims: &Vec<(String, String)>, now: Timestamp) -> (r: Result<(), AuthError>)
    ensures
        outcome_of(r, token_verdict(claims.deep_view(), now)),
{
    let exp = match claim_value(claims, "exp") {
        Some(e) => e,
        None => return Err(AuthError::InternalServerError),
    };
    proof {
        reveal_strlit("exp");
    }
    let expires = match parse_i64(exp.as_str()) {
        Some(e) => e,
        None => return Err(AuthError::TokenInvalid(String::from_str("Authorization failed, token is invalid"))),
    };
    if expires < MIN_TIMESTAMP || expires > MAX_TIMESTAMP {
        return Err(AuthError::InternalServerError);
    }
    if now.secs < expires {
        Ok(())
    } else {
        Err(AuthError::TokenExpired(
            String::from_str("Token is already expired, please send a new confirmation email"),
        ))
    }
}

/// What reading a token whose signature gave `claims` (none when it does
/// not check out) answers at `now`.
pub open spec fn decode_answer(r: Result<Vec<(String, String)>, AuthError>, claims: Option<ClaimSeq>, now: Timestamp) -> bool {
    match claims {
        None => r matches Err(AuthError::TokenInvalid(m)) && m@ == token_invalid_message(),
        Some(c) => outcome_of(r, token_verdict(c, now)),
    }
}

/// Reads a token signed with `secret` and checks it against the instant
/// `now`: a token whose signature does not check out is invalid; otherwise
/// the verdict on its claims at `now` decides, and a valid token gives its
/// claims. A token that signing claims with the same secret produced is
/// judged by those claims.
pub fn decode_token_at(secret: &str, token: &str, now: Timestamp) -> (r: Result<Vec<(String, String)>, AuthError>)
    ensures
        decode_answer(r, hs256_claims(secret@, token@), now),
        forall|c: ClaimSeq| #[trigger] hs256_token(secret@, c) == Some(token@) ==> (hs256_claims(secret@, token@) matches Some(d) && claims_map(d) == claims_map(c)),
        r matches Ok(v) ==> hs256_claims(secret@, token@) == Some(v.deep_view()),
        read_back_as(r, secret@, token@, now),
{
    let claims = match verify_claims(secret, token) {
        Some(c) => c,
        None => return Err(AuthError::TokenInvalid(String::from_str("Authorization failed, token is invalid"))),
    };
    let checked = check_token_expiry(&claims, now);
    let r = match checked {
        Ok(()) => Ok(claims),
        Err(e) => Err(e),
    };
    proof {
        assert forall|c: ClaimSeq| #[trigger] hs256_token(secret@, c) == Some(token@) implies outcome_of(r, token_verdict(c, now))
            && (r matches Ok(v) ==> claims_map(v.deep_view()) == claims_map(c)) by {
            law_same_claims_same_reading(claims.deep_view(), c, now, "exp"@);
        }
    }
    r
}

/// Reads a token signed with `secret` and checks it has not expired at the
/// present instant: what `decode_token_at` gives at the instant the clock
/// reads.
pub fn decode_token(secret: &str, token: &str) -> (r: Result<Vec<(String, String)>, AuthError>)
    ensures
        exists|t: Timestamp| t.nanos < 1_000_000_000 && #[trigger] decode_answer(r, hs256_claims(secret@, token@), t),
        r matches Ok(v) ==> hs256_claims(secret@, token@) == Some(v.deep_view()),
        forall|c: ClaimSeq| #[trigger] hs256_token(secret@, c) == Some(token@) ==> (hs256_claims(secret@, token@) matches Some(d) && claims_map(d) == claims_map(c)),
{
    let t = now();
    decode_token_at(secret, token, t)
}

/// The user a token's claims name: a missing or malformed `user_id` claim
/// is internal.
pub fn claim_user_id(claims: &Vec<(String, String)>) -> (r: Result<i32, AuthError>)
    ensures
        match claim_in(claims.deep_view(), "user_id"@) {
            Some(text) => match parse_i32_spec(text) {
                Some(id) => r == Ok::<i32, AuthError>(id as i32),
                None => r matches Err(e) && e is InternalServerError,
            },
            None => r matches Err(e) && e is InternalServerError,
        },
{
    let text = match claim_value(claims, "user_id") {
        Some(t) => t,
        None => return Err(AuthError::InternalServerError),
    };
    proof {
        reveal_strlit("user_id");
    }
    match parse_i32(text.as_str()) {
        Some(id) => Ok(id),
        None => Err(AuthError::InternalServerError),
    }
}


/// An access token read at an instant before its expiry is valid; read at
/// or after it, expired. Tokens this service issues always carry a readable
/// expiry.
pub proof fn law_access_token_valid_until_expiry(user_id: i32, role_id: i32, status: Seq<char>, issued: int, expires: int, at: Timestamp)
    requires
        MIN_TIMESTAMP <= expires <= MAX_TIMESTAMP,
    ensures
        token_verdict(access_claims(user_id as int, role_id as int, status, issued, expires), at) == (if before(
            at,
            Timestamp { secs: expires as i64, nanos: 0 },
        ) {
            TokenVerdict::Valid
        } else {
            TokenVerdict::Expired
        }),
{
    let c = access_claims(user_id as int, role_id as int, status, issued, expires);
    lemma_claim_names();
    lemma_claim_of_issued(c, 4, "exp"@);
    crate::text::lemma_parse_of_decimal(expires, i64::MIN as int, i64::MAX as int);
}

/// A refresh or confirmation token read before its expiry is valid; read
/// at or after it, expired.
pub proof fn law_user_token_valid_until_expiry(user_id: i32, issued: int, expires: int, at: Timestamp)
    requires
        MIN_TIMESTAMP <= expires <= MAX_TIMESTAMP,
    ensures
        token_verdict(user_claims(user_id as int, issued, expires), at) == (if before(
            at,
            Timestamp { secs: expires as i64, nanos: 0 },
        ) {
            TokenVerdict::Valid
        } else {
            TokenVerdict::Expired
        }),
{
    let c = user_claims(user_id as int, issued, expires);
    lemma_claim_names();
    lemma_claim_of_issued(c, 2, "exp"@);
    crate::text::lemma_parse_of_decimal(expires, i64::MIN as int, i64::MAX as int);
}

/// Whether `r` is what reading `token` with `secret` at `at` answers, as
/// `decode_token_at` guarantees it for a token that signing produced.
pub open spec fn read_back_as(r: Result<Vec<(String, String)>, AuthError>, secret: Seq<char>, token: Seq<char>, at: Timestamp) -> bool {
    forall|c: ClaimSeq| #[trigger] hs256_token(secret, c) == Some(token) ==> outcome_of(r, token_verdict(c, at))
        && (r matches Ok(v) ==> claims_map(v.deep_view()) == claims_map(c))
}

/// An access token issued at `issued` for `expires_in` seconds and read
/// back with the same secret at `at` is valid exactly while `at` comes
/// before its expiry, and then gives the claims it was issued with; from
/// its expiry on it is refused as expired.
pub proof fn law_issued_access_token_reads_until_expiry(
    secret: Seq<char>,
    user_id: i32,
    role_id: i32,
    status: Seq<char>,
    issued: int,
    expires_in: int,
    token: Seq<char>,
    at: Timestamp,
    r: Result<Vec<(String, String)>, AuthError>,
)
    requires
        access_token_at(secret, user_id as int, role_id as int, status, issued, expires_in) == Some(token),
        read_back_as(r, secret, token, at),
    ensures
        before(at, Timestamp { secs: (issued + expires_in) as i64, nanos: 0 }) ==> (r matches Ok(v) && claims_map(v.deep_view())
            == claims_map(access_claims(user_id as int, role_id as int, status, issued, issued + expires_in))),
        !before(at, Timestamp { secs: (issued + expires_in) as i64, nanos: 0 }) ==> (r matches Err(AuthError::TokenExpired(m))
            && m@ == token_expired_message()),
{
    let c = access_claims(user_id as int, role_id as int, status, issued, issued + expires_in);
    assert(hs256_token(secret, c) == Some(token));
    law_access_token_valid_until_expiry(user_id, role_id, status, issued, issued + expires_in, at);
}

/// A refresh or confirmation token issued at `issued` for `expires_in`
/// seconds and read back with the same secret at `at` is valid exactly
/// while `at` comes before its expiry, and then gives the claims it was
/// issued with; from its expiry on it is refused as expired.
pub proof fn law_issued_user_token_reads_until_expiry(
    secret: Seq<char>,
    user_id: i32,
    issued: int,
    expires_in: int,
    token: Seq<char>,
    at: Timestamp,
    r: Result<Vec<(String, String)>, AuthError>,
)
    requires
        user_token_at(secret, user_id as int, issued, expires_in) == Some(token),
        read_back_as(r, secret, token, at),
    ensures
        before(at, Timestamp { secs: (issued + expires_in) as i64, nanos: 0 }) ==> (r matches Ok(v) && claims_map(v.deep_view())
            == claims_map(user_claims(user_id as int, issued, issued + expires_in))),
        !before(at, Timestamp { secs: (issued + expires_in) as i64, nanos: 0 }) ==> (r matches Err(AuthError::TokenExpired(m))
            && m@ == token_expired_message()),
{
    let c = user_claims(user_id as int, issued, issued + expires_in);
    assert(hs256_token(secret, c) == Some(token));
    law_user_token_valid_until_expiry(user_id, issued, issued + expires_in, at);
}

/// The user an issued token names is the user it was issued for.
pub proof fn law_issued_token_names_its_user(user_id: i32, role_id: i32, status: Seq<char>, issued: int, expires: int)
    ensures
        claim_in(access_claims(user_id as int, role_id as int, status, issued, expires), "user_id"@) matches Some(
            t,
        ) && parse_i32_spec(t) == Some(user_id as int),
        claim_in(user_claims(user_id as int, issued, expires), "user_id"@) matches Some(t) && parse_i32_spec(t)
            == Some(user_id as int),
{
    lemma_claim_names();
    lemma_claim_of_issued(access_claims(user_id as int, role_id as int, status, issued, expires), 0, "user_id"@);
    lemma_claim_of_issued(user_claims(user_id as int, issued, expires), 0, "user_id"@);
    crate::text::lemma_parse_of_decimal(user_id as int, i32::MIN as int, i32::MAX as int);
}

/// Claims that read back as the same map get the same verdict and name the
/// same values: what a token carries is decided by the map it was signed
/// over, not by the order of its pairs.
pub proof fn law_same_claims_same_reading(c: ClaimSeq, d: ClaimSeq, at: Timestamp, name: Seq<char>)
    requires
        claims_map(c) == claims_map(d),
    ensures
        token_verdict(c, at) == token_verdict(d, at),
        claim_in(c, name) == claim_in(d, name),
{
}

/// The claim names of issued tokens are pairwise different.
proof fn lemma_claim_names()
    ensures
        "user_id"@ != "role_id"@,
        "user_id"@ != "status"@,
        "user_id"@ != "iat"@,
        "user_id"@ != "exp"@,
        "role_id"@ != "status"@,
        "role_id"@ != "iat"@,
        "role_id"@ != "exp"@,
        "status"@ != "iat"@,
        "status"@ != "exp"@,
        "iat"@ != "exp"@,
{
    reveal_strlit("user_id");
    reveal_strlit("role_id");
    reveal_strlit("status");
    reveal_strlit("iat");
    reveal_strlit("exp");
    assert("user_id"@[0] != "role_id"@[0]);
    assert("iat"@[0] != "exp"@[0]);
}

/// In the claims a token is issued with, each name occurs once, so the
/// value of the pair at position `i` is the value of its name.
proof fn lemma_claim_of_issued(c: ClaimSeq, i: int, name: Seq<char>)
    requires
        0 <= i < c.len(),
        c[i].0 == name,
        forall|j: int| 0 <= j < c.len() && j != i ==> (#[trigger] c[j]).0 != name,
    ensures
        claim_in(c, name) == Some(c[i].1),
{
    lemma_claims_map_skip_tail(c, i + 1, name);
    assert(c.take(i + 1).drop_last() =~= c.take(i));
    assert(c.take(i + 1).last() == c[i]);
}

// ---------------------------------------------------------------------------
// Registration, login and passwords

/// Hashes a password for storage, salted with the service's password
/// secret; a refused salt is internal.
pub fn hash_new_password(password: &str, password_secret: &str) -> (r: Result<String, AuthError>)
    ensures
        match argon2_phc(password@, password_secret@) {
            Some(h) => r matches Ok(s) && s@ == h,
            None => r matches Err(e) && e is InternalServerError,
        },
{
    match hash_password(password, password_secret) {
        Some(h) => Ok(h),
        None => Err(AuthError::InternalServerError),
    }
}

/// What a new user is stored with: the password only as its Argon2 hash.
#[derive(Debug)]
pub struct InsertUserParams {
    pub name: String,
    pub email: String,
    pub password: String,
    pub registration_reason: Option<String>,
    pub role_id: i32,
}

/// The row a registration inserts: the name, e-mail, reason and role as
/// given, and the password hashed with the service's password secret as
/// salt; a refused salt is internal.
pub fn register_insert(params: RegisterParams, password_secret: &str) -> (r: Result<InsertUserParams, AuthError>)
    ensures
        match argon2_phc(params.password@, password_secret@) {
            Some(h) => r matches Ok(p) && p.name@ == params.name@ && p.email@ == params.email@ && p.password@ == h
                && p.registration_reason == params.reason && p.role_id == params.role_id,
            None => r matches Err(e) && e is InternalServerError,
        },
{
    let hash = match hash_new_password(params.password.as_str(), password_secret) {
        Ok(h) => h,
        Err(e) => return Err(e),
    };
    Ok(InsertUserParams {
        name: params.name,
        email: params.email,
        password: hash,
        registration_reason: params.reason,
        role_id: params.role_id,
    })
}

/// The error of a failed user insert: a taken e-mail, a missing role, or an
/// internal error.
pub fn register_error(e: &StoreError) -> (r: AuthError)
    ensures
        e.kind() == StoreErrorKind::UniqueViolation ==> (r matches AuthError::EmailAlreadyExists(m) && m@
            == "Email is already registered in our system"@),
        e.kind() == StoreErrorKind::ForeignKey ==> (r matches AuthError::RoleNotFound(m) && m@ == "Role not found"@),
        e.kind() == StoreErrorKind::NotFound || e.kind() == StoreErrorKind::Internal ==> r is InternalServerError,
{
    match e.classify() {
        StoreErrorKind::UniqueViolation => AuthError::EmailAlreadyExists(
            String::from_str("Email is already registered in our system"),
        ),
        StoreErrorKind::ForeignKey => AuthError::RoleNotFound(String::from_str("Role not found")),
        _ => AuthError::InternalServerError,
    }
}

/// Message of a refused login.
pub open spec fn login_failed_message() -> Seq<char> {
    "Authentication failed, Invalid email or password"@
}

/// The error of a failed lookup of the user logging in: an unknown e-mail
/// is refused like a wrong password.
pub fn login_lookup_error(e: &StoreError) -> (r: AuthError)
    ensures
        e is RowNotFound ==> (r matches AuthError::AuthenticationFailed(m) && m@ == login_failed_message()),
        !(e is RowNotFound) ==> r is InternalServerError,
{
    match e {
        StoreError::RowNotFound => AuthError::AuthenticationFailed(
            String::from_str("Authentication failed, Invalid email or password"),
        ),
        _ => AuthError::InternalServerError,
    }
}

/// The error of a failed lookup of a user's account: a missing user or an
/// internal error.
pub fn user_lookup_error(e: &StoreError) -> (r: AuthError)
    ensures
        e is RowNotFound ==> (r matches AuthError::UserNotFound(m) && m@ == "User not found"@),
        !(e is RowNotFound) ==> r is InternalServerError,
{
    match e {
        StoreError::RowNotFound => AuthError::UserNotFound(String::from_str("User not found")),
        _ => AuthError::InternalServerError,
    }
}

/// The error of a failed lookup of the user an e-mail confirmation is sent
/// to.
pub fn confirmation_lookup_error(e: &StoreError) -> (r: AuthError)
    ensures
        e is RowNotFound ==> (r matches AuthError::UserNotFound(m) && m@
            == "User with the given email was not found"@),
        !(e is RowNotFound) ==> r is InternalServerError,
{
    match e {
        StoreError::RowNotFound => AuthError::UserNotFound(
            String::from_str("User with the given email was not found"),
        ),
        _ => AuthError::InternalServerError,
    }
}

/// The error of a failed lookup of the user logging out: whatever failed,
/// the user is reported missing.
pub fn logout_lookup_error(e: &StoreError) -> (r: AuthError)
    ensures
        r matches AuthError::UserNotFound(m) && m@ == "User with the given id is not found"@,
{
    AuthError::UserNotFound(String::from_str("User with the given id is not found"))
}

/// What checking a login password against a stored user finds, in the
/// order the checks run.
#[derive(Debug, Clone, Copy, PartialEq, Eq, Structural)]
pub enum LoginVerdict {
    /// The e-mail is not confirmed yet.
    NotConfirmed,
    /// An administrator rejected the registration.
    Rejected,
    /// The stored password is not UTF-8 or not a PHC string.
    Unreadable,
    /// The password does not match.
    WrongPassword,
    /// The password matches.
    Accepted,
}

/// The verdict on a login password for a stored user.
pub open spec fn login_verdict(user: UserRecord, password: Seq<char>) -> LoginVerdict {
    if !user.is_email_confirmed {
        LoginVerdict::NotConfirmed
    } else if user.is_rejected {
        LoginVerdict::Rejected
    } else {
        match utf8_text(user.password@) {
            None => LoginVerdict::Unreadable,
            Some(phc) => match argon2_matches(password, phc) {
                None => LoginVerdict::Unreadable,
                Some(false) => LoginVerdict::WrongPassword,
                Some(true) => LoginVerdict::Accepted,
            },
        }
    }
}

/// Checks a login password against the stored user.
pub fn check_login(user: &UserRecord, password: &str) -> (r: Result<(), AuthError>)
    ensures
        match login_verdict(*user, password@) {
            LoginVerdict::NotConfirmed => r matches Err(AuthError::UserNotVerified(m)) && m@ == "Email is not confirmed yet"@,
            LoginVerdict::Rejected => r matches Err(AuthError::UserNotVerified(m)) && m@ == "User registration is rejected by admin"@,
            LoginVerdict::Unreadable => r matches Err(e) && e is InternalServerError,
            LoginVerdict::WrongPassword => r matches Err(AuthError::AuthenticationFailed(m)) && m@ == login_failed_message(),
            LoginVerdict::Accepted => r is Ok,
        },
        forall|salt: Seq<char>|
            user.is_email_confirmed && !user.is_rejected && utf8_text(user.password@) is Some
                && #[trigger] argon2_phc(password@, salt) == utf8_text(user.password@) ==> r is Ok,
{
    if !user.is_email_confirmed {
        return Err(AuthError::UserNotVerified(String::from_str("Email is not confirmed yet")));
    }
    if user.is_rejected {
        return Err(AuthError::UserNotVerified(String::from_str("User registration is rejected by admin")));
    }
    let phc = match decode_utf8(user.password.as_slice()) {
        Some(p) => p,
        None => return Err(AuthError::InternalServerError),
    };
    match password_matches(password, phc.as_str()) {
        None => Err(AuthError::InternalServerError),
        Some(false) => Err(AuthError::AuthenticationFailed(
            String::from_str("Authentication failed, Invalid email or password"),
        )),
        Some(true) => Ok(()),
    }
}

/// The error of a failed lookup of the user changing a password.
pub fn change_password_lookup_error(e: &StoreError) -> (r: ChangePasswordError)
    ensures
        e is RowNotFound ==> r == ChangePasswordError::UserNotFound("Unable to find user in the system"),
        !(e is RowNotFound) ==> r is InternalServerError,
{
    match e {
        StoreError::RowNotFound => ChangePasswordError::UserNotFound("Unable to find user in the system"),
        _ => ChangePasswordError::InternalServerError,
    }
}

/// Checks the old password of a password change against the stored PHC
/// string (as bytes).
pub fn check_old_password(stored: &Vec<u8>, old_password: &str) -> (r: Result<(), ChangePasswordError>)
    ensures
        match utf8_text(stored@) {
            None => r == Err::<(), ChangePasswordError>(ChangePasswordError::InternalServerError),
            Some(phc) => match argon2_matches(old_password@, phc) {
                None => r == Err::<(), ChangePasswordError>(ChangePasswordError::InternalServerError),
                Some(false) => r == Err::<(), ChangePasswordError>(ChangePasswordError::UserInvalidOldPassword(
                    "Unable to change password due to invalid old password",
                )),
                Some(true) => r is Ok,
            },
        },
{
    let phc = match decode_utf8(stored.as_slice()) {
        Some(p) => p,
        None => return Err(ChangePasswordError::InternalServerError),
    };
    match password_matches(old_password, phc.as_str()) {
        None => Err(ChangePasswordError::InternalServerError),
        Some(false) => Err(ChangePasswordError::UserInvalidOldPassword(
            "Unable to change password due to invalid old password",
        )),
        Some(true) => Ok(()),
    }
}

/// Whether the default user may be created, from the lookup of its e-mail:
/// an existing user stops it, a missing one lets it go on, any other
/// failure is internal.
pub fn seed_lookup(found: &Result<(), StoreError>) -> (r: Result<(), SeedDefaultUserError>)
    ensures
        match found {
            Ok(()) => r == Err::<(), SeedDefaultUserError>(SeedDefaultUserError::EmailAlreadyExists(
                "Default user already exists",
            )),
            Err(StoreError::RowNotFound) => r is Ok,
            Err(_) => r == Err::<(), SeedDefaultUserError>(SeedDefaultUserError::InternalServerError),
        },
{
    match found {
        Ok(()) => Err(SeedDefaultUserError::EmailAlreadyExists("Default user already exists")),
        Err(StoreError::RowNotFound) => Ok(()),
        Err(_) => Err(SeedDefaultUserError::InternalServerError),
    }
}

/// The confirmation link of a token: `<dashboard>/verification?token=<token>`.
pub open spec fn confirmation_link(dashboard_baseurl: Seq<char>, token: Seq<char>) -> Seq<char> {
    dashboard_baseurl + "/verification?token="@ + token
}

/// The e-mail that asks a user to confirm their address.
pub fn confirmation_email(dashboard_baseurl: &str, to: String, token: &str) -> (r: EmailParams)
    ensures
        r.from@ == "Enchiridion <noreply@stevenhansel.com>"@,
        r.to@ == to@,
        r.subject@ == "[Enchiridion] Please confirm your email address"@,
        r.html@ == "<p>Please confirm your email address by clicking this <a href=\""@ + confirmation_link(
            dashboard_baseurl@,
            token@,
        ) + "\">link</a>"@,
{
    let mut html = String::from_str("<p>Please confirm your email address by clicking this <a href=\"");
    html.append(dashboard_baseurl);
    html.append("/verification?token=");
    html.append(token);
    html.append("\">link</a>");
    proof {
        assert(html@ == "<p>Please confirm your email address by clicking this <a href=\""@ + confirmation_link(
            dashboard_baseurl@,
            token@,
        ) + "\">link</a>"@);
    }
    EmailParams {
        from: String::from_str("Enchiridion <noreply@stevenhansel.com>"),
        to,
        subject: String::from_str("[Enchiridion] Please confirm your email address"),
        html,
    }
}

/// The confirmation e-mail for a user, with a freshly issued confirmation
/// token; a user whose e-mail is already confirmed gets none.
pub fn email_confirmation_request(user: &UserRecord, secret: &str, expires_in: i64, dashboard_baseurl: &str) -> (r: Result<EmailParams, AuthError>)
    requires
        -MAX_TOKEN_LIFETIME <= expires_in <= MAX_TOKEN_LIFETIME,
    ensures
        user.is_email_confirmed ==> (r matches Err(AuthError::EmailAlreadyConfirmed(m)) && m@
            == "The email is already confirmed"@),
        r matches Ok(p) ==> p.from@ == "Enchiridion <noreply@stevenhansel.com>"@ && p.subject@
            == "[Enchiridion] Please confirm your email address"@,
        r matches Ok(p) ==> p.to@ == user.email@,
        !user.is_email_confirmed ==> exists|issued: int| 0 <= issued <= MAX_TIMESTAMP && match #[trigger] user_token_at(
            secret@,
            user.id as int,
            issued,
            expires_in as int,
        ) {
            Some(t) => r matches Ok(p) && p.html@ == "<p>Please confirm your email address by clicking this <a href=\""@
                + confirmation_link(dashboard_baseurl@, t) + "\">link</a>"@,
            None => r matches Err(e) && e is InternalServerError,
        },
{
    if user.is_email_confirmed {
        return Err(AuthError::EmailAlreadyConfirmed(String::from_str("The email is already confirmed")));
    }
    let issued = now().secs;
    let token = match user_token_issued_at(secret, user.id, issued, expires_in) {
        Ok(t) => t,
        Err(e) => return Err(e),
    };
    Ok(confirmation_email(dashboard_baseurl, user.email.clone(), token.as_str()))
}

// ---------------------------------------------------------------------------
// Request bodies

/// The checks a registration body fails, in field order: a name, a valid
/// e-mail address, a password of at least 8 characters.
pub open spec fn register_body_errors_spec(name: Seq<char>, email: Seq<char>, password: Seq<char>) -> Seq<Seq<char>> {
    let a: Seq<Seq<char>> = if name.len() == 0 { seq!["name: Name must not be empty"@] } else { Seq::empty() };
    let b: Seq<Seq<char>> = if !email_valid(email) { a.push("email: Must be a valid email address"@) } else { a };
    if password.len() < 8 { b.push("password: Password must have at least 8 characters"@) } else { b }
}

/// The checks a registration body fails.
pub fn register_body_errors(body: &RegisterBody) -> (r: Vec<String>)
    ensures
        r.deep_view() == register_body_errors_spec(body.name@, body.email@, body.password@),
{
    let mut v: Vec<String> = Vec::new();
    if body.name.as_str().unicode_len() == 0 {
        v.push(String::from_str("name: Name must not be empty"));
    }
    if !is_valid_email(body.email.as_str()) {
        v.push(String::from_str("email: Must be a valid email address"));
    }
    if body.password.as_str().unicode_len() < 8 {
        v.push(String::from_str("password: Password must have at least 8 characters"));
    }
    proof {
        assert(v.deep_view() =~= register_body_errors_spec(body.name@, body.email@, body.password@));
    }
    v
}

/// The checks a password change body fails: each password needs at least 8
/// characters (both report the same message).
pub fn change_password_body_errors(body: &ChangePasswordBody) -> (r: Vec<String>)
    ensures
        r@.len() == (if body.old_password@.len() < 8 { 1int } else { 0 }) + (if body.new_password@.len() < 8 {
            1int
        } else {
            0
        }),
        forall|i: int| 0 <= i < r@.len() ==> (#[trigger] r@[i])@ == "password: Password must have at least 8 characters"@,
{
    let mut v: Vec<String> = Vec::new();
    if body.old_password.as_str().unicode_len() < 8 {
        v.push(String::from_str("password: Password must have at least 8 characters"));
    }
    if body.new_password.as_str().unicode_len() < 8 {
        v.push(String::from_str("password: Password must have at least 8 characters"));
    }
    v
}

/// The checks an e-mail confirmation body fails: the token must not be
/// empty.
pub fn confirm_email_body_errors(body: &ConfirmEmailBody) -> (r: Vec<String>)
    ensures
        body.token@.len() == 0 ==> r.deep_view() == seq!["token: Token must be a valid string"@],
        body.token@.len() > 0 ==> r@.len() == 0,
{
    let mut v: Vec<String> = Vec::new();
    if body.token.as_str().unicode_len() == 0 {
        v.push(String::from_str("token: Token must be a valid string"));
    }
    proof {
        if body.token@.len() == 0 {
            assert(v.deep_view() =~= seq!["token: Token must be a valid string"@]);
        }
    }
    v
}

/// The cache key of a user's refresh token: `auth/refresh_token_<user id>`.
pub fn refresh_token_key(user_id: i32) -> (r: String)
    ensures
        r@ == "auth/refresh_token_"@ + int_to_decimal(user_id as int),
{
    let mut s = String::from_str("auth/refresh_token_");
    let id = i64_to_string(user_id as i64);
    s.append(id.as_str());
    s
}
} // verus!
