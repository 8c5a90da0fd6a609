//! Accounts and access: registration, login, the claims a token carries, and
//! the `Authorization` header that protected requests present.

use vstd::prelude::*;
use argon2::password_hash::rand_core::OsRng;
use argon2::password_hash::{PasswordHash, PasswordHasher, PasswordVerifier, SaltString};
use argon2::Argon2;

verus! {

#[verifier::external_type_specification]
#[verifier::external_body]
pub struct ExPasswordHashError(argon2::password_hash::Error);

/// Whether `PasswordHash::new` accepts `phc` as a PHC string.
pub uninterp spec fn phc_parses(phc: Seq<char>) -> bool;

/// Whether `Argon2::default().verify_password` accepts the UTF-8 bytes of
/// `password` against the parsed PHC string `phc`.
pub uninterp spec fn argon2_accepts(password: Seq<char>, phc: Seq<char>) -> bool;

/// Parses `phc` with `PasswordHash::new` and, where that succeeds, checks the
/// UTF-8 bytes of `password` against it with `Argon2::default().verify_password`.
/// The contract says only which of the two steps refused: the parse result and
/// the verification result are the names `phc_parses` and `argon2_accepts`.
#[verifier::external_body]
fn argon2_check(password: &str, phc: &str) -> (r: Result<bool, argon2::password_hash::Error>)
    ensures
        r is Err <==> !phc_parses(phc@),
        r matches Ok(ok) ==> ok == argon2_accepts(password@, phc@),
{
    match PasswordHash::new(phc) {
        Ok(parsed) => Ok(Argon2::default().verify_password(password.as_bytes(), &parsed).is_ok()),
        Err(e) => Err(e),
    }
}

/// Hashes the UTF-8 bytes of `password` with `Argon2::default().hash_password`
/// under a fresh salt from `SaltString::generate(&mut OsRng)`, and renders the
/// hash as a PHC string. The salt is random, so the string is not named; the
/// contract states what holds of every string it returns, as the crate's own
/// usage example shows: it parses, and the same password verifies against it.
/// With the default parameters and a generated salt, hashing refuses only a
/// password of more than `0xFFFF_FFFF` bytes; a password of at most
/// `0x3FFF_FFFF` characters (four bytes each at most) is always hashed.
#[verifier::external_body]
fn argon2_hash(password: &str) -> (r: Result<String, argon2::password_hash::Error>)
    ensures
        r matches Ok(phc) ==> phc_parses(phc@) && argon2_accepts(password@, phc@),
        password@.len() <= 0x3FFF_FFFF ==> r is Ok,
{
    let salt = SaltString::generate(&mut OsRng);
    match Argon2::default().hash_password(password.as_bytes(), &salt) {
        Ok(hash) => Ok(hash.to_string()),
        Err(e) => Err(e),
    }
}

/// Why an account request was refused.
#[derive(Debug, Clone, Copy, PartialEq, Eq, Structural)]
pub enum AuthFailure {
    /// Unknown user or wrong password: 401.
    Unauthorized,
    /// A fault on the server's side: 500.
    Internal,
}

impl AuthFailure {
    /// The HTTP status of the refusal.
    pub fn status(&self) -> (s: u16)
        ensures
            s == (match *self {
                AuthFailure::Unauthorized => 401u16,
                AuthFailure::Internal => 500u16,
            }),
    {
        match self {
            AuthFailure::Unauthorized => 401,
            AuthFailure::Internal => 500,
        }
    }
}

/// A row of the `users` table.
pub struct UserRecord {
    pub username: String,
    pub password_hash: String,
    pub role: String,
}

/// What a token says of its bearer: the user name, the role, and the UNIX
/// time (in seconds) after which the token is no longer valid.
pub struct Claims {
    pub sub: String,
    pub role: String,
    pub exp: u64,
}

/// How long a token issued at login stays valid, in seconds.
pub const TOKEN_LIFETIME_SECS: u64 = 3600;

/// The role that registration gives a new user.
pub open spec fn user_role() -> Seq<char> {
    "user"@
}

/// The claims as plain values: user name, role, expiry.
pub open spec fn claims_view(c: Claims) -> (Seq<char>, Seq<char>, int) {
    (c.sub@, c.role@, c.exp as int)
}

/// The outcome of a login with `password` for the row `user` (if the user
/// name was found) at UNIX time `now`.
pub open spec fn login_outcome(password: Seq<char>, user: Option<UserRecord>, now: int)
    -> Result<(Seq<char>, Seq<char>, int), AuthFailure>
{
    match user {
        None => Err(AuthFailure::Unauthorized),
        Some(u) => if !phc_parses(u.password_hash@) {
            Err(AuthFailure::Internal)
        } else if !argon2_accepts(password, u.password_hash@) {
            Err(AuthFailure::Unauthorized)
        } else {
            Ok((u.username@, u.role@, now + TOKEN_LIFETIME_SECS))
        },
    }
}

/// The login outcome of an executable result, as plain values.
pub open spec fn login_result_view(r: Result<Claims, AuthFailure>) -> Result<(Seq<char>, Seq<char>, int), AuthFailure> {
    match r {
        Ok(c) => Ok(claims_view(c)),
        Err(e) => Err(e),
    }
}

/// A row that registration may have produced for `username` and `password`.
pub open spec fn registered(username: Seq<char>, password: Seq<char>, rec: UserRecord) -> bool {
    &&& rec.username@ == username
    &&& rec.role@ == user_role()
    &&& phc_parses(rec.password_hash@)
    &&& argon2_accepts(password, rec.password_hash@)
}

/// Hashes a password for storage. Whatever it returns parses as a PHC
/// string and accepts the same password; a hashing fault is a server fault,
/// and it happens only for passwords of more than `0x3FFF_FFFF` characters.
pub fn hash_password(password: &str) -> (r: Result<String, AuthFailure>)
    ensures
        password@.len() <= 0x3FFF_FFFF ==> r is Ok,
        r matches Ok(phc) ==> phc_parses(phc@) && argon2_accepts(password@, phc@),
        r matches Err(e) ==> e == AuthFailure::Internal,
{
    match argon2_hash(password) {
        Ok(phc) => Ok(phc),
        Err(_) => Err(AuthFailure::Internal),
    }
}

/// The row that registers `username` with `password`, with the role `user`.
pub fn register(username: String, password: &str) -> (r: Result<UserRecord, AuthFailure>)
    ensures
        password@.len() <= 0x3FFF_FFFF ==> r is Ok,
        r matches Ok(rec) ==> registered(username@, password@, rec),
        r matches Err(e) ==> e == AuthFailure::Internal,
{
    let phc = hash_password(password)?;
    Ok(UserRecord { username, password_hash: phc, role: String::from_str("user") })
}

/// The role of the account that the auth service creates at start-up.
pub open spec fn admin_role() -> Seq<char> {
    "admin"@
}

/// The account that the auth service creates at start-up: user `asd` with
/// password `asd` and the role `admin`.
pub fn admin_account() -> (r: UserRecord)
    ensures
        r.username@ == "asd"@,
        r.role@ == admin_role(),
        phc_parses(r.password_hash@),
        argon2_accepts("asd"@, r.password_hash@),
{
    let password = "asd";
    proof { reveal_strlit("asd"); }
    match hash_password(password) {
        Ok(phc) => UserRecord { username: String::from_str("asd"), password_hash: phc, role: String::from_str("admin") },
        Err(_) => {
            assert(false);
            UserRecord { username: String::new(), password_hash: String::new(), role: String::new() }
        },
    }
}

/// Decides a login: an unknown user or a wrong password is refused with 401,
/// a stored hash that does not parse with 500; otherwise the claims name the
/// user and their stored role and expire an hour after `now`.
pub fn login(password: &str, user: Option<UserRecord>, now: u64) -> (r: Result<Claims, AuthFailure>)
    requires
        now + TOKEN_LIFETIME_SECS <= u64::MAX,
    ensures
        login_result_view(r) == login_outcome(password@, user, now as int),
{
    match user {
        None => Err(AuthFailure::Unauthorized),
        Some(u) => {
            match argon2_check(password, u.password_hash.as_str()) {
                Err(_) => Err(AuthFailure::Internal),
                Ok(false) => Err(AuthFailure::Unauthorized),
                Ok(true) => Ok(Claims { sub: u.username, role: u.role, exp: now + TOKEN_LIFETIME_SECS }),
            }
        },
    }
}

/// A user that registration created logs in with the password it was created
/// with, and the claims name that user with the role `user`, valid for an hour.
pub proof fn law_registered_user_logs_in(username: Seq<char>, password: Seq<char>, rec: UserRecord, now: int)
    requires
        registered(username, password, rec),
    ensures
        login_outcome(password, Some(rec), now) == Ok::<(Seq<char>, Seq<char>, int), AuthFailure>((username, "user"@, now + 3600)),
{
}

/// A login never succeeds for a user name that is not stored, and a
/// successful login's claims carry the stored name and role.
pub proof fn law_login_names_the_stored_user(password: Seq<char>, user: Option<UserRecord>, now: int)
    ensures
        user is None ==> login_outcome(password, user, now) == Err::<(Seq<char>, Seq<char>, int), AuthFailure>(AuthFailure::Unauthorized),
        login_outcome(password, user, now) matches Ok(c) ==> user is Some && c.0 == user->0.username@ && c.1 == user->0.role@ && c.2 == now + 3600,
{
}

/// Each refusal of a login, by its cause: an unknown user name and a wrong
/// password are 401, a stored hash that does not parse is 500.
pub proof fn law_login_refusals(password: Seq<char>, user: Option<UserRecord>, now: int)
    ensures
        user is None ==> login_outcome(password, user, now) == Err::<(Seq<char>, Seq<char>, int), AuthFailure>(AuthFailure::Unauthorized),
        user matches Some(u) && !phc_parses(u.password_hash@) ==>
            login_outcome(password, user, now) == Err::<(Seq<char>, Seq<char>, int), AuthFailure>(AuthFailure::Internal),
        user matches Some(u) && phc_parses(u.password_hash@) && !argon2_accepts(password, u.password_hash@) ==>
            login_outcome(password, user, now) == Err::<(Seq<char>, Seq<char>, int), AuthFailure>(AuthFailure::Unauthorized),
        user is Some && phc_parses(user->0.password_hash@) && argon2_accepts(password, user->0.password_hash@) ==>
            login_outcome(password, user, now) == Ok::<(Seq<char>, Seq<char>, int), AuthFailure>(
                (user->0.username@, user->0.role@, now + 3600)),
{
}

/// The prefix of an `Authorization` header that carries a token.
pub open spec fn bearer_prefix() -> Seq<char> {
    "Bearer "@
}

/// Whether `header` starts with `"Bearer "`.
pub open spec fn has_bearer_prefix(header: Seq<char>) -> bool {
    header.len() >= 7 && header.take(7) == bearer_prefix()
}

/// The token of an `Authorization` header: what follows `"Bearer "`, or
/// nothing when the header does not start so.
pub fn bearer_token(header: &str) -> (t: Option<&str>)
    ensures
        t is Some <==> has_bearer_prefix(header@),
        t matches Some(tok) ==> header@ == bearer_prefix() + tok@,
{
    let prefix = "Bearer ";
    proof { reveal_strlit("Bearer "); }
    let n: usize = header.unicode_len();
    if n < 7 {
        return None;
    }
    let mut i: usize = 0;
    while i < 7
        invariant
            n == header@.len(),
            n >= 7,
            prefix@ == bearer_prefix(),
            prefix@.len() == 7,
            i <= 7,
            forall|j: int| 0 <= j < i ==> header@[j] == prefix@[j],
        decreases 7 - i,
    {
        if header.get_char(i) != prefix.get_char(i) {
            assert(header@.take(7)[i as int] != bearer_prefix()[i as int]);
            return None;
        }
        i = i + 1;
    }
    assert(header@.take(7) =~= bearer_prefix());
    let tok = header.substring_char(7, n);
    assert(header@ =~= bearer_prefix() + tok@);
    Some(tok)
}

/// A header carries a token exactly when its first seven characters are
/// `Bearer ` (capital B, one space).
pub proof fn law_bearer_prefix_is_literal(header: Seq<char>)
    ensures
        has_bearer_prefix(header) <==> (header.len() >= 7 && header.take(7) == "Bearer "@),
        "Bearer "@.len() == 7,
{
    reveal_strlit("Bearer ");
}

/// A token placed after `"Bearer "` is the token that the header gives back.
pub proof fn law_bearer_roundtrip(token: Seq<char>)
    ensures
        has_bearer_prefix(bearer_prefix() + token),
        (bearer_prefix() + token).skip(7) == token,
{
    reveal_strlit("Bearer ");
    assert((bearer_prefix() + token).take(7) =~= bearer_prefix());
    assert((bearer_prefix() + token).skip(7) =~= token);
}

} // verus!
