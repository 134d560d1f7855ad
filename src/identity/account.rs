//! The decisions of the identity tier's two requests: creating an account
//! and exchanging a username and password for a bearer token. The store
//! lookups and writes happen around them.

use vstd::prelude::*;
use crate::identity::models::{DbUser, InsUser};
use crate::identity::state::State;
use crate::msg::clicor::{AuthRequest, AuthResponse, CreateUserRequest, CreateUserResponse};

verus! {

/// The answer to a request that failed on the server's side; it carries no
/// detail.
#[derive(Clone, Copy, Debug, PartialEq, Eq, Structural)]
pub struct InternalError;

/// Why no user record could be prepared.
#[derive(Clone, Copy, Debug, PartialEq, Eq, Structural)]
pub enum PrepareUserError {
    /// The request itself is refused, with this answer.
    Rejected(CreateUserResponse),
    /// The password could not be hashed.
    HashFailed,
}

/// How inserting a user into the store went.
#[derive(Clone, Copy, Debug, PartialEq, Eq, Structural)]
pub enum InsertOutcome {
    /// The insert ran and touched this many rows.
    Rows(usize),
    /// The username is taken.
    UniqueViolation,
    /// Any other store error.
    Failed,
}

/// The answer that refuses an account request, if it is refused: an empty
/// username, then an empty password.
pub open spec fn create_user_rejection(username: Seq<char>, password: Seq<char>) -> Option<
    CreateUserResponse,
> {
    if username.len() == 0 {
        Some(CreateUserResponse::InvalidUsername)
    } else if password.len() == 0 {
        Some(CreateUserResponse::InvalidPassword)
    } else {
        None
    }
}

/// The decimal text of a number, most significant digit first.
pub open spec fn decimal_text(n: nat) -> Seq<char>
    decreases n,
{
    if n < 10 {
        seq![((n + 48) as u8) as char]
    } else {
        decimal_text(n / 10).push((((n % 10) + 48) as u8) as char)
    }
}

/// Whether `r` hands out `token`, as decimal text.
pub open spec fn hands_out(r: Result<AuthResponse, InternalError>, token: u128) -> bool {
    match r {
        Ok(AuthResponse::Authenticated { token: t }) => t@ == decimal_text(token as nat),
        _ => false,
    }
}

/// What `bcrypt::verify` answers for a password and a stored hash: whether
/// they match, or `None` where the hash cannot be read.
pub uninterp spec fn bcrypt_verdict(password: Seq<char>, hash: Seq<char>) -> Option<bool>;

/// Relies on `bcrypt::hash` with `bcrypt::DEFAULT_COST`: a salted hash of the
/// password, under a random salt. Nothing is known of the text.
#[verifier::external_body]
fn bcrypt_hash(password: &str) -> (r: Option<String>) {
    bcrypt::hash(password, bcrypt::DEFAULT_COST).ok()
}

/// Relies on `bcrypt::verify`: its answer depends on the password and the
/// hash alone.
#[verifier::external_body]
fn bcrypt_verify(password: &str, hash: &str) -> (r: Option<bool>)
    ensures
        r == bcrypt_verdict(password@, hash@),
{
    bcrypt::verify(password, hash).ok()
}

/// Relies on `u128`'s `ToString`: the decimal text of the value.
#[verifier::external_body]
fn u128_text(n: u128) -> (r: String)
    ensures
        r@ == decimal_text(n as nat),
{
    n.to_string()
}

/// Checks an account request: `Some` with the refusal, or `None` where it
/// may go on.
pub fn user_create_check(req: &CreateUserRequest) -> (r: Option<CreateUserResponse>)
    ensures
        r == create_user_rejection(req.spec_username(), req.spec_password()),
{
    if req.username().is_empty() {
        Some(CreateUserResponse::InvalidUsername)
    } else if req.password().is_empty() {
        Some(CreateUserResponse::InvalidPassword)
    } else {
        None
    }
}

/// The record to insert for an account request: the username with a salted
/// hash of the password.
pub fn prepare_user(req: &CreateUserRequest) -> (r: Result<InsUser, PrepareUserError>)
    ensures
        create_user_rejection(req.spec_username(), req.spec_password()) matches Some(a) ==> r
            == Err::<InsUser, PrepareUserError>(PrepareUserError::Rejected(a)),
        create_user_rejection(req.spec_username(), req.spec_password()).is_none() ==> (r
            matches Ok(u) ==> u.username@ == req.spec_username()) && (r matches Err(e) ==> e
            == PrepareUserError::HashFailed),
{
    if let Some(a) = user_create_check(req) {
        return Err(PrepareUserError::Rejected(a));
    }
    match bcrypt_hash(req.password()) {
        None => Err(PrepareUserError::HashFailed),
        Some(passhash) => Ok(InsUser::new(req.username().to_owned(), passhash)),
    }
}

/// The answer to an account request once the insert has run: created for
/// exactly one row, unavailable for a taken username, and an internal
/// error otherwise.
pub fn user_insert_reply(outcome: InsertOutcome) -> (r: Result<CreateUserResponse, InternalError>)
    ensures
        r == match outcome {
            InsertOutcome::Rows(n) => if n == 1 {
                Ok::<CreateUserResponse, InternalError>(CreateUserResponse::Created)
            } else {
                Err(InternalError)
            },
            InsertOutcome::UniqueViolation => Ok(CreateUserResponse::UnavailableUsername),
            InsertOutcome::Failed => Err(InternalError),
        },
{
    match outcome {
        InsertOutcome::Rows(n) => if n == 1 {
            Ok(CreateUserResponse::Created)
        } else {
            Err(InternalError)
        },
        InsertOutcome::UniqueViolation => Ok(CreateUserResponse::UnavailableUsername),
        InsertOutcome::Failed => Err(InternalError),
    }
}

/// Whether a token request may go on to the store: both the username and
/// the password are non-empty.
pub fn auth_check(req: &AuthRequest) -> (r: bool)
    ensures
        r == (req.spec_username().len() > 0 && req.spec_password().len() > 0),
{
    !req.username().is_empty() && !req.password().is_empty()
}

/// The one user that a lookup by username found: `None` for no user, an
/// internal error for more than one.
pub fn pick_user(users: Vec<DbUser>) -> (r: Result<Option<DbUser>, InternalError>)
    ensures
        users@.len() == 0 ==> r == Ok::<Option<DbUser>, InternalError>(None),
        users@.len() == 1 ==> r == Ok::<Option<DbUser>, InternalError>(Some(users@[0])),
        users@.len() > 1 ==> r == Err::<Option<DbUser>, InternalError>(InternalError),
{
    let mut users = users;
    if users.len() == 0 {
        Ok(None)
    } else if users.len() == 1 {
        Ok(Some(users.remove(0)))
    } else {
        Err(InternalError)
    }
}

/// The answer to a token request once the password check has run: a match
/// registers `token` for the user and hands it out as decimal text; a
/// mismatch is refused; an unreadable hash is an internal error.
pub fn auth_reply(state: &mut State, user_id: i32, verdict: Option<bool>, token: u128) -> (r:
    Result<AuthResponse, InternalError>)
    ensures
        verdict == Some(true) ==> {
            &&& final(state).tokens() == old(state).tokens().insert(token, user_id)
            &&& hands_out(r, token)
        },
        verdict == Some(false) ==> {
            &&& final(state).tokens() == old(state).tokens()
            &&& r == Ok::<AuthResponse, InternalError>(AuthResponse::InvalidCredentials)
        },
        verdict.is_none() ==> {
            &&& final(state).tokens() == old(state).tokens()
            &&& r == Err::<AuthResponse, InternalError>(InternalError)
        },
{
    match verdict {
        Some(true) => {
            state.register_token(token, user_id);
            Ok(AuthResponse::Authenticated { token: u128_text(token) })
        },
        Some(false) => Ok(AuthResponse::InvalidCredentials),
        None => Err(InternalError),
    }
}

/// Checks the password against the user's stored hash and, on a match,
/// issues a fresh random token to the user.
pub fn authenticate(state: &mut State, user: &DbUser, password: &str) -> (r: Result<
    AuthResponse,
    InternalError,
>)
    ensures
        bcrypt_verdict(password@, user.passhash@) == Some(true) ==> exists|token: u128|
            {
                &&& final(state).tokens() == old(state).tokens().insert(token, user.id)
                &&& #[trigger] hands_out(r, token)
            },
        bcrypt_verdict(password@, user.passhash@) == Some(false) ==> {
            &&& final(state).tokens() == old(state).tokens()
            &&& r == Ok::<AuthResponse, InternalError>(AuthResponse::InvalidCredentials)
        },
        bcrypt_verdict(password@, user.passhash@).is_none() ==> {
            &&& final(state).tokens() == old(state).tokens()
            &&& r == Err::<AuthResponse, InternalError>(InternalError)
        },
{
    let verdict = bcrypt_verify(password, user.passhash.as_str());
    let token: u128 = rand::random::<u128>();
    auth_reply(state, user.id, verdict, token)
}

} // verus!
