//! Auth service and request gate: registration, login, and resolution of a
//! bearer token to a stored user.
//!
//! Each workflow comes in two parts: decisions that take what a credential
//! store lookup returned, and the whole workflow over a [`UserStore`].

use vstd::prelude::*;
use crate::error::AuthError;
use crate::hasher::{hash_password, hashes_password, password_check, verify_password};
use crate::model::{AuthPayload, LoginResponse, NewUser, User};
use crate::store::{email_taken, id_taken, user_with_email, user_with_id, users_unique, UserStore};
use crate::token::{
    carries_claims, create_jwt, issued_token, lemma_token_lifetime, token_binds, token_verdict, verify_jwt,
    TOKEN_LIFETIME,
};

verus! {

/// Both the email and the password are non-empty.
pub open spec fn credentials_present(email: Seq<char>, password: Seq<char>) -> bool {
    email.len() > 0 && password.len() > 0
}

/// The failure of a login whose lookup by email found `found`, before any
/// token is issued; `None` when the password matches.
pub open spec fn login_refusal_for(found: Option<User>, password: Seq<char>) -> Option<AuthError> {
    match found {
        None => Some(AuthError::UserNotFound),
        Some(u) => match password_check(password, u.password@) {
            Err(e) => Some(e),
            Ok(ok) => if ok {
                None
            } else {
                Some(AuthError::Unauthorized)
            },
        },
    }
}

/// The failure of a registration against the stored `users`, decided before
/// hashing; `None` when registration goes on.
pub open spec fn register_refusal(users: Seq<User>, email: Seq<char>, password: Seq<char>) -> Option<AuthError> {
    if !credentials_present(email, password) {
        Some(AuthError::MissingCredentials)
    } else if email_taken(users, email) {
        Some(AuthError::UserExists)
    } else {
        None
    }
}

/// The failure of a login against the stored `users`, decided before a
/// token is issued; `None` when the credentials are right.
pub open spec fn login_refusal(users: Seq<User>, email: Seq<char>, password: Seq<char>) -> Option<AuthError> {
    if !credentials_present(email, password) {
        Some(AuthError::MissingCredentials)
    } else {
        login_refusal_for(user_with_email(users, email), password)
    }
}

/// `resp` holds the token issued at `now` under `secret` for `resp.user`:
/// its claims are the user's UUID text and `now` plus seven days.
pub open spec fn issued_for(resp: LoginResponse, secret: Seq<char>, now: i64) -> bool {
    resp.token@ == issued_token(resp.user.id, secret, now) && (now + TOKEN_LIFETIME >= 0 ==> (
    carries_claims(resp.token@, secret, resp.user.id, (now + TOKEN_LIFETIME) as i64)
        && token_binds(resp.token@, secret, resp.user.id, (now + TOKEN_LIFETIME) as i64)))
}

/// Rejects empty credentials before any store access.
pub fn check_payload(payload: &AuthPayload) -> (r: Result<(), AuthError>)
    ensures
        r is Ok <==> credentials_present(payload.email@, payload.password@),
        r is Err ==> r == Err::<(), AuthError>(AuthError::MissingCredentials),
{
    if payload.email.as_str().is_empty() || payload.password.as_str().is_empty() {
        Err(AuthError::MissingCredentials)
    } else {
        Ok(())
    }
}

/// Registration after the lookup by email: a found user is a conflict;
/// otherwise the password is hashed, with the work factor `cost`, into the
/// record to insert.
pub fn prepare_user(payload: &AuthPayload, found: &Option<User>, cost: u32) -> (r: Result<NewUser, AuthError>)
    ensures
        found is Some ==> r == Err::<NewUser, AuthError>(AuthError::UserExists),
        found is None && !(4 <= cost <= 31) ==> r == Err::<NewUser, AuthError>(
            AuthError::InternalServerError,
        ),
        found is None ==> match r {
            Ok(n) => n.email == payload.email && hashes_password(payload.password@, n.password@),
            Err(e) => e == AuthError::InternalServerError,
        },
{
    if found.is_some() {
        return Err(AuthError::UserExists);
    }
    let hash = hash_password(payload.password.as_str(), cost)?;
    Ok(NewUser { email: payload.email.clone(), password: hash })
}

/// Login after the lookup by email: no user is `UserNotFound`, a wrong
/// password `Unauthorized`; otherwise a token is issued at `now` for the user.
pub fn finish_login(payload: &AuthPayload, found: Option<User>, secret: &str, now: i64) -> (r: Result<LoginResponse, AuthError>)
    requires
        now <= i64::MAX - TOKEN_LIFETIME,
    ensures
        match login_refusal_for(found, payload.password@) {
            Some(e) => r == Err::<LoginResponse, AuthError>(e),
            None => r is Ok && Some(r->Ok_0.user) == found && issued_for(r->Ok_0, secret@, now),
        },
{
    let user = match found {
        None => return Err(AuthError::UserNotFound),
        Some(u) => u,
    };
    let ok = verify_password(payload.password.as_str(), user.password.as_str())?;
    if !ok {
        return Err(AuthError::Unauthorized);
    }
    let token = create_jwt(&user, secret, now)?;
    Ok(LoginResponse { token, user })
}

/// Resolves the stored user looked up by a validated token's user id; a
/// user that does not exist (any more) is `Unauthorized`, not a server error.
pub fn identity(found: Option<User>) -> (r: Result<User, AuthError>)
    ensures
        match found {
            Some(u) => r == Ok::<User, AuthError>(u),
            None => r == Err::<User, AuthError>(AuthError::Unauthorized),
        },
{
    match found {
        Some(u) => Ok(u),
        None => Err(AuthError::Unauthorized),
    }
}

/// Registers a user with the id `id` at the instant `now`, hashing the
/// password with the work factor `cost`. Empty credentials
/// fail with `MissingCredentials` and a stored email with `UserExists`,
/// before any hashing; the store changes only on success, by one user that
/// carries the email and a hash of the password.
pub fn register(store: &mut UserStore, payload: &AuthPayload, id: u128, now: i64, cost: u32) -> (r: Result<User, AuthError>)
    requires
        old(store).wf(),
    ensures
        final(store).wf(),
        match register_refusal(old(store)@, payload.email@, payload.password@) {
            Some(e) => r == Err::<User, AuthError>(e) && final(store)@ == old(store)@,
            None => (!(4 <= cost <= 31) ==> r == Err::<User, AuthError>(
                AuthError::InternalServerError,
            )) && match r {
                Ok(u) => u.id == id && !id_taken(old(store)@, id) && u.email == payload.email
                    && u.created_at == now
                    && hashes_password(payload.password@, u.password@) && final(store)@ == old(
                    store,
                )@.push(u),
                Err(e) => final(store)@ == old(store)@ && (e == AuthError::InternalServerError || (
                e is DatabaseError && id_taken(old(store)@, id))),
            },
        },
{
    check_payload(payload)?;
    let found = store.get_user_by_email(&payload.email);
    let new_user = prepare_user(payload, &found, cost)?;
    store.create_user(new_user, id, now)
}

/// Logs in at the instant `now`: empty credentials fail with
/// `MissingCredentials`, an unknown email with `UserNotFound`, a wrong
/// password with `Unauthorized`; otherwise the stored user and a token for it
/// that expires seven days later.
pub fn login(store: &UserStore, payload: &AuthPayload, secret: &str, now: i64) -> (r: Result<LoginResponse, AuthError>)
    requires
        store.wf(),
        now <= i64::MAX - TOKEN_LIFETIME,
    ensures
        match login_refusal(store@, payload.email@, payload.password@) {
            Some(e) => r == Err::<LoginResponse, AuthError>(e),
            None => r is Ok && user_with_email(store@, payload.email@) == Some(r->Ok_0.user)
                && issued_for(r->Ok_0, secret@, now),
        },
{
    check_payload(payload)?;
    let found = store.get_user_by_email(&payload.email);
    finish_login(payload, found, secret, now)
}

/// Resolves a bearer token at the instant `now` to the stored user it names.
/// An invalid or expired token fails as validation says; a subject with no
/// stored user fails with `Unauthorized`.
pub fn auth_midd(store: &UserStore, token: &str, secret: &str, now: i64) -> (r: Result<User, AuthError>)
    requires
        store.wf(),
    ensures
        match token_verdict(token@, secret@, now) {
            Err(e) => r == Err::<User, AuthError>(e),
            Ok(id) => match user_with_id(store@, id) {
                Some(u) => r == Ok::<User, AuthError>(u),
                None => r == Err::<User, AuthError>(AuthError::Unauthorized),
            },
        },
{
    let id = verify_jwt(token, secret, now)?;
    identity(store.get_user_by_id(id))
}

/// In a store without shared emails, a stored user is the one found by its
/// email.
proof fn lemma_found_by_email(users: Seq<User>, u: User)
    requires
        users_unique(users),
        users.contains(u),
    ensures
        user_with_email(users, u.email@) == Some(u),
{
    let i = choose|i: int| 0 <= i < users.len() && users[i] == u;
    assert(email_taken(users, u.email@)) by {
        assert(users[i].email@ == u.email@);
    }
    let k = choose|k: int| 0 <= k < users.len() && (#[trigger] users[k]).email@ == u.email@;
    if k != i {
        assert(users[k].email@ != users[i].email@);
    }
}

/// Registration succeeds exactly once per email: on a fresh store nothing
/// refuses non-empty credentials, and once a user with an email is stored,
/// every further registration with that email fails with `UserExists`,
/// whatever its password.
pub proof fn lemma_register_exactly_once(
    users: Seq<User>,
    u: User,
    email: Seq<char>,
    password: Seq<char>,
    other_password: Seq<char>,
)
    requires
        credentials_present(email, password),
        credentials_present(email, other_password),
        u.email@ == email,
    ensures
        register_refusal(Seq::<User>::empty(), email, password) is None,
        register_refusal(users.push(u), email, other_password) == Some(AuthError::UserExists),
{
    assert(users.push(u)[users.len() as int] == u);
}

/// A stored user who logs in with the password its hash was made from is
/// refused by nothing and gets a token for itself, which validation resolves
/// to that user's id until it expires; with a password that the hash
/// rejects, login fails with `Unauthorized`.
pub proof fn lemma_login_resolves_to_user(
    users: Seq<User>,
    u: User,
    password: Seq<char>,
    wrong_password: Seq<char>,
    token: Seq<char>,
    secret: Seq<char>,
    issued_at: i64,
    now: i64,
)
    requires
        users_unique(users),
        users.contains(u),
        credentials_present(u.email@, password),
        credentials_present(u.email@, wrong_password),
        hashes_password(password, u.password@),
        password_check(wrong_password, u.password@) == Ok::<bool, AuthError>(false),
        issued_at <= i64::MAX - TOKEN_LIFETIME,
    ensures
        login_refusal(users, u.email@, password) is None,
        user_with_email(users, u.email@) == Some(u),
        login_refusal(users, u.email@, wrong_password) == Some(AuthError::Unauthorized),
        issued_at <= now < issued_at + TOKEN_LIFETIME && token_binds(
            token,
            secret,
            u.id,
            (issued_at + TOKEN_LIFETIME) as i64,
        ) ==> token_verdict(token, secret, now) == Ok::<u128, AuthError>(u.id),
{
    lemma_found_by_email(users, u);
    if issued_at <= now < issued_at + TOKEN_LIFETIME && token_binds(
        token,
        secret,
        u.id,
        (issued_at + TOKEN_LIFETIME) as i64,
    ) {
        lemma_token_lifetime(token, secret, u.id, issued_at, now);
    }
}

/// The token of a successful login at `issued_at` resolves, under the same
/// secret, to the logged-in user's id at every instant from `issued_at` until
/// seven days later.
pub proof fn lemma_login_token_resolves(resp: LoginResponse, secret: Seq<char>, issued_at: i64, now: i64)
    requires
        -TOKEN_LIFETIME <= issued_at <= i64::MAX - TOKEN_LIFETIME,
        issued_for(resp, secret, issued_at),
        issued_at <= now < issued_at + TOKEN_LIFETIME,
    ensures
        token_verdict(resp.token@, secret, now) == Ok::<u128, AuthError>(resp.user.id),
{
    lemma_token_lifetime(resp.token@, secret, resp.user.id, issued_at, now);
}

/// A login with an email that no stored user has fails with `UserNotFound`,
/// whatever the (non-empty) password.
pub proof fn lemma_login_unknown_email(users: Seq<User>, email: Seq<char>, password: Seq<char>)
    requires
        !email_taken(users, email),
        credentials_present(email, password),
    ensures
        login_refusal(users, email, password) == Some(AuthError::UserNotFound),
{
}

} // verus!
