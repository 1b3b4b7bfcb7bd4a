//! The account service: registration (uniqueness check, hash, persist) and
//! login (lookup, verify, token issuance). The clock and the signing secret
//! come in explicitly; the store is the in-memory document model.

use vstd::prelude::*;
use crate::auth_middleware::{decoded_claims, token_carries};
use crate::errors::ServiceError;
use crate::ids::id_view;
use crate::password::{bcrypt_hash_shaped, bcrypt_verify_result, hash_password, verify_password};
use crate::store::{has_user_with_email, Store};
use crate::user_model::UserView;

verus! {

/// The fixed validity window of an issued token: 24 hours, in seconds.
pub const TOKEN_VALIDITY_SECONDS: u64 = 86400;

#[derive(Debug)]
pub struct RegisterRequest {
    pub username: String,
    pub email: String,
    pub password: String,
}

#[derive(Debug)]
pub struct LoginRequest {
    pub email: String,
    pub password: String,
}

/// The claim set embedded in an issued token.
#[derive(Debug)]
pub struct JWTClaims {
    pub user_id: String,
    pub username: String,
    pub exp: u64,
    pub iat: u64,
}

/// The registration reply: a message, and the created identifier on success.
#[derive(Debug)]
pub struct AuthResponse {
    pub msg: String,
    pub id: Option<String>,
}

/// The login reply: a message, the user's identifier, and the signed token.
#[derive(Debug)]
pub struct LoginResponse {
    pub msg: String,
    pub user_id: String,
    pub token: String,
}

/// Relies on chrono::Utc::now: whole seconds since the Unix epoch. The value
/// depends on the clock; only its range is stated, from the clamping in the
/// conversion itself.
#[verifier::external_body]
pub(crate) fn current_unix_seconds() -> (r: u64)
    ensures
        r <= 0x7fff_ffff_ffff_ffff,
{
    u64::try_from(chrono::Utc::now().timestamp()).unwrap_or(0)
}

/// Relies on jsonwebtoken::encode and jsonwebtoken::decode (HS256 with a
/// secret key). On this path encode cannot fail: the key's family matches
/// the default header's algorithm, the HMAC signer accepts a key of any
/// length and always signs, and serializing these claim values cannot fail.
/// The token it signs carries exactly the claims given to it, so decoding it
/// under the same secret recovers them.
#[verifier::external_body]
fn encode_token(claims: &JWTClaims, secret: &str) -> (t: String)
    ensures
        decoded_claims(t@, secret@) == Some(
            (claims.user_id@, claims.username@, claims.exp, claims.iat),
        ),
{
    let mut m = serde_json::Map::new();
    m.insert("user_id".to_string(), serde_json::Value::from(claims.user_id.clone()));
    m.insert("username".to_string(), serde_json::Value::from(claims.username.clone()));
    m.insert("exp".to_string(), serde_json::Value::from(claims.exp));
    m.insert("iat".to_string(), serde_json::Value::from(claims.iat));
    let key = jsonwebtoken::EncodingKey::from_secret(secret.as_bytes());
    jsonwebtoken::encode(&jsonwebtoken::Header::default(), &serde_json::Value::Object(m), &key)
        .expect("HS256 encoding with a secret key cannot fail")
}

/// Issues a signed identity token at time `now`: issued-at `now`, expiry the
/// fixed window later.
pub fn issue_token(user_id: &String, username: &String, now: u64, secret: &str) -> (t: String)
    requires
        now <= u64::MAX - TOKEN_VALIDITY_SECONDS,
    ensures
        token_carries(
            t@,
            secret@,
            user_id@,
            username@,
            now,
            (now + TOKEN_VALIDITY_SECONDS) as u64,
        ),
{
    let claims = JWTClaims {
        user_id: user_id.clone(),
        username: username.clone(),
        exp: now + TOKEN_VALIDITY_SECONDS,
        iat: now,
    };
    encode_token(&claims, secret)
}

/// `token` was issued for the identity at some clock reading `t`: it carries
/// the identity's claims with issued-at `t` and expiry the fixed window
/// later.
pub open spec fn token_issued_at(
    token: Seq<char>,
    secret: Seq<char>,
    user_id: Seq<char>,
    username: Seq<char>,
    t: u64,
) -> bool {
    t <= 0x7fff_ffff_ffff_ffff && token_carries(
        token,
        secret,
        user_id,
        username,
        t,
        (t + TOKEN_VALIDITY_SECONDS) as u64,
    )
}


/// The registration input check: the error owed when any field is empty.
pub fn register_input_error(username: &String, email: &String, password: &String) -> (r: Option<
    ServiceError,
>)
    ensures
        r == if username@.len() == 0 || email@.len() == 0 || password@.len() == 0 {
            Some(ServiceError::EmptyRegisterFields)
        } else {
            None::<ServiceError>
        },
{
    if username.as_str().is_empty() || email.as_str().is_empty() || password.as_str().is_empty() {
        Some(ServiceError::EmptyRegisterFields)
    } else {
        None
    }
}

/// The login input check: the error owed when either field is empty.
pub fn login_input_error(email: &String, password: &String) -> (r: Option<ServiceError>)
    ensures
        r == if email@.len() == 0 || password@.len() == 0 {
            Some(ServiceError::EmptyLoginFields)
        } else {
            None::<ServiceError>
        },
{
    if email.as_str().is_empty() || password.as_str().is_empty() {
        Some(ServiceError::EmptyLoginFields)
    } else {
        None
    }
}

/// Registration: rejects empty fields, refuses an email some user already
/// holds, hashes the password, and persists a new user record with an empty
/// task set, returning the created identifier. The stored credential is a
/// 60-character bcrypt hash, never the raw password.
pub fn register(store: &mut Store, req: RegisterRequest) -> (r: Result<AuthResponse, ServiceError>)
    requires
        old(store).wf(),
        old(store).next_id < u64::MAX,
    ensures
        final(store).wf(),
        r is Err ==> *final(store) == *old(store),
        r == Err::<AuthResponse, ServiceError>(ServiceError::EmptyRegisterFields) <==> (
        req.username@.len() == 0 || req.email@.len() == 0 || req.password@.len() == 0),
        r == Err::<AuthResponse, ServiceError>(ServiceError::EmailExists) <==> (req.username@.len()
            > 0 && req.email@.len() > 0 && req.password@.len() > 0 && has_user_with_email(
            old(store).users_view(),
            req.email@,
        )),
        r is Err ==> (r == Err::<AuthResponse, ServiceError>(ServiceError::EmptyRegisterFields) || r
            == Err::<AuthResponse, ServiceError>(ServiceError::EmailExists) || r == Err::<
            AuthResponse,
            ServiceError,
        >(ServiceError::HashingFailed)),
        r == Err::<AuthResponse, ServiceError>(ServiceError::HashingFailed) ==> (req.username@.len()
            > 0 && req.email@.len() > 0 && req.password@.len() > 0 && !has_user_with_email(
            old(store).users_view(),
            req.email@,
        )),
        r matches Ok(a) ==> ({
            &&& req.username@.len() > 0 && req.email@.len() > 0 && req.password@.len() > 0
            &&& !has_user_with_email(old(store).users_view(), req.email@)
            &&& exists|h: Seq<char>|
                #[trigger] bcrypt_verify_result(req.password@, h) == Some(true)
                    && bcrypt_hash_shaped(h) && final(store).users_view() == old(
                    store,
                ).users_view().push(
                    UserView {
                        user_id: id_view(old(store).next_id),
                        username: req.username@,
                        email: req.email@,
                        password: h,
                        tasks: Seq::empty(),
                    },
                )
            &&& final(store).tasks_view() == old(store).tasks_view()
            &&& final(store).next_id == old(store).next_id + 1
            &&& a.id matches Some(s) && s@ == id_view(old(store).next_id)
            &&& a.msg@ == "User created Successfully"@
        }),
{
    match register_input_error(&req.username, &req.email, &req.password) {
        Some(e) => {
            return Err(e);
        },
        None => {},
    }
    match store.find_user_by_email(&req.email) {
        Some(_) => {
            return Err(ServiceError::EmailExists);
        },
        None => {},
    }
    let hashed = match hash_password(&req.password) {
        Some(h) => h,
        None => {
            return Err(ServiceError::HashingFailed);
        },
    };
    let ghost hview = hashed@;
    let id = store.insert_user(req.username, req.email, hashed);
    proof {
        assert(bcrypt_verify_result(req.password@, hview) == Some(true) && bcrypt_hash_shaped(
            hview,
        ));
    }
    Ok(AuthResponse { msg: "User created Successfully".to_owned(), id: Some(id) })
}

/// Login at an explicit time `now`: rejects empty fields, looks the user up
/// by email, verifies the password against the stored hash, and on a match
/// issues a token carrying the user's identity, issued at `now` with the
/// fixed 24-hour window. Success is owed exactly when some user holds the
/// email and the password verifies against that user's stored hash.
pub fn login_at(store: &Store, req: &LoginRequest, now: u64, secret: &str) -> (r: Result<
    LoginResponse,
    ServiceError,
>)
    requires
        store.wf(),
        now <= u64::MAX - TOKEN_VALIDITY_SECONDS,
    ensures
        r == Err::<LoginResponse, ServiceError>(ServiceError::EmptyLoginFields) <==> (
        req.email@.len() == 0 || req.password@.len() == 0),
        r == Err::<LoginResponse, ServiceError>(ServiceError::UserNotFound) <==> (req.email@.len()
            > 0 && req.password@.len() > 0 && !has_user_with_email(store.users_view(), req.email@)),
        r == Err::<LoginResponse, ServiceError>(ServiceError::VerificationFailed) <==> (
        req.email@.len() > 0 && req.password@.len() > 0 && exists|i: int|
            #![auto]
            0 <= i < store.users_view().len() && store.users_view()[i].email == req.email@
                && bcrypt_verify_result(req.password@, store.users_view()[i].password) is None),
        r == Err::<LoginResponse, ServiceError>(ServiceError::WrongPassword) <==> (req.email@.len()
            > 0 && req.password@.len() > 0 && exists|i: int|
            #![auto]
            0 <= i < store.users_view().len() && store.users_view()[i].email == req.email@
                && bcrypt_verify_result(req.password@, store.users_view()[i].password) == Some(
                false,
            )),
        r is Ok <==> (req.email@.len() > 0 && req.password@.len() > 0 && exists|i: int|
            #![auto]
            0 <= i < store.users_view().len() && store.users_view()[i].email == req.email@
                && bcrypt_verify_result(req.password@, store.users_view()[i].password) == Some(
                true,
            )),
        r is Err ==> (r == Err::<LoginResponse, ServiceError>(ServiceError::EmptyLoginFields) || r
            == Err::<LoginResponse, ServiceError>(ServiceError::UserNotFound) || r == Err::<
            LoginResponse,
            ServiceError,
        >(ServiceError::VerificationFailed) || r == Err::<LoginResponse, ServiceError>(
            ServiceError::WrongPassword,
        )),
        r matches Ok(resp) ==> (exists|i: int|
            #![auto]
            {
                &&& 0 <= i < store.users_view().len()
                &&& store.users_view()[i].email == req.email@
                &&& bcrypt_verify_result(req.password@, store.users_view()[i].password) == Some(
                    true,
                )
                &&& resp.user_id@ == store.users_view()[i].user_id
                &&& token_carries(
                    resp.token@,
                    secret@,
                    store.users_view()[i].user_id,
                    store.users_view()[i].username,
                    now,
                    (now + TOKEN_VALIDITY_SECONDS) as u64,
                )
                &&& resp.msg@ == "Login Successful"@
            }),
{
    match login_input_error(&req.email, &req.password) {
        Some(e) => {
            return Err(e);
        },
        None => {},
    }
    let idx = match store.find_user_by_email(&req.email) {
        None => {
            return Err(ServiceError::UserNotFound);
        },
        Some(i) => i,
    };
    proof {
        assert forall|i: int|
            0 <= i < store.users_view().len() && store.users_view()[i].email
                == req.email@ implies i == idx as int by {
            if i != idx as int {
                assert(store.users_view()[i].email != store.users_view()[idx as int].email);
            }
        }
    }
    let user = &store.users[idx];
    match verify_password(&req.password, &user.password) {
        None => Err(ServiceError::VerificationFailed),
        Some(false) => Err(ServiceError::WrongPassword),
        Some(true) => {
            let token = issue_token(&user.user_id, &user.username, now, secret);
            Ok(
                LoginResponse {
                    msg: "Login Successful".to_owned(),
                    user_id: user.user_id.clone(),
                    token,
                },
            )
        },
    }
}

/// Login against the process clock: reads the time once and runs `login_at`
/// with it. All clauses that do not depend on the clock carry over; only the
/// token's issued-at is existentially bound to the clock reading.
pub fn login(store: &Store, req: &LoginRequest, secret: &str) -> (r: Result<
    LoginResponse,
    ServiceError,
>)
    requires
        store.wf(),
    ensures
        r == Err::<LoginResponse, ServiceError>(ServiceError::EmptyLoginFields) <==> (
        req.email@.len() == 0 || req.password@.len() == 0),
        r == Err::<LoginResponse, ServiceError>(ServiceError::UserNotFound) <==> (req.email@.len()
            > 0 && req.password@.len() > 0 && !has_user_with_email(store.users_view(), req.email@)),
        r == Err::<LoginResponse, ServiceError>(ServiceError::VerificationFailed) <==> (
        req.email@.len() > 0 && req.password@.len() > 0 && exists|i: int|
            #![auto]
            0 <= i < store.users_view().len() && store.users_view()[i].email == req.email@
                && bcrypt_verify_result(req.password@, store.users_view()[i].password) is None),
        r == Err::<LoginResponse, ServiceError>(ServiceError::WrongPassword) <==> (req.email@.len()
            > 0 && req.password@.len() > 0 && exists|i: int|
            #![auto]
            0 <= i < store.users_view().len() && store.users_view()[i].email == req.email@
                && bcrypt_verify_result(req.password@, store.users_view()[i].password) == Some(
                false,
            )),
        r is Ok <==> (req.email@.len() > 0 && req.password@.len() > 0 && exists|i: int|
            #![auto]
            0 <= i < store.users_view().len() && store.users_view()[i].email == req.email@
                && bcrypt_verify_result(req.password@, store.users_view()[i].password) == Some(
                true,
            )),
        r is Err ==> (r == Err::<LoginResponse, ServiceError>(ServiceError::EmptyLoginFields) || r
            == Err::<LoginResponse, ServiceError>(ServiceError::UserNotFound) || r == Err::<
            LoginResponse,
            ServiceError,
        >(ServiceError::VerificationFailed) || r == Err::<LoginResponse, ServiceError>(
            ServiceError::WrongPassword,
        )),
        r matches Ok(resp) ==> (exists|i: int, t: u64|
            {
                &&& 0 <= i < store.users_view().len()
                &&& store.users_view()[i].email == req.email@
                &&& bcrypt_verify_result(req.password@, store.users_view()[i].password) == Some(
                    true,
                )
                &&& resp.user_id@ == store.users_view()[i].user_id
                &&& #[trigger] token_issued_at(
                    resp.token@,
                    secret@,
                    store.users_view()[i].user_id,
                    store.users_view()[i].username,
                    t,
                )
                &&& resp.msg@ == "Login Successful"@
            }),
{
    let now = current_unix_seconds();
    let r = login_at(store, req, now, secret);
    proof {
        if r is Ok {
            let resp = r->Ok_0;
            let i = choose|i: int|
                #![auto]
                0 <= i < store.users_view().len() && store.users_view()[i].email == req.email@
                    && bcrypt_verify_result(req.password@, store.users_view()[i].password) == Some(
                    true,
                ) && resp.user_id@ == store.users_view()[i].user_id && token_carries(
                    resp.token@,
                    secret@,
                    store.users_view()[i].user_id,
                    store.users_view()[i].username,
                    now,
                    (now + TOKEN_VALIDITY_SECONDS) as u64,
                ) && resp.msg@ == "Login Successful"@;
            assert(token_issued_at(
                resp.token@,
                secret@,
                store.users_view()[i].user_id,
                store.users_view()[i].username,
                now,
            ));
        }
    }
    r
}

} // verus!
