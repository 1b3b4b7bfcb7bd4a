//! The failure taxonomy of the service: every error a service call can
//! surface, one variant per condition, with its failure class, transport
//! status code, and client-facing message.

use vstd::prelude::*;

verus! {

/// The four failure classes: invalid client input, a missing or refused
/// credential (or an ownership violation), an absent entity, and a server-side
/// failure whose detail is never echoed to the client.
#[derive(Clone, Copy, Debug, PartialEq, Eq, Structural)]
pub enum ErrorKind {
    BadRequest,
    Unauthorized,
    NotFound,
    Internal,
}

/// Every failure a service call can return.
#[derive(Clone, Copy, Debug, PartialEq, Eq, Structural)]
pub enum ServiceError {
    /// Registration with an empty username, email, or password.
    EmptyRegisterFields,
    /// Registration with an email some user already holds.
    EmailExists,
    /// Login with an empty email or password.
    EmptyLoginFields,
    /// Login with an email no user holds.
    UserNotFound,
    /// Login with a password that does not match the stored hash.
    WrongPassword,
    /// The password check itself failed on a malformed stored hash.
    VerificationFailed,
    /// Hashing a new password failed inside the hashing library.
    HashingFailed,
    /// Token issuance was refused: the clock reading left no room for the
    /// validity window.
    TokenSigningFailed,
    /// A protected route was called without an authorization header.
    MissingAuthHeader,
    /// The authorization header does not carry the bearer scheme.
    MalformedAuthHeader,
    /// The bearer token did not validate.
    InvalidToken,
    /// Task creation with an empty task name.
    EmptyTaskName,
    /// The identity's user id is not a well-formed identifier, caught when
    /// a freshly created task is linked to its owner.
    InvalidUserIdFormat,
    /// The identity's user id is not a well-formed identifier, caught at
    /// task enumeration.
    InvalidUserId,
    /// Task update with an empty task id, name, or status.
    EmptyTaskFields,
    /// Task update with a task id that is not a well-formed identifier.
    InvalidTaskId,
    /// Task update by an identity that does not own the task.
    NotTaskOwner,
    /// Task update of an id no task holds.
    TaskNotFound,
    /// Task enumeration for an identity whose user record is absent.
    NoSuchUser,
}

impl ServiceError {
    /// The failure class of this error.
    pub open spec fn kind_spec(self) -> ErrorKind {
        match self {
            ServiceError::EmptyRegisterFields => ErrorKind::BadRequest,
            ServiceError::EmailExists => ErrorKind::BadRequest,
            ServiceError::EmptyLoginFields => ErrorKind::BadRequest,
            ServiceError::UserNotFound => ErrorKind::Unauthorized,
            ServiceError::WrongPassword => ErrorKind::BadRequest,
            ServiceError::VerificationFailed => ErrorKind::Internal,
            ServiceError::HashingFailed => ErrorKind::Internal,
            ServiceError::TokenSigningFailed => ErrorKind::Internal,
            ServiceError::MissingAuthHeader => ErrorKind::Unauthorized,
            ServiceError::MalformedAuthHeader => ErrorKind::Unauthorized,
            ServiceError::InvalidToken => ErrorKind::Unauthorized,
            ServiceError::EmptyTaskName => ErrorKind::BadRequest,
            ServiceError::InvalidUserIdFormat => ErrorKind::BadRequest,
            ServiceError::InvalidUserId => ErrorKind::BadRequest,
            ServiceError::EmptyTaskFields => ErrorKind::BadRequest,
            ServiceError::InvalidTaskId => ErrorKind::BadRequest,
            ServiceError::NotTaskOwner => ErrorKind::Unauthorized,
            ServiceError::TaskNotFound => ErrorKind::NotFound,
            ServiceError::NoSuchUser => ErrorKind::NotFound,
        }
    }

    pub fn kind(&self) -> (k: ErrorKind)
        ensures
            k == self.kind_spec(),
    {
        match self {
            ServiceError::EmptyRegisterFields => ErrorKind::BadRequest,
            ServiceError::EmailExists => ErrorKind::BadRequest,
            ServiceError::EmptyLoginFields => ErrorKind::BadRequest,
            ServiceError::UserNotFound => ErrorKind::Unauthorized,
            ServiceError::WrongPassword => ErrorKind::BadRequest,
            ServiceError::VerificationFailed => ErrorKind::Internal,
            ServiceError::HashingFailed => ErrorKind::Internal,
            ServiceError::TokenSigningFailed => ErrorKind::Internal,
            ServiceError::MissingAuthHeader => ErrorKind::Unauthorized,
            ServiceError::MalformedAuthHeader => ErrorKind::Unauthorized,
            ServiceError::InvalidToken => ErrorKind::Unauthorized,
            ServiceError::EmptyTaskName => ErrorKind::BadRequest,
            ServiceError::InvalidUserIdFormat => ErrorKind::BadRequest,
            ServiceError::InvalidUserId => ErrorKind::BadRequest,
            ServiceError::EmptyTaskFields => ErrorKind::BadRequest,
            ServiceError::InvalidTaskId => ErrorKind::BadRequest,
            ServiceError::NotTaskOwner => ErrorKind::Unauthorized,
            ServiceError::TaskNotFound => ErrorKind::NotFound,
            ServiceError::NoSuchUser => ErrorKind::NotFound,
        }
    }

    /// The transport status code of a failure class.
    pub open spec fn status_of(k: ErrorKind) -> u16 {
        match k {
            ErrorKind::BadRequest => 400,
            ErrorKind::Unauthorized => 401,
            ErrorKind::NotFound => 404,
            ErrorKind::Internal => 500,
        }
    }

    pub fn status_code(&self) -> (c: u16)
        ensures
            c == ServiceError::status_of(self.kind_spec()),
    {
        match self.kind() {
            ErrorKind::BadRequest => 400,
            ErrorKind::Unauthorized => 401,
            ErrorKind::NotFound => 404,
            ErrorKind::Internal => 500,
        }
    }

    /// The client-facing message of this error; server-side detail is never
    /// included.
    pub open spec fn message_spec(self) -> Seq<char> {
        match self {
            ServiceError::EmptyRegisterFields => "The fields can't be empty"@,
            ServiceError::EmailExists => "The Email already exists"@,
            ServiceError::EmptyLoginFields => "All fields are required"@,
            ServiceError::UserNotFound => "User Not Found"@,
            ServiceError::WrongPassword => "Wrong Password"@,
            ServiceError::VerificationFailed => "Password Verification Failed"@,
            ServiceError::HashingFailed => "Internal Server Error"@,
            ServiceError::TokenSigningFailed => "Internal Server Error"@,
            ServiceError::MissingAuthHeader => "Missing or invalid authorization header"@,
            ServiceError::MalformedAuthHeader => "Invalid authorization header format"@,
            ServiceError::InvalidToken => "Invalid token"@,
            ServiceError::EmptyTaskName => "Task name cannot be empty"@,
            ServiceError::InvalidUserIdFormat => "Invalid user ID format"@,
            ServiceError::InvalidUserId => "Invalid user ID"@,
            ServiceError::EmptyTaskFields => "Task name and status and id are required"@,
            ServiceError::InvalidTaskId => "Invalid Task Id"@,
            ServiceError::NotTaskOwner => "Not authorized to update the task"@,
            ServiceError::TaskNotFound => "The task id is not valid or there is not task with this id"@,
            ServiceError::NoSuchUser => "User not found"@,
        }
    }

    pub fn message(&self) -> (m: String)
        ensures
            m@ == self.message_spec(),
    {
        match self {
            ServiceError::EmptyRegisterFields => "The fields can't be empty".to_owned(),
            ServiceError::EmailExists => "The Email already exists".to_owned(),
            ServiceError::EmptyLoginFields => "All fields are required".to_owned(),
            ServiceError::UserNotFound => "User Not Found".to_owned(),
            ServiceError::WrongPassword => "Wrong Password".to_owned(),
            ServiceError::VerificationFailed => "Password Verification Failed".to_owned(),
            ServiceError::HashingFailed => "Internal Server Error".to_owned(),
            ServiceError::TokenSigningFailed => "Internal Server Error".to_owned(),
            ServiceError::MissingAuthHeader => "Missing or invalid authorization header".to_owned(),
            ServiceError::MalformedAuthHeader => "Invalid authorization header format".to_owned(),
            ServiceError::InvalidToken => "Invalid token".to_owned(),
            ServiceError::EmptyTaskName => "Task name cannot be empty".to_owned(),
            ServiceError::InvalidUserIdFormat => "Invalid user ID format".to_owned(),
            ServiceError::InvalidUserId => "Invalid user ID".to_owned(),
            ServiceError::EmptyTaskFields => "Task name and status and id are required".to_owned(),
            ServiceError::InvalidTaskId => "Invalid Task Id".to_owned(),
            ServiceError::NotTaskOwner => "Not authorized to update the task".to_owned(),
            ServiceError::TaskNotFound => "The task id is not valid or there is not task with this id".to_owned(),
            ServiceError::NoSuchUser => "User not found".to_owned(),
        }
    }
}

} // verus!
