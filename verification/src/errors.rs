//! The single error shape that every fallible operation returns.

use vstd::prelude::*;

verus! {

/// The kinds of failure a request can end in.
#[derive(Clone, Copy, Debug, PartialEq, Eq, Structural)]
pub enum ErrorKind {
    /// The client sent structurally invalid credentials.
    MalformedRequest,
    /// No credentials, or stale ones: the client should authenticate again.
    Unauthenticated,
    /// Valid credentials, but not enough privilege, or not the owner.
    Forbidden,
    /// The account or resource referred to does not exist.
    NotFound,
    /// A uniqueness rule would be broken by a create.
    Conflict,
    /// Signing, store or configuration failure.
    ServerFault,
}

impl ErrorKind {
    /// The HTTP status that carries this kind of failure.
    pub open spec fn spec_status_code(self) -> u16 {
        match self {
            ErrorKind::MalformedRequest => 400,
            ErrorKind::Unauthenticated => 401,
            ErrorKind::Forbidden => 403,
            ErrorKind::NotFound => 404,
            ErrorKind::Conflict => 409,
            ErrorKind::ServerFault => 500,
        }
    }

    /// The HTTP status that carries this kind of failure.
    #[verifier::when_used_as_spec(spec_status_code)]
    pub fn status_code(self) -> (code: u16)
        ensures
            code == self.spec_status_code(),
    {
        match self {
            ErrorKind::MalformedRequest => 400,
            ErrorKind::Unauthenticated => 401,
            ErrorKind::Forbidden => 403,
            ErrorKind::NotFound => 404,
            ErrorKind::Conflict => 409,
            ErrorKind::ServerFault => 500,
        }
    }
}

/// A failure: its kind and a short message for the client.
#[derive(Debug)]
pub struct ApiError {
    pub kind: ErrorKind,
    pub message: String,
}

/// What an [`ApiError`] holds, as mathematical values.
pub ghost struct ApiErrorView {
    pub kind: ErrorKind,
    pub message: Seq<char>,
}

impl View for ApiError {
    type V = ApiErrorView;

    open spec fn view(&self) -> ApiErrorView {
        ApiErrorView { kind: self.kind, message: self.message@ }
    }
}

impl ApiError {
    /// A failure of the given kind whose message is the given literal text.
    pub fn new(kind: ErrorKind, message: &str) -> (e: ApiError)
        ensures
            e@.kind == kind,
            e@.message == message@,
    {
        ApiError { kind, message: message.to_owned() }
    }

    /// A failure inside the server; the message is what the failing part reported.
    pub fn server_fault(message: String) -> (e: ApiError)
        ensures
            e@.kind == ErrorKind::ServerFault,
            e@.message == message@,
    {
        ApiError { kind: ErrorKind::ServerFault, message }
    }
}

/// The answer to a request that reached a protected resource without valid credentials.
pub fn unauthorized() -> (e: ApiError)
    ensures
        e@.kind == ErrorKind::Unauthenticated,
        e@.message == "You need to authenticate to access this resource."@,
{
    ApiError::new(ErrorKind::Unauthenticated, "You need to authenticate to access this resource.")
}

/// The answer to a request whose credentials do not grant access.
pub fn forbidden() -> (e: ApiError)
    ensures
        e@.kind == ErrorKind::Forbidden,
        e@.message == "You don't have permission to access this resource."@,
{
    ApiError::new(ErrorKind::Forbidden, "You don't have permission to access this resource.")
}

} // verus!
