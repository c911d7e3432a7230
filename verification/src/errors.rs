//! Failures of the store and of the aggregate operations.

use vstd::prelude::*;

verus! {

/// Why the store turned a statement down.
#[derive(Clone, Copy, Debug, PartialEq, Eq, Structural)]
pub enum StoreErrorKind {
    /// A key, a reference or a row check would have been violated.
    Constraint,
    /// No connection could be leased.
    Unavailable,
    /// Anything else.
    Failure,
}

/// A failure reported by the store, with the store's message.
#[derive(Debug, PartialEq, Eq)]
pub enum StoreError {
    Constraint(String),
    Unavailable(String),
    Failure(String),
}

/// A store failure as contracts see it.
pub struct StoreErrorView {
    pub kind: StoreErrorKind,
    pub message: Seq<char>,
}

impl View for StoreError {
    type V = StoreErrorView;

    open spec fn view(&self) -> StoreErrorView {
        match self {
            StoreError::Constraint(m) => StoreErrorView {
                kind: StoreErrorKind::Constraint,
                message: m@,
            },
            StoreError::Unavailable(m) => StoreErrorView {
                kind: StoreErrorKind::Unavailable,
                message: m@,
            },
            StoreError::Failure(m) => StoreErrorView {
                kind: StoreErrorKind::Failure,
                message: m@,
            },
        }
    }
}

/// The kinds of failure an aggregate operation can end in.
#[derive(Clone, Copy, Debug, PartialEq, Eq, Structural)]
pub enum ErrorKind {
    /// A lookup that needs one row matched none.
    NotFound,
    /// The store refused a write that would break a key or a reference.
    Conflict,
    /// No connection could be had from the pool.
    ConnectionFailure,
    /// The store failed in some other way.
    StoreFailure,
    /// A field of the input could not be read.
    ParseFailure,
}

/// How a caller should answer for a failure.
#[derive(Clone, Copy, Debug, PartialEq, Eq, Structural)]
pub enum ErrorClass {
    /// The resource asked for does not exist.
    Missing,
    /// The request itself is at fault.
    Rejected,
    /// The fault lies with the service.
    Internal,
}

/// The failure of an aggregate operation, with a message for the caller.
#[derive(Debug, PartialEq, Eq)]
pub enum ApiError {
    NotFound(String),
    Conflict(String),
    ConnectionFailure(String),
    StoreFailure(String),
    ParseFailure(String),
}

/// A failure as contracts see it.
pub struct ApiErrorView {
    pub kind: ErrorKind,
    pub message: Seq<char>,
}

impl View for ApiError {
    type V = ApiErrorView;

    open spec fn view(&self) -> ApiErrorView {
        match self {
            ApiError::NotFound(m) => ApiErrorView { kind: ErrorKind::NotFound, message: m@ },
            ApiError::Conflict(m) => ApiErrorView { kind: ErrorKind::Conflict, message: m@ },
            ApiError::ConnectionFailure(m) => ApiErrorView {
                kind: ErrorKind::ConnectionFailure,
                message: m@,
            },
            ApiError::StoreFailure(m) => ApiErrorView { kind: ErrorKind::StoreFailure, message: m@ },
            ApiError::ParseFailure(m) => ApiErrorView { kind: ErrorKind::ParseFailure, message: m@ },
        }
    }
}

/// The class of each kind: a missing row is `Missing`, a refused write or an
/// unreadable field is `Rejected`, the rest is `Internal`.
pub open spec fn class_of(kind: ErrorKind) -> ErrorClass {
    match kind {
        ErrorKind::NotFound => ErrorClass::Missing,
        ErrorKind::Conflict => ErrorClass::Rejected,
        ErrorKind::ParseFailure => ErrorClass::Rejected,
        ErrorKind::ConnectionFailure => ErrorClass::Internal,
        ErrorKind::StoreFailure => ErrorClass::Internal,
    }
}

/// The kind of operation failure that a store failure of `kind` becomes.
pub open spec fn kind_of_store_error(kind: StoreErrorKind) -> ErrorKind {
    match kind {
        StoreErrorKind::Constraint => ErrorKind::Conflict,
        StoreErrorKind::Unavailable => ErrorKind::ConnectionFailure,
        StoreErrorKind::Failure => ErrorKind::StoreFailure,
    }
}

/// The operation failure that a store failure becomes: the kind is mapped,
/// the message is kept.
pub open spec fn api_error_of(error: StoreErrorView) -> ApiErrorView {
    ApiErrorView { kind: kind_of_store_error(error.kind), message: error.message }
}

impl Clone for StoreError {
    fn clone(&self) -> (copy: StoreError)
        ensures
            copy@ == self@,
    {
        match self {
            StoreError::Constraint(m) => StoreError::Constraint(m.clone()),
            StoreError::Unavailable(m) => StoreError::Unavailable(m.clone()),
            StoreError::Failure(m) => StoreError::Failure(m.clone()),
        }
    }
}

impl Clone for ApiError {
    fn clone(&self) -> (copy: ApiError)
        ensures
            copy@ == self@,
    {
        match self {
            ApiError::NotFound(m) => ApiError::NotFound(m.clone()),
            ApiError::Conflict(m) => ApiError::Conflict(m.clone()),
            ApiError::ConnectionFailure(m) => ApiError::ConnectionFailure(m.clone()),
            ApiError::StoreFailure(m) => ApiError::StoreFailure(m.clone()),
            ApiError::ParseFailure(m) => ApiError::ParseFailure(m.clone()),
        }
    }
}

impl StoreError {
    /// The kind of the failure.
    pub fn kind(&self) -> (kind: StoreErrorKind)
        ensures
            kind == self@.kind,
    {
        match self {
            StoreError::Constraint(_) => StoreErrorKind::Constraint,
            StoreError::Unavailable(_) => StoreErrorKind::Unavailable,
            StoreError::Failure(_) => StoreErrorKind::Failure,
        }
    }
}

impl ApiError {
    /// The kind of the failure.
    pub fn kind(&self) -> (kind: ErrorKind)
        ensures
            kind == self@.kind,
    {
        match self {
            ApiError::NotFound(_) => ErrorKind::NotFound,
            ApiError::Conflict(_) => ErrorKind::Conflict,
            ApiError::ConnectionFailure(_) => ErrorKind::ConnectionFailure,
            ApiError::StoreFailure(_) => ErrorKind::StoreFailure,
            ApiError::ParseFailure(_) => ErrorKind::ParseFailure,
        }
    }

    /// The message of the failure.
    pub fn message(&self) -> (message: &String)
        ensures
            message@ == self@.message,
    {
        match self {
            ApiError::NotFound(m) => m,
            ApiError::Conflict(m) => m,
            ApiError::ConnectionFailure(m) => m,
            ApiError::StoreFailure(m) => m,
            ApiError::ParseFailure(m) => m,
        }
    }

    /// How a caller should answer for the failure.
    pub fn class(&self) -> (class: ErrorClass)
        ensures
            class == class_of(self@.kind),
    {
        match self {
            ApiError::NotFound(_) => ErrorClass::Missing,
            ApiError::Conflict(_) => ErrorClass::Rejected,
            ApiError::ParseFailure(_) => ErrorClass::Rejected,
            ApiError::ConnectionFailure(_) => ErrorClass::Internal,
            ApiError::StoreFailure(_) => ErrorClass::Internal,
        }
    }

    /// The operation failure for a failure of the store.
    pub fn from_store(error: StoreError) -> (failure: ApiError)
        ensures
            failure@ == api_error_of(error@),
    {
        match error {
            StoreError::Constraint(m) => ApiError::Conflict(m),
            StoreError::Unavailable(m) => ApiError::ConnectionFailure(m),
            StoreError::Failure(m) => ApiError::StoreFailure(m),
        }
    }
}

} // verus!
