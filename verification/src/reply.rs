//! The HTTP reply for a request that was rejected.
use vstd::prelude::*;
use vstd::string::*;

use crate::error::{warp_error_text, WarpError};

verus! {

/// What a rejection holds that decides the reply: the first service error in
/// it, and the texts of a CORS refusal and of a body that could not be read.
#[derive(Debug)]
pub struct RejectionCauses {
    pub warp_error: Option<WarpError>,
    pub cors_forbidden: Option<String>,
    pub body_deserialize: Option<String>,
}

/// Which cause of a rejection the reply answers.
#[derive(Debug, Clone, Copy, PartialEq, Eq)]
pub enum RejectionKind {
    DatabaseError,
    CorsForbidden,
    BodyDeserialize,
    ServiceError,
    NotFound,
}

/// A reply: the cause it answers, HTTP status and text body.
#[derive(Debug, Clone, PartialEq, Eq)]
pub struct ErrorReply {
    pub kind: RejectionKind,
    pub status: u16,
    pub body: String,
}

/// 422 Unprocessable Entity.
pub const UNPROCESSABLE_ENTITY: u16 = 422;
/// 403 Forbidden.
pub const FORBIDDEN: u16 = 403;
/// 404 Not Found.
pub const NOT_FOUND: u16 = 404;

/// Whether the first service error of a rejection is a database error.
pub open spec fn is_database_rejection(c: RejectionCauses) -> bool {
    c.warp_error matches Some(WarpError::DatabaseQueryError)
}

/// The cause that the reply to a rejection answers.
pub open spec fn rejection_kind(c: RejectionCauses) -> RejectionKind {
    if is_database_rejection(c) {
        RejectionKind::DatabaseError
    } else if c.cors_forbidden is Some {
        RejectionKind::CorsForbidden
    } else if c.body_deserialize is Some {
        RejectionKind::BodyDeserialize
    } else if c.warp_error is Some {
        RejectionKind::ServiceError
    } else {
        RejectionKind::NotFound
    }
}

/// The status of the reply to a rejection.
pub open spec fn rejection_status(c: RejectionCauses) -> u16 {
    if is_database_rejection(c) {
        UNPROCESSABLE_ENTITY
    } else if c.cors_forbidden is Some {
        FORBIDDEN
    } else if c.body_deserialize is Some || c.warp_error is Some {
        UNPROCESSABLE_ENTITY
    } else {
        NOT_FOUND
    }
}

/// The reply for a rejection. A database error comes first, then a CORS
/// refusal, then an unreadable body, then any other service error; with
/// none of these the route was not found.
pub fn return_error(causes: RejectionCauses) -> (r: ErrorReply)
    ensures
        r.kind == rejection_kind(causes),
        r.status == rejection_status(causes),
        is_database_rejection(causes) ==> r.status == UNPROCESSABLE_ENTITY,
        !is_database_rejection(causes) && causes.cors_forbidden is Some ==> r.status == FORBIDDEN,
        !is_database_rejection(causes) && causes.cors_forbidden is None && causes.body_deserialize is Some
            ==> r.status == UNPROCESSABLE_ENTITY,
        causes.warp_error is Some && causes.cors_forbidden is None && causes.body_deserialize is None
            ==> r.status == UNPROCESSABLE_ENTITY,
        causes.warp_error is Some && !is_database_rejection(causes) && causes.cors_forbidden is None
            && causes.body_deserialize is None ==> r.kind == RejectionKind::ServiceError,
        causes.warp_error is None && causes.cors_forbidden is None && causes.body_deserialize is None
            ==> r.status == NOT_FOUND && r.kind == RejectionKind::NotFound,
        is_database_rejection(causes) ==> r.body@ == warp_error_text(WarpError::DatabaseQueryError),
        !is_database_rejection(causes) ==> (causes.cors_forbidden matches Some(t) ==> r.body@ == t@),
        !is_database_rejection(causes) && causes.cors_forbidden is None
            ==> (causes.body_deserialize matches Some(t) ==> r.body@ == t@),
        causes.cors_forbidden is None && causes.body_deserialize is None ==> (
            causes.warp_error matches Some(e) ==> (!(e is ParseError) ==> r.body@ == warp_error_text(e))
                && (e matches WarpError::ParseError(p, _) ==> exists|t: String|
                    to_string_from_display_ensures::<std::num::ParseIntError>(&p, t)
                        && r.body@ == warp_error_text(e) + t@)),
        causes.warp_error is None && causes.cors_forbidden is None && causes.body_deserialize is None
            ==> r.body@ == "Route not found"@,
{
    let is_database_error = match &causes.warp_error {
        Some(WarpError::DatabaseQueryError) => true,
        _ => false,
    };
    if is_database_error {
        return ErrorReply {
            kind: RejectionKind::DatabaseError,
            status: UNPROCESSABLE_ENTITY,
            body: WarpError::DatabaseQueryError.to_string(),
        };
    }
    match causes.cors_forbidden {
        Some(t) => return ErrorReply { kind: RejectionKind::CorsForbidden, status: FORBIDDEN, body: t },
        None => {},
    }
    match causes.body_deserialize {
        Some(t) => return ErrorReply {
            kind: RejectionKind::BodyDeserialize,
            status: UNPROCESSABLE_ENTITY,
            body: t,
        },
        None => {},
    }
    match causes.warp_error {
        Some(e) => ErrorReply {
            kind: RejectionKind::ServiceError,
            status: UNPROCESSABLE_ENTITY,
            body: e.to_string(),
        },
        None => ErrorReply {
            kind: RejectionKind::NotFound,
            status: NOT_FOUND,
            body: String::from_str("Route not found"),
        },
    }
}

/// Every rejection is answered with 403, 404 or 422: 403 exactly for a CORS
/// refusal that no database error precedes, 404 exactly when it holds none of
/// the causes that the service knows, and 422 for every other cause, so for
/// every service error with no CORS refusal and no unreadable body.
pub proof fn law_rejection_status(causes: RejectionCauses)
    ensures
        rejection_status(causes) == FORBIDDEN || rejection_status(causes) == NOT_FOUND
            || rejection_status(causes) == UNPROCESSABLE_ENTITY,
        rejection_status(causes) == NOT_FOUND <==> (causes.warp_error is None
            && causes.cors_forbidden is None && causes.body_deserialize is None),
        rejection_status(causes) == FORBIDDEN <==> (!is_database_rejection(causes)
            && causes.cors_forbidden is Some),
        causes.warp_error is Some && causes.cors_forbidden is None && causes.body_deserialize is None
            ==> rejection_status(causes) == UNPROCESSABLE_ENTITY,
        causes.body_deserialize is Some && causes.cors_forbidden is None
            ==> rejection_status(causes) == UNPROCESSABLE_ENTITY,
        is_database_rejection(causes) ==> rejection_status(causes) == UNPROCESSABLE_ENTITY,
{
}

} // verus!
