//! Reading the reply of the outside profanity filter, which censors the text
//! of questions before they are stored.
use vstd::prelude::*;

use crate::error::{APILayerError, WarpError};

verus! {

/// The body of an error reply of the profanity API.
#[derive(Debug, Clone, PartialEq, Eq)]
pub struct APIResponse {
    pub message: String,
}

/// One word that the profanity API found.
#[derive(Debug, Clone, PartialEq, Eq)]
pub struct BadWord {
    pub original: String,
    pub word: String,
    pub deviations: i64,
    pub info: i64,
    pub replaced_len: i64,
}

/// The body of a successful reply of the profanity API.
#[derive(Debug, Clone, PartialEq, Eq)]
pub struct BadWordsResponse {
    pub content: String,
    pub bad_words_total: i64,
    pub bad_words_list: Vec<BadWord>,
    pub censored_content: String,
}

/// The three ways in which the service treats an HTTP status.
#[derive(Debug, Clone, Copy, PartialEq, Eq)]
pub enum StatusClass {
    /// 2xx
    Success,
    /// 4xx
    ClientError,
    /// any other status
    ServerError,
}

/// A status of the 2xx class.
pub open spec fn is_success(status: u16) -> bool {
    200 <= status < 300
}

/// A status of the 4xx class.
pub open spec fn is_client_error(status: u16) -> bool {
    400 <= status < 500
}

/// The class of an HTTP status.
pub fn classify_status(status: u16) -> (c: StatusClass)
    ensures
        c == StatusClass::Success <==> is_success(status),
        c == StatusClass::ClientError <==> is_client_error(status),
        c == StatusClass::ServerError <==> !is_success(status) && !is_client_error(status),
{
    if 200 <= status && status < 300 {
        StatusClass::Success
    } else if 400 <= status && status < 500 {
        StatusClass::ClientError
    } else {
        StatusClass::ServerError
    }
}

/// The error that a failure reply of the profanity API becomes.
pub fn transform_error(status: u16, body: APIResponse) -> (e: APILayerError)
    ensures
        e == (APILayerError { status, message: body.message }),
{
    APILayerError { status, message: body.message }
}

/// What came back from the profanity API, each body already read as its
/// status asked.
#[derive(Debug)]
pub enum ProfanityReply {
    /// The request could not be made; the text of the cause.
    NotSent(String),
    /// A 2xx reply, its body read as `BadWordsResponse`, or the text of the
    /// reason it could not be read.
    Censored(Result<BadWordsResponse, String>),
    /// A reply of another status, with its error body.
    Refused { status: u16, body: APIResponse },
}

/// The censored text, or the error, that a reply of the profanity API gives.
pub fn check_profanity(reply: ProfanityReply) -> (r: Result<String, WarpError>)
    requires
        reply matches ProfanityReply::Refused { status, .. } ==> !is_success(status),
    ensures
        reply matches ProfanityReply::NotSent(t)
            ==> r == Err::<String, WarpError>(WarpError::MiddlewareReqwestAPIError(t)),
        reply matches ProfanityReply::Censored(Ok(b))
            ==> r == Ok::<String, WarpError>(b.censored_content),
        reply matches ProfanityReply::Censored(Err(t))
            ==> r == Err::<String, WarpError>(WarpError::ReqwestAPIError(t)),
        reply matches ProfanityReply::Refused { status, body } ==> r == Err::<String, WarpError>(
            if is_client_error(status) {
                WarpError::ClientError(APILayerError { status, message: body.message })
            } else {
                WarpError::ServerError(APILayerError { status, message: body.message })
            },
        ),
{
    match reply {
        ProfanityReply::NotSent(t) => Err(WarpError::MiddlewareReqwestAPIError(t)),
        ProfanityReply::Censored(Ok(b)) => Ok(b.censored_content),
        ProfanityReply::Censored(Err(t)) => Err(WarpError::ReqwestAPIError(t)),
        ProfanityReply::Refused { status, body } => {
            let err = transform_error(status, body);
            match classify_status(status) {
                StatusClass::ClientError => Err(WarpError::ClientError(err)),
                _ => Err(WarpError::ServerError(err)),
            }
        },
    }
}

/// The class of a status is given by its hundreds digit: 2 is success, 4 is
/// a client error, and every other status counts as a server failure.
pub proof fn law_status_class_by_hundreds(status: u16)
    ensures
        is_success(status) <==> status / 100 == 2,
        is_client_error(status) <==> status / 100 == 4,
        !(is_success(status) && is_client_error(status)),
{
}

} // verus!
