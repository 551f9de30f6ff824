//! The errors that the service reports, and the text that each one shows.
use std::num::ParseIntError;
use vstd::prelude::*;
use vstd::string::*;

use crate::decimal::{all_digits, decimal, digits_value, is_digit, lemma_decimal_digits, u16_to_decimal};

verus! {

/// `std::num::ParseIntError`, the error of `str::parse` for integers; its
/// contents are not read here, only carried and shown.
#[verifier::external_type_specification]
#[verifier::external_body]
pub struct ExParseIntError(ParseIntError);

/// The kind of a failed parse of an unsigned integer, as std's
/// `IntErrorKind` tells it.
#[derive(Debug, Clone, Copy, PartialEq, Eq)]
pub enum ParseFailure {
    /// The text was empty.
    Empty,
    /// The text held a character that is not a digit where a digit belongs.
    InvalidDigit,
    /// The number was too large for the type.
    PosOverflow,
    /// Any other kind that std reports.
    Other,
}

/// An error reply of the outside profanity API: its HTTP status and message.
#[derive(Debug, Clone, PartialEq, Eq)]
pub struct APILayerError {
    pub status: u16,
    pub message: String,
}

/// The errors of the service.
#[derive(Debug)]
pub enum WarpError {
    /// A query parameter was not a number: std's error and its kind.
    ParseError(ParseIntError, ParseFailure),
    /// A query parameter that is needed was absent.
    MissingParameters,
    /// The database refused or failed a query.
    DatabaseQueryError,
    /// The session's account does not own the resource.
    Unauthorized,
    /// The profanity API answered with a client error (4xx).
    ClientError(APILayerError),
    /// The profanity API answered with another failure status.
    ServerError(APILayerError),
    /// The profanity API's reply could not be read; the text of the cause.
    ReqwestAPIError(String),
    /// The request to the profanity API failed; the text of the cause.
    MiddlewareReqwestAPIError(String),
}

/// The text of an error reply of the profanity API.
pub open spec fn api_error_text(e: APILayerError) -> Seq<char> {
    "Status: "@ + decimal(e.status as nat) + ", Message: "@ + e.message@
}

/// The text of an error; for `ParseError` only the part that comes before the
/// text of the parse error itself.
pub open spec fn warp_error_text(e: WarpError) -> Seq<char> {
    match e {
        WarpError::ParseError(_, _) => "WarpError parsing parameter: "@,
        WarpError::MissingParameters => "Some parameters are missing"@,
        WarpError::DatabaseQueryError => "Cannot update, invalid Data."@,
        WarpError::Unauthorized => "No permission to change the underlying resource"@,
        WarpError::ClientError(a) => "External Client error: "@ + api_error_text(a),
        WarpError::ServerError(a) => "External Server error: "@ + api_error_text(a),
        WarpError::ReqwestAPIError(t) => "External API error: "@ + t@,
        WarpError::MiddlewareReqwestAPIError(t) => "External API error: "@ + t@,
    }
}

impl APILayerError {
    /// The text of the error: its status and its message.
    pub fn to_string(&self) -> (r: String)
        ensures
            r@ == api_error_text(*self),
    {
        let mut r = String::from_str("Status: ");
        let status = u16_to_decimal(self.status);
        r.append(status.as_str());
        r.append(", Message: ");
        r.append(self.message.as_str());
        r
    }
}

impl WarpError {
    /// The text of the error, as the service shows it to clients.
    pub fn to_string(&self) -> (r: String)
        ensures
            !(self is ParseError) ==> r@ == warp_error_text(*self),
            self matches WarpError::ParseError(e, _) ==> exists|t: String|
                to_string_from_display_ensures::<ParseIntError>(&e, t)
                    && r@ == warp_error_text(*self) + t@,
    {
        match self {
            WarpError::ParseError(e, _) => {
                let t = e.to_string();
                let mut r = String::from_str("WarpError parsing parameter: ");
                r.append(t.as_str());
                r
            },
            WarpError::MissingParameters => String::from_str("Some parameters are missing"),
            WarpError::DatabaseQueryError => String::from_str("Cannot update, invalid Data."),
            WarpError::Unauthorized => String::from_str(
                "No permission to change the underlying resource",
            ),
            WarpError::ClientError(a) => {
                let mut r = String::from_str("External Client error: ");
                let t = a.to_string();
                r.append(t.as_str());
                r
            },
            WarpError::ServerError(a) => {
                let mut r = String::from_str("External Server error: ");
                let t = a.to_string();
                r.append(t.as_str());
                r
            },
            WarpError::ReqwestAPIError(t) => {
                let mut r = String::from_str("External API error: ");
                r.append(t.as_str());
                r
            },
            WarpError::MiddlewareReqwestAPIError(t) => {
                let mut r = String::from_str("External API error: ");
                r.append(t.as_str());
                r
            },
        }
    }
}

/// The text of an error reply of the profanity API reads back to it: it
/// starts with `Status: ` and the decimal digits of the status, which read
/// back to the status, and it ends with the message.
pub proof fn law_api_error_text_reads_back(a: APILayerError)
    ensures
        ({
            let t = api_error_text(a);
            let n = decimal(a.status as nat).len() as int;
            &&& t.subrange(0, 8) == "Status: "@
            &&& all_digits(t.subrange(8, 8 + n))
            &&& digits_value(t.subrange(8, 8 + n)) == a.status
            &&& !is_digit(t[8 + n])
            &&& t.subrange(t.len() - a.message@.len(), t.len() as int) == a.message@
        }),
{
    reveal_strlit("Status: ");
    reveal_strlit(", Message: ");
    lemma_decimal_digits(a.status as nat);
    let t = api_error_text(a);
    let d = decimal(a.status as nat);
    let n = d.len() as int;
    assert(t.subrange(0, 8) =~= "Status: "@);
    assert(t.subrange(8, 8 + n) =~= d);
    assert(t[8 + n] == ',');
    assert(t.subrange(t.len() - a.message@.len(), t.len() as int) =~= a.message@);
}

/// Errors of different kinds are told apart by their texts: a client error
/// never reads as a server error, and the fixed texts of the other kinds
/// differ from each other.
pub proof fn law_error_texts_differ(a: APILayerError, b: APILayerError)
    ensures
        warp_error_text(WarpError::ClientError(a)) != warp_error_text(WarpError::ServerError(b)),
        warp_error_text(WarpError::MissingParameters) != warp_error_text(WarpError::DatabaseQueryError),
        warp_error_text(WarpError::MissingParameters) != warp_error_text(WarpError::Unauthorized),
        warp_error_text(WarpError::DatabaseQueryError) != warp_error_text(WarpError::Unauthorized),
{
    reveal_strlit("External Client error: ");
    reveal_strlit("External Server error: ");
    reveal_strlit("Some parameters are missing");
    reveal_strlit("Cannot update, invalid Data.");
    reveal_strlit("No permission to change the underlying resource");
    assert(warp_error_text(WarpError::ClientError(a))[9] == 'C');
    assert(warp_error_text(WarpError::ServerError(b))[9] == 'S');
    assert(warp_error_text(WarpError::MissingParameters)[0] == 'S');
    assert(warp_error_text(WarpError::DatabaseQueryError)[0] == 'C');
    assert(warp_error_text(WarpError::Unauthorized)[0] == 'N');
}

} // verus!
