use practical_rust_book::decimal::{i32_to_decimal, u16_to_decimal, write_decimal};
use practical_rust_book::error::{APILayerError, ParseFailure, WarpError};
use practical_rust_book::reply::{return_error, ErrorReply, RejectionCauses, RejectionKind};

#[test]
fn decimal_of_integers() {
    assert_eq!(i32_to_decimal(0), "0");
    assert_eq!(i32_to_decimal(7), "7");
    assert_eq!(i32_to_decimal(-45), "-45");
    assert_eq!(i32_to_decimal(i32::MAX), "2147483647");
    assert_eq!(i32_to_decimal(i32::MIN), "-2147483648");
    assert_eq!(u16_to_decimal(u16::MAX), "65535");
    let mut s = String::from("n=");
    write_decimal(u64::MAX, &mut s);
    assert_eq!(s, "n=18446744073709551615");
}

#[test]
fn api_error_text() {
    let e = APILayerError { status: 404, message: "nope".to_string() };
    assert_eq!(e.to_string(), "Status: 404, Message: nope");
}

#[test]
fn warp_error_texts() {
    assert_eq!(WarpError::MissingParameters.to_string(), "Some parameters are missing");
    assert_eq!(WarpError::DatabaseQueryError.to_string(), "Cannot update, invalid Data.");
    assert_eq!(
        WarpError::Unauthorized.to_string(),
        "No permission to change the underlying resource"
    );
    let a = APILayerError { status: 401, message: "bad key".to_string() };
    assert_eq!(
        WarpError::ClientError(a.clone()).to_string(),
        "External Client error: Status: 401, Message: bad key"
    );
    assert_eq!(
        WarpError::ServerError(APILayerError { status: 503, message: "down".to_string() }).to_string(),
        "External Server error: Status: 503, Message: down"
    );
    assert_eq!(
        WarpError::ReqwestAPIError("bad json".to_string()).to_string(),
        "External API error: bad json"
    );
    assert_eq!(
        WarpError::MiddlewareReqwestAPIError("timeout".to_string()).to_string(),
        "External API error: timeout"
    );
    let p = "x".parse::<u32>().unwrap_err();
    assert_eq!(
        WarpError::ParseError(p, ParseFailure::InvalidDigit).to_string(),
        "WarpError parsing parameter: invalid digit found in string"
    );
}

fn causes(
    warp_error: Option<WarpError>,
    cors: Option<&str>,
    body: Option<&str>,
) -> RejectionCauses {
    RejectionCauses {
        warp_error,
        cors_forbidden: cors.map(|s| s.to_string()),
        body_deserialize: body.map(|s| s.to_string()),
    }
}

fn reply(kind: RejectionKind, status: u16, body: &str) -> ErrorReply {
    ErrorReply { kind, status, body: body.to_string() }
}

#[test]
fn database_error_comes_first() {
    let r = return_error(causes(Some(WarpError::DatabaseQueryError), Some("cors"), Some("body")));
    assert_eq!(r, reply(RejectionKind::DatabaseError, 422, "Cannot update, invalid Data."));
}

#[test]
fn cors_refusal_is_forbidden() {
    let r = return_error(causes(Some(WarpError::MissingParameters), Some("origin not allowed"), Some("b")));
    assert_eq!(r, reply(RejectionKind::CorsForbidden, 403, "origin not allowed"));
}

#[test]
fn unreadable_body_is_unprocessable() {
    let r = return_error(causes(Some(WarpError::Unauthorized), None, Some("missing field `title`")));
    assert_eq!(r, reply(RejectionKind::BodyDeserialize, 422, "missing field `title`"));
}

#[test]
fn service_error_is_unprocessable() {
    let r = return_error(causes(Some(WarpError::MissingParameters), None, None));
    assert_eq!(r, reply(RejectionKind::ServiceError, 422, "Some parameters are missing"));
    let r = return_error(causes(Some(WarpError::Unauthorized), None, None));
    assert_eq!(r, reply(RejectionKind::ServiceError, 422, "No permission to change the underlying resource"));
}

#[test]
fn nothing_known_is_not_found() {
    let r = return_error(causes(None, None, None));
    assert_eq!(r, reply(RejectionKind::NotFound, 404, "Route not found"));
}
