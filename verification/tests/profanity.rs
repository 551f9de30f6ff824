use practical_rust_book::error::{APILayerError, WarpError};
use practical_rust_book::profanity::{
    check_profanity, classify_status, transform_error, APIResponse, BadWord, BadWordsResponse,
    ProfanityReply, StatusClass,
};

#[test]
fn status_classes() {
    assert_eq!(classify_status(200), StatusClass::Success);
    assert_eq!(classify_status(299), StatusClass::Success);
    assert_eq!(classify_status(199), StatusClass::ServerError);
    assert_eq!(classify_status(300), StatusClass::ServerError);
    assert_eq!(classify_status(400), StatusClass::ClientError);
    assert_eq!(classify_status(499), StatusClass::ClientError);
    assert_eq!(classify_status(500), StatusClass::ServerError);
    assert_eq!(classify_status(302), StatusClass::ServerError);
}

#[test]
fn error_body_becomes_api_error() {
    let e = transform_error(429, APIResponse { message: "slow down".to_string() });
    assert_eq!(e, APILayerError { status: 429, message: "slow down".to_string() });
}

#[test]
fn censored_content_is_returned() {
    let body = BadWordsResponse {
        content: "what the heck".to_string(),
        bad_words_total: 1,
        bad_words_list: vec![BadWord {
            original: "heck".to_string(),
            word: "heck".to_string(),
            deviations: 0,
            info: 2,
            replaced_len: 4,
        }],
        censored_content: "what the ****".to_string(),
    };
    let r = check_profanity(ProfanityReply::Censored(Ok(body)));
    assert_eq!(r.unwrap(), "what the ****");
}

#[test]
fn unreadable_reply_is_reqwest_error() {
    let r = check_profanity(ProfanityReply::Censored(Err("expected value".to_string())));
    assert!(matches!(r, Err(WarpError::ReqwestAPIError(t)) if t == "expected value"));
}

#[test]
fn unsent_request_is_middleware_error() {
    let r = check_profanity(ProfanityReply::NotSent("connection refused".to_string()));
    assert!(matches!(r, Err(WarpError::MiddlewareReqwestAPIError(t)) if t == "connection refused"));
}

#[test]
fn client_failure_is_client_error() {
    let r = check_profanity(ProfanityReply::Refused {
        status: 401,
        body: APIResponse { message: "No API key found".to_string() },
    });
    match r {
        Err(WarpError::ClientError(e)) => {
            assert_eq!(e, APILayerError { status: 401, message: "No API key found".to_string() })
        }
        other => panic!("unexpected {:?}", other),
    }
}

#[test]
fn other_failure_is_server_error() {
    for status in [500u16, 503, 301, 100] {
        let r = check_profanity(ProfanityReply::Refused {
            status,
            body: APIResponse { message: "oops".to_string() },
        });
        match r {
            Err(WarpError::ServerError(e)) => {
                assert_eq!(e, APILayerError { status, message: "oops".to_string() })
            }
            other => panic!("unexpected {:?}", other),
        }
    }
}
