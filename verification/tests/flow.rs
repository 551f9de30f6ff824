use practical_rust_book::account::AccountId;
use practical_rust_book::error::WarpError;
use practical_rust_book::flow::{
    add_question, delete_question, deleted_message, get_question, update_question, Action,
    AddQuestion, DeleteQuestion, Event, GetQuestion, UpdateQuestion,
};
use practical_rust_book::pagination::Pagination;
use practical_rust_book::question::{NewQuestion, Question, QuestionId};
use practical_rust_book::StringHashMap;

fn new_question() -> NewQuestion {
    NewQuestion {
        title: "damn title".to_string(),
        content: "damn content".to_string(),
        tags: Some(vec!["rust".to_string()]),
    }
}

fn stored(id: i32, title: &str, content: &str) -> Question {
    Question {
        id: QuestionId(id),
        title: title.to_string(),
        content: content.to_string(),
        tags: Some(vec!["rust".to_string()]),
    }
}

#[test]
fn get_without_query_lists_everything() {
    let (s, a) = get_question(StringHashMap::new());
    assert!(matches!(s, GetQuestion::AwaitList));
    assert!(matches!(a, Action::ListQuestions(Pagination { limit: None, offset: 0 })));
    let (s, a) = s.step(Event::Listed(Ok(vec![stored(1, "a", "b")])));
    assert!(matches!(s, GetQuestion::Done));
    assert!(matches!(a, Action::ReplyQuestions(v) if v.len() == 1));
}

#[test]
fn get_with_range_lists_the_range() {
    let mut m = StringHashMap::new();
    m.insert("limit".to_string(), "10".to_string());
    m.insert("offset".to_string(), "50".to_string());
    let (_, a) = get_question(m);
    assert!(matches!(a, Action::ListQuestions(Pagination { limit: Some(10), offset: 50 })));
}

#[test]
fn get_with_bad_query_is_rejected() {
    let mut m = StringHashMap::new();
    m.insert("limit".to_string(), "10".to_string());
    let (s, a) = get_question(m);
    assert!(matches!(s, GetQuestion::Done));
    assert!(matches!(a, Action::Reject(WarpError::MissingParameters)));
}

#[test]
fn get_database_failure_is_rejected() {
    let (s, _) = get_question(StringHashMap::new());
    let (_, a) = s.step(Event::Listed(Err(WarpError::DatabaseQueryError)));
    assert!(matches!(a, Action::Reject(WarpError::DatabaseQueryError)));
}

#[test]
fn add_stores_the_censored_texts() {
    let (s, a) = add_question(AccountId(3), new_question());
    assert!(matches!(&a, Action::Censor(t) if t == "damn title"));
    let (s, a) = s.step(Event::Censored(Ok("**** title".to_string())));
    assert!(matches!(&a, Action::Censor(t) if t == "damn content"));
    let (s, a) = s.step(Event::Censored(Ok("**** content".to_string())));
    match &a {
        Action::InsertQuestion(q, acc) => {
            assert_eq!(q.title, "**** title");
            assert_eq!(q.content, "**** content");
            assert_eq!(q.tags, Some(vec!["rust".to_string()]));
            assert_eq!(*acc, AccountId(3));
        }
        other => panic!("unexpected {:?}", other),
    }
    let (s, a) = s.step(Event::Stored(Ok(stored(9, "**** title", "**** content"))));
    assert!(matches!(s, AddQuestion::Done));
    assert!(matches!(a, Action::ReplyQuestion(q) if q.id == QuestionId(9)));
}

#[test]
fn add_stops_at_a_failed_title() {
    let (s, _) = add_question(AccountId(3), new_question());
    let (s, a) = s.step(Event::Censored(Err(WarpError::MiddlewareReqwestAPIError("x".to_string()))));
    assert!(matches!(s, AddQuestion::Done));
    assert!(matches!(a, Action::Reject(WarpError::MiddlewareReqwestAPIError(_))));
}

#[test]
fn add_stops_at_a_failed_content() {
    let (s, _) = add_question(AccountId(3), new_question());
    let (s, _) = s.step(Event::Censored(Ok("t".to_string())));
    let (s, a) = s.step(Event::Censored(Err(WarpError::ReqwestAPIError("y".to_string()))));
    assert!(matches!(s, AddQuestion::Done));
    assert!(matches!(a, Action::Reject(WarpError::ReqwestAPIError(_))));
}

#[test]
fn add_database_failure_is_rejected() {
    let (s, _) = add_question(AccountId(3), new_question());
    let (s, _) = s.step(Event::Censored(Ok("t".to_string())));
    let (s, _) = s.step(Event::Censored(Ok("c".to_string())));
    let (_, a) = s.step(Event::Stored(Err(WarpError::DatabaseQueryError)));
    assert!(matches!(a, Action::Reject(WarpError::DatabaseQueryError)));
}

#[test]
fn update_by_owner_overwrites_with_censored_texts() {
    let (s, a) = update_question(5, AccountId(2), stored(5, "damn", "hell"));
    assert!(matches!(a, Action::CheckOwner(5, AccountId(2))));
    let (s, a) = s.step(Event::Owner(Ok(true)));
    assert!(matches!(&a, Action::CensorBoth(t, c) if t == "damn" && c == "hell"));
    let (s, a) = s.step(Event::CensoredBoth(Ok("****".to_string()), Ok("xxxx".to_string())));
    match &a {
        Action::UpdateQuestion(q, id, acc) => {
            assert_eq!(*q, stored(5, "****", "xxxx"));
            assert_eq!(*id, 5);
            assert_eq!(*acc, AccountId(2));
        }
        other => panic!("unexpected {:?}", other),
    }
    let (s, a) = s.step(Event::Stored(Ok(stored(5, "****", "xxxx"))));
    assert!(matches!(s, UpdateQuestion::Done));
    assert!(matches!(a, Action::ReplyQuestion(_)));
}

#[test]
fn update_by_other_account_is_unauthorized() {
    let (s, _) = update_question(5, AccountId(2), stored(5, "a", "b"));
    let (s, a) = s.step(Event::Owner(Ok(false)));
    assert!(matches!(s, UpdateQuestion::Done));
    assert!(matches!(a, Action::Reject(WarpError::Unauthorized)));
}

#[test]
fn update_owner_check_failure_is_rejected() {
    let (s, _) = update_question(5, AccountId(2), stored(5, "a", "b"));
    let (_, a) = s.step(Event::Owner(Err(WarpError::DatabaseQueryError)));
    assert!(matches!(a, Action::Reject(WarpError::DatabaseQueryError)));
}

#[test]
fn update_with_failed_title_is_rejected_with_it() {
    let (s, _) = update_question(5, AccountId(2), stored(5, "a", "b"));
    let (s, _) = s.step(Event::Owner(Ok(true)));
    let (s, a) = s.step(Event::CensoredBoth(
        Err(WarpError::MiddlewareReqwestAPIError("t".to_string())),
        Err(WarpError::MiddlewareReqwestAPIError("c".to_string())),
    ));
    assert!(matches!(s, UpdateQuestion::Done));
    assert!(matches!(a, Action::Reject(WarpError::MiddlewareReqwestAPIError(t)) if t == "t"));
}

#[test]
fn delete_by_owner_deletes() {
    let (s, a) = delete_question(8, AccountId(1));
    assert!(matches!(a, Action::CheckOwner(8, AccountId(1))));
    let (s, a) = s.step(Event::Owner(Ok(true)));
    assert!(matches!(a, Action::DeleteQuestion(8)));
    let (s, a) = s.step(Event::Deleted(Ok(true)));
    assert!(matches!(s, DeleteQuestion::Done));
    assert!(matches!(a, Action::ReplyDeleted(8)));
    assert_eq!(deleted_message(8), "Question 8 deleted");
}

#[test]
fn delete_by_other_account_is_unauthorized() {
    let (s, _) = delete_question(8, AccountId(1));
    let (_, a) = s.step(Event::Owner(Ok(false)));
    assert!(matches!(a, Action::Reject(WarpError::Unauthorized)));
}

#[test]
fn delete_failure_is_rejected() {
    let (s, _) = delete_question(8, AccountId(1));
    let (s, _) = s.step(Event::Owner(Ok(true)));
    let (_, a) = s.step(Event::Deleted(Err(WarpError::DatabaseQueryError)));
    assert!(matches!(a, Action::Reject(WarpError::DatabaseQueryError)));
}

#[test]
fn deleted_message_of_negative_id() {
    assert_eq!(deleted_message(-12), "Question -12 deleted");
}

#[test]
fn get_with_unparsable_limit_is_rejected_with_its_kind() {
    let mut m = StringHashMap::new();
    m.insert("limit".to_string(), "".to_string());
    m.insert("offset".to_string(), "x".to_string());
    let (s, a) = get_question(m);
    assert!(matches!(s, GetQuestion::Done));
    assert!(matches!(
        a,
        Action::Reject(WarpError::ParseError(_, practical_rust_book::error::ParseFailure::Empty))
    ));
}
