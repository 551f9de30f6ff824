//! The decisions of the request handlers. A handler alternates outside work
//! (a call of the profanity filter, a database query) with decisions; each
//! flow here takes the outcome of the last piece of outside work as an
//! event and gives the next state and the next action.
use vstd::prelude::*;

use crate::account::AccountId;
use crate::decimal::{
    all_digits, digits_value, i32_to_decimal, lemma_signed_decimal_reads_back, signed_decimal,
};
use crate::error::WarpError;
use crate::pagination::{failed_param, failure_kind_fits, has_range_params, range_of, requested_range, valid_range_params, Pagination};
use vstd::hash_map::StringHashMap;
use crate::question::{NewQuestion, Question, QuestionId};

verus! {

/// What the handler does next.
#[derive(Debug)]
pub enum Action {
    /// Run the profanity filter on a text.
    Censor(String),
    /// Run the profanity filter on two texts at once.
    CensorBoth(String, String),
    /// Ask the database whether the question belongs to the account.
    CheckOwner(i32, AccountId),
    /// Read a range of questions from the database.
    ListQuestions(Pagination),
    /// Store a new question for the account.
    InsertQuestion(NewQuestion, AccountId),
    /// Overwrite the question with the given id, if the account owns it.
    UpdateQuestion(Question, i32, AccountId),
    /// Delete the question with the given id.
    DeleteQuestion(i32),
    /// Answer 200 with the questions as JSON.
    ReplyQuestions(Vec<Question>),
    /// Answer 200 with the question as JSON.
    ReplyQuestion(Question),
    /// Answer 200 with the text that `deleted_message` gives for the id.
    ReplyDeleted(i32),
    /// Reject the request with the error.
    Reject(WarpError),
}

/// The outcome of the outside work that the last action asked for.
#[derive(Debug)]
pub enum Event {
    Censored(Result<String, WarpError>),
    CensoredBoth(Result<String, WarpError>, Result<String, WarpError>),
    Owner(Result<bool, WarpError>),
    Listed(Result<Vec<Question>, WarpError>),
    Stored(Result<Question, WarpError>),
    Deleted(Result<bool, WarpError>),
}

/// The text of the reply to a deletion.
pub open spec fn deleted_text(id: i32) -> Seq<char> {
    "Question "@ + signed_decimal(id as int) + " deleted"@
}

/// The text of the reply to a deletion: `Question {id} deleted`.
pub fn deleted_message(id: i32) -> (r: String)
    ensures
        r@ == deleted_text(id),
{
    let mut r = String::from_str("Question ");
    let n = i32_to_decimal(id);
    r.append(n.as_str());
    r.append(" deleted");
    r
}


/// `GET /questions`: read the range from the query, list that range,
/// answer with it.
#[derive(Debug)]
pub enum GetQuestion {
    AwaitList,
    Done,
}

impl GetQuestion {
    /// The events that the state waits for.
    pub open spec fn accepts(self, ev: Event) -> bool {
        self is AwaitList && ev is Listed
    }

    /// The next state and action.
    pub open spec fn next(self, ev: Event) -> (GetQuestion, Action) {
        match ev {
            Event::Listed(Ok(v)) => (GetQuestion::Done, Action::ReplyQuestions(v)),
            Event::Listed(Err(e)) => (GetQuestion::Done, Action::Reject(e)),
            _ => arbitrary(),
        }
    }

    /// Takes the outcome of the listing.
    pub fn step(self, ev: Event) -> (r: (GetQuestion, Action))
        requires
            self.accepts(ev),
        ensures
            r == self.next(ev),
    {
        match ev {
            Event::Listed(Ok(v)) => (GetQuestion::Done, Action::ReplyQuestions(v)),
            Event::Listed(Err(e)) => (GetQuestion::Done, Action::Reject(e)),
            _ => {
                proof {
                    assert(false);
                }
                (GetQuestion::Done, Action::Reject(WarpError::MissingParameters))
            },
        }
    }
}

/// Starts `GET /questions` with the query parameters of the request.
pub fn get_question(params: StringHashMap<String>) -> (r: (GetQuestion, Action))
    ensures
        params@.is_empty() ==> r == (GetQuestion::AwaitList, Action::ListQuestions(
            Pagination { limit: None, offset: 0 },
        )),
        !params@.is_empty() && valid_range_params(params@) ==> r == (GetQuestion::AwaitList,
            Action::ListQuestions(range_of(params@))),
        !params@.is_empty() && !valid_range_params(params@) ==> r.0 is Done && r.1 is Reject,
        !params@.is_empty() && !has_range_params(params@) ==> r.1 matches Action::Reject(
            WarpError::MissingParameters,
        ),
        !params@.is_empty() && has_range_params(params@) && !valid_range_params(params@)
            ==> (r.1 matches Action::Reject(WarpError::ParseError(_, k))
                && failure_kind_fits(failed_param(params@), k)),
{
    match requested_range(params) {
        Ok(p) => (GetQuestion::AwaitList, Action::ListQuestions(p)),
        Err(e) => (GetQuestion::Done, Action::Reject(e)),
    }
}


/// `POST /questions`: censor the title, then the content, then store the
/// question with the censored texts, and answer with the stored question.
#[derive(Debug)]
pub enum AddQuestion {
    AwaitTitle { account_id: AccountId, content: String, tags: Option<Vec<String>> },
    AwaitContent { account_id: AccountId, title: String, tags: Option<Vec<String>> },
    AwaitInsert,
    Done,
}

impl AddQuestion {
    /// The events that the state waits for.
    pub open spec fn accepts(self, ev: Event) -> bool {
        match self {
            AddQuestion::AwaitTitle { .. } => ev is Censored,
            AddQuestion::AwaitContent { .. } => ev is Censored,
            AddQuestion::AwaitInsert => ev is Stored,
            AddQuestion::Done => false,
        }
    }

    /// The next state and action.
    pub open spec fn next(self, ev: Event) -> (AddQuestion, Action) {
        match self {
            AddQuestion::AwaitTitle { account_id, content, tags } => match ev {
                Event::Censored(Ok(title)) => (
                    AddQuestion::AwaitContent { account_id, title, tags },
                    Action::Censor(content),
                ),
                Event::Censored(Err(e)) => (AddQuestion::Done, Action::Reject(e)),
                _ => arbitrary(),
            },
            AddQuestion::AwaitContent { account_id, title, tags } => match ev {
                Event::Censored(Ok(content)) => (
                    AddQuestion::AwaitInsert,
                    Action::InsertQuestion(NewQuestion { title, content, tags }, account_id),
                ),
                Event::Censored(Err(e)) => (AddQuestion::Done, Action::Reject(e)),
                _ => arbitrary(),
            },
            AddQuestion::AwaitInsert => match ev {
                Event::Stored(Ok(q)) => (AddQuestion::Done, Action::ReplyQuestion(q)),
                Event::Stored(Err(e)) => (AddQuestion::Done, Action::Reject(e)),
                _ => arbitrary(),
            },
            AddQuestion::Done => arbitrary(),
        }
    }

    /// Takes the outcome of the last action.
    pub fn step(self, ev: Event) -> (r: (AddQuestion, Action))
        requires
            self.accepts(ev),
        ensures
            r == self.next(ev),
    {
        match self {
            AddQuestion::AwaitTitle { account_id, content, tags } => match ev {
                Event::Censored(Ok(title)) => (
                    AddQuestion::AwaitContent { account_id, title, tags },
                    Action::Censor(content),
                ),
                Event::Censored(Err(e)) => (AddQuestion::Done, Action::Reject(e)),
                _ => {
                    proof {
                        assert(false);
                    }
                    (AddQuestion::Done, Action::Reject(WarpError::MissingParameters))
                },
            },
            AddQuestion::AwaitContent { account_id, title, tags } => match ev {
                Event::Censored(Ok(content)) => (
                    AddQuestion::AwaitInsert,
                    Action::InsertQuestion(NewQuestion { title, content, tags }, account_id),
                ),
                Event::Censored(Err(e)) => (AddQuestion::Done, Action::Reject(e)),
                _ => {
                    proof {
                        assert(false);
                    }
                    (AddQuestion::Done, Action::Reject(WarpError::MissingParameters))
                },
            },
            AddQuestion::AwaitInsert => match ev {
                Event::Stored(Ok(q)) => (AddQuestion::Done, Action::ReplyQuestion(q)),
                Event::Stored(Err(e)) => (AddQuestion::Done, Action::Reject(e)),
                _ => {
                    proof {
                        assert(false);
                    }
                    (AddQuestion::Done, Action::Reject(WarpError::MissingParameters))
                },
            },
            AddQuestion::Done => {
                proof {
                    assert(false);
                }
                (AddQuestion::Done, Action::Reject(WarpError::MissingParameters))
            },
        }
    }
}

/// The first state and action of `POST /questions`.
pub open spec fn add_question_start(account_id: AccountId, q: NewQuestion) -> (AddQuestion, Action) {
    (
        AddQuestion::AwaitTitle { account_id, content: q.content, tags: q.tags },
        Action::Censor(q.title),
    )
}

/// Starts `POST /questions` for the account of the session.
pub fn add_question(account_id: AccountId, new_question: NewQuestion) -> (r: (AddQuestion, Action))
    ensures
        r == add_question_start(account_id, new_question),
{
    (
        AddQuestion::AwaitTitle {
            account_id,
            content: new_question.content,
            tags: new_question.tags,
        },
        Action::Censor(new_question.title),
    )
}


/// `PUT /questions/{id}`: check that the account owns the question, censor
/// title and content at once, then overwrite the question and answer with it.
#[derive(Debug)]
pub enum UpdateQuestion {
    AwaitOwner { id: i32, account_id: AccountId, question: Question },
    AwaitCensor { id: i32, account_id: AccountId, question_id: QuestionId, tags: Option<Vec<String>> },
    AwaitStore,
    Done,
}

impl UpdateQuestion {
    /// The events that the state waits for. A censored title together with
    /// a failed content is left out: there the handler stops with a panic.
    pub open spec fn accepts(self, ev: Event) -> bool {
        match self {
            UpdateQuestion::AwaitOwner { .. } => ev is Owner,
            UpdateQuestion::AwaitCensor { .. } => ev matches Event::CensoredBoth(t, c)
                && !(t is Ok && c is Err),
            UpdateQuestion::AwaitStore => ev is Stored,
            UpdateQuestion::Done => false,
        }
    }

    /// The next state and action.
    pub open spec fn next(self, ev: Event) -> (UpdateQuestion, Action) {
        match self {
            UpdateQuestion::AwaitOwner { id, account_id, question } => match ev {
                Event::Owner(Ok(true)) => (
                    UpdateQuestion::AwaitCensor {
                        id,
                        account_id,
                        question_id: question.id,
                        tags: question.tags,
                    },
                    Action::CensorBoth(question.title, question.content),
                ),
                Event::Owner(Ok(false)) => (UpdateQuestion::Done, Action::Reject(WarpError::Unauthorized)),
                Event::Owner(Err(e)) => (UpdateQuestion::Done, Action::Reject(e)),
                _ => arbitrary(),
            },
            UpdateQuestion::AwaitCensor { id, account_id, question_id, tags } => match ev {
                Event::CensoredBoth(Ok(title), Ok(content)) => (
                    UpdateQuestion::AwaitStore,
                    Action::UpdateQuestion(Question { id: question_id, title, content, tags }, id, account_id),
                ),
                Event::CensoredBoth(Err(e), _) => (UpdateQuestion::Done, Action::Reject(e)),
                _ => arbitrary(),
            },
            UpdateQuestion::AwaitStore => match ev {
                Event::Stored(Ok(q)) => (UpdateQuestion::Done, Action::ReplyQuestion(q)),
                Event::Stored(Err(e)) => (UpdateQuestion::Done, Action::Reject(e)),
                _ => arbitrary(),
            },
            UpdateQuestion::Done => arbitrary(),
        }
    }

    /// Takes the outcome of the last action.
    pub fn step(self, ev: Event) -> (r: (UpdateQuestion, Action))
        requires
            self.accepts(ev),
        ensures
            r == self.next(ev),
    {
        match self {
            UpdateQuestion::AwaitOwner { id, account_id, question } => match ev {
                Event::Owner(Ok(owner)) => {
                    if owner {
                        (
                            UpdateQuestion::AwaitCensor {
                                id,
                                account_id,
                                question_id: question.id,
                                tags: question.tags,
                            },
                            Action::CensorBoth(question.title, question.content),
                        )
                    } else {
                        (UpdateQuestion::Done, Action::Reject(WarpError::Unauthorized))
                    }
                },
                Event::Owner(Err(e)) => (UpdateQuestion::Done, Action::Reject(e)),
                _ => {
                    proof {
                        assert(false);
                    }
                    (UpdateQuestion::Done, Action::Reject(WarpError::MissingParameters))
                },
            },
            UpdateQuestion::AwaitCensor { id, account_id, question_id, tags } => match ev {
                Event::CensoredBoth(Ok(title), Ok(content)) => (
                    UpdateQuestion::AwaitStore,
                    Action::UpdateQuestion(Question { id: question_id, title, content, tags }, id, account_id),
                ),
                Event::CensoredBoth(Err(e), _) => (UpdateQuestion::Done, Action::Reject(e)),
                _ => {
                    proof {
                        assert(false);
                    }
                    (UpdateQuestion::Done, Action::Reject(WarpError::MissingParameters))
                },
            },
            UpdateQuestion::AwaitStore => match ev {
                Event::Stored(Ok(q)) => (UpdateQuestion::Done, Action::ReplyQuestion(q)),
                Event::Stored(Err(e)) => (UpdateQuestion::Done, Action::Reject(e)),
                _ => {
                    proof {
                        assert(false);
                    }
                    (UpdateQuestion::Done, Action::Reject(WarpError::MissingParameters))
                },
            },
            UpdateQuestion::Done => {
                proof {
                    assert(false);
                }
                (UpdateQuestion::Done, Action::Reject(WarpError::MissingParameters))
            },
        }
    }
}

/// The first state and action of `PUT /questions/{id}`.
pub open spec fn update_question_start(id: i32, account_id: AccountId, question: Question) -> (UpdateQuestion, Action) {
    (UpdateQuestion::AwaitOwner { id, account_id, question }, Action::CheckOwner(id, account_id))
}

/// Starts `PUT /questions/{id}` for the account of the session.
pub fn update_question(id: i32, account_id: AccountId, question: Question) -> (r: (UpdateQuestion, Action))
    ensures
        r == update_question_start(id, account_id, question),
{
    (UpdateQuestion::AwaitOwner { id, account_id, question }, Action::CheckOwner(id, account_id))
}

/// `DELETE /questions/{id}`: check that the account owns the question, then
/// delete it and answer with `deleted_message`.
#[derive(Debug)]
pub enum DeleteQuestion {
    AwaitOwner { id: i32, account_id: AccountId },
    AwaitDelete { id: i32 },
    Done,
}

impl DeleteQuestion {
    /// The events that the state waits for.
    pub open spec fn accepts(self, ev: Event) -> bool {
        match self {
            DeleteQuestion::AwaitOwner { .. } => ev is Owner,
            DeleteQuestion::AwaitDelete { .. } => ev is Deleted,
            DeleteQuestion::Done => false,
        }
    }

    /// The next state and action.
    pub open spec fn next(self, ev: Event) -> (DeleteQuestion, Action) {
        match self {
            DeleteQuestion::AwaitOwner { id, account_id } => match ev {
                Event::Owner(Ok(true)) => (DeleteQuestion::AwaitDelete { id }, Action::DeleteQuestion(id)),
                Event::Owner(Ok(false)) => (DeleteQuestion::Done, Action::Reject(WarpError::Unauthorized)),
                Event::Owner(Err(e)) => (DeleteQuestion::Done, Action::Reject(e)),
                _ => arbitrary(),
            },
            DeleteQuestion::AwaitDelete { id } => match ev {
                Event::Deleted(Ok(_)) => (DeleteQuestion::Done, Action::ReplyDeleted(id)),
                Event::Deleted(Err(e)) => (DeleteQuestion::Done, Action::Reject(e)),
                _ => arbitrary(),
            },
            DeleteQuestion::Done => arbitrary(),
        }
    }

    /// Takes the outcome of the last action.
    pub fn step(self, ev: Event) -> (r: (DeleteQuestion, Action))
        requires
            self.accepts(ev),
        ensures
            r == self.next(ev),
    {
        match self {
            DeleteQuestion::AwaitOwner { id, account_id } => match ev {
                Event::Owner(Ok(owner)) => {
                    if owner {
                        (DeleteQuestion::AwaitDelete { id }, Action::DeleteQuestion(id))
                    } else {
                        (DeleteQuestion::Done, Action::Reject(WarpError::Unauthorized))
                    }
                },
                Event::Owner(Err(e)) => (DeleteQuestion::Done, Action::Reject(e)),
                _ => {
                    proof {
                        assert(false);
                    }
                    (DeleteQuestion::Done, Action::Reject(WarpError::MissingParameters))
                },
            },
            DeleteQuestion::AwaitDelete { id } => match ev {
                Event::Deleted(Ok(_)) => (DeleteQuestion::Done, Action::ReplyDeleted(id)),
                Event::Deleted(Err(e)) => (DeleteQuestion::Done, Action::Reject(e)),
                _ => {
                    proof {
                        assert(false);
                    }
                    (DeleteQuestion::Done, Action::Reject(WarpError::MissingParameters))
                },
            },
            DeleteQuestion::Done => {
                proof {
                    assert(false);
                }
                (DeleteQuestion::Done, Action::Reject(WarpError::MissingParameters))
            },
        }
    }
}

/// The first state and action of `DELETE /questions/{id}`.
pub open spec fn delete_question_start(id: i32, account_id: AccountId) -> (DeleteQuestion, Action) {
    (DeleteQuestion::AwaitOwner { id, account_id }, Action::CheckOwner(id, account_id))
}

/// Starts `DELETE /questions/{id}` for the account of the session.
pub fn delete_question(id: i32, account_id: AccountId) -> (r: (DeleteQuestion, Action))
    ensures
        r == delete_question_start(id, account_id),
{
    (DeleteQuestion::AwaitOwner { id, account_id }, Action::CheckOwner(id, account_id))
}


/// A question is stored only after the profanity filter has passed both its
/// title and its content, and it is stored with the censored texts, its own
/// tags and the session's account. The first failure of the filter rejects
/// the request with that failure, and the content is not filtered after a
/// failed title.
pub proof fn law_add_question_stores_censored_text(
    account_id: AccountId,
    q: NewQuestion,
    title: Result<String, WarpError>,
    content: Result<String, WarpError>,
)
    ensures
        ({
            let (s1, a1) = add_question_start(account_id, q);
            let (s2, a2) = s1.next(Event::Censored(title));
            let (s3, a3) = s2.next(Event::Censored(content));
            &&& a1 == Action::Censor(q.title)
            &&& s1.accepts(Event::Censored(title))
            &&& title matches Err(e) ==> s2 is Done && a2 == Action::Reject(e)
            &&& title is Ok ==> a2 == Action::Censor(q.content) && s2.accepts(Event::Censored(content))
            &&& title matches Ok(t) ==> (content matches Ok(c) ==> s3 is AwaitInsert && a3
                == Action::InsertQuestion(NewQuestion { title: t, content: c, tags: q.tags }, account_id))
            &&& title is Ok ==> (content matches Err(e) ==> s3 is Done && a3 == Action::Reject(e))
        }),
{
}

/// A question is overwritten only when the database says that the session's
/// account owns it; otherwise the request is refused as unauthorized, or
/// with the database's error. The overwrite keeps the question's id and tags,
/// takes the censored texts, and is limited to the account.
pub proof fn law_update_question_needs_owner(
    id: i32,
    account_id: AccountId,
    q: Question,
    owner: Result<bool, WarpError>,
    title: Result<String, WarpError>,
    content: Result<String, WarpError>,
)
    requires
        !(title is Ok && content is Err),
    ensures
        ({
            let (s1, a1) = update_question_start(id, account_id, q);
            let (s2, a2) = s1.next(Event::Owner(owner));
            let (s3, a3) = s2.next(Event::CensoredBoth(title, content));
            &&& a1 == Action::CheckOwner(id, account_id)
            &&& (a2 is CensorBoth <==> owner == Ok::<bool, WarpError>(true))
            &&& owner == Ok::<bool, WarpError>(false) ==> a2 == Action::Reject(WarpError::Unauthorized)
            &&& owner matches Err(e) ==> a2 == Action::Reject(e)
            &&& owner == Ok::<bool, WarpError>(true) ==> a2 == Action::CensorBoth(q.title, q.content)
                && s2.accepts(Event::CensoredBoth(title, content))
            &&& owner == Ok::<bool, WarpError>(true) ==> (title matches Ok(t) ==> (content matches Ok(c)
                ==> a3 == Action::UpdateQuestion(
                Question { id: q.id, title: t, content: c, tags: q.tags },
                id,
                account_id,
            )))
            &&& owner == Ok::<bool, WarpError>(true) ==> (title matches Err(e) ==> a3 == Action::Reject(e))
        }),
{
}

/// A question is deleted only when the database says that the session's
/// account owns it, and a deletion that succeeds is answered with
/// `deleted_message` of the same id.
pub proof fn law_delete_question_needs_owner(
    id: i32,
    account_id: AccountId,
    owner: Result<bool, WarpError>,
    deleted: Result<bool, WarpError>,
)
    ensures
        ({
            let (s1, a1) = delete_question_start(id, account_id);
            let (s2, a2) = s1.next(Event::Owner(owner));
            let (s3, a3) = s2.next(Event::Deleted(deleted));
            &&& a1 == Action::CheckOwner(id, account_id)
            &&& (a2 == Action::DeleteQuestion(id) <==> owner == Ok::<bool, WarpError>(true))
            &&& owner == Ok::<bool, WarpError>(false) ==> a2 == Action::Reject(WarpError::Unauthorized)
            &&& owner matches Err(e) ==> a2 == Action::Reject(e)
            &&& owner == Ok::<bool, WarpError>(true) ==> s2.accepts(Event::Deleted(deleted))
                && (deleted is Ok ==> a3 == Action::ReplyDeleted(id))
                && (deleted matches Err(e) ==> a3 == Action::Reject(e))
        }),
{
}


/// An action that ends the handler: a reply or a rejection.
pub open spec fn is_final(a: Action) -> bool {
    a is ReplyQuestions || a is ReplyQuestion || a is ReplyDeleted || a is Reject
}

/// An event is an outcome of the outside work that the action asks for. Of
/// the two filter runs of `CensorBoth`, a passed title with a failed content
/// is left out: there the handler stops with a panic.
pub open spec fn answers(a: Action, ev: Event) -> bool {
    match a {
        Action::Censor(_) => ev is Censored,
        Action::CensorBoth(_, _) => ev matches Event::CensoredBoth(t, c) && !(t is Ok && c is Err),
        Action::CheckOwner(_, _) => ev is Owner,
        Action::ListQuestions(_) => ev is Listed,
        Action::InsertQuestion(_, _) => ev is Stored,
        Action::UpdateQuestion(_, _, _) => ev is Stored,
        Action::DeleteQuestion(_) => ev is Deleted,
        _ => false,
    }
}

impl GetQuestion {
    /// How many more events the state can take.
    pub open spec fn pending(self) -> nat {
        match self {
            GetQuestion::AwaitList => 1,
            GetQuestion::Done => 0,
        }
    }
}

impl AddQuestion {
    /// How many more events the state can take.
    pub open spec fn pending(self) -> nat {
        match self {
            AddQuestion::AwaitTitle { .. } => 3,
            AddQuestion::AwaitContent { .. } => 2,
            AddQuestion::AwaitInsert => 1,
            AddQuestion::Done => 0,
        }
    }
}

impl UpdateQuestion {
    /// How many more events the state can take.
    pub open spec fn pending(self) -> nat {
        match self {
            UpdateQuestion::AwaitOwner { .. } => 3,
            UpdateQuestion::AwaitCensor { .. } => 2,
            UpdateQuestion::AwaitStore => 1,
            UpdateQuestion::Done => 0,
        }
    }
}

impl DeleteQuestion {
    /// How many more events the state can take.
    pub open spec fn pending(self) -> nat {
        match self {
            DeleteQuestion::AwaitOwner { .. } => 2,
            DeleteQuestion::AwaitDelete { .. } => 1,
            DeleteQuestion::Done => 0,
        }
    }
}

/// `GET /questions` never gets stuck and ends: after each accepted event the
/// handler either ends with a reply or rejection, or waits for exactly the
/// outcome of the action it asks for, with fewer events left.
pub proof fn law_get_question_flow(s: GetQuestion, ev: Event, ev2: Event)
    requires
        s.accepts(ev),
    ensures
        (is_final(s.next(ev).1) <==> s.next(ev).0 is Done),
        answers(s.next(ev).1, ev2) ==> s.next(ev).0.accepts(ev2),
        s.next(ev).0.pending() < s.pending(),
        (s.pending() == 0 <==> s is Done),
{
}

/// `POST /questions` never gets stuck and ends, in at most three events.
pub proof fn law_add_question_flow(s: AddQuestion, ev: Event, ev2: Event, account_id: AccountId, q: NewQuestion)
    ensures
        answers(add_question_start(account_id, q).1, ev2) ==> add_question_start(account_id, q).0.accepts(ev2),
        add_question_start(account_id, q).0.pending() == 3,
        s.accepts(ev) ==> (is_final(s.next(ev).1) <==> s.next(ev).0 is Done),
        s.accepts(ev) ==> (answers(s.next(ev).1, ev2) ==> s.next(ev).0.accepts(ev2)),
        s.accepts(ev) ==> s.next(ev).0.pending() < s.pending(),
        (s.pending() == 0 <==> s is Done),
{
}

/// `PUT /questions/{id}` never gets stuck and ends, in at most three events.
pub proof fn law_update_question_flow(
    s: UpdateQuestion,
    ev: Event,
    ev2: Event,
    id: i32,
    account_id: AccountId,
    q: Question,
)
    ensures
        answers(update_question_start(id, account_id, q).1, ev2)
            ==> update_question_start(id, account_id, q).0.accepts(ev2),
        update_question_start(id, account_id, q).0.pending() == 3,
        s.accepts(ev) ==> (is_final(s.next(ev).1) <==> s.next(ev).0 is Done),
        s.accepts(ev) ==> (answers(s.next(ev).1, ev2) ==> s.next(ev).0.accepts(ev2)),
        s.accepts(ev) ==> s.next(ev).0.pending() < s.pending(),
        (s.pending() == 0 <==> s is Done),
{
}

/// `DELETE /questions/{id}` never gets stuck and ends, in at most two events.
pub proof fn law_delete_question_flow(s: DeleteQuestion, ev: Event, ev2: Event, id: i32, account_id: AccountId)
    ensures
        answers(delete_question_start(id, account_id).1, ev2) ==> delete_question_start(id, account_id).0.accepts(ev2),
        delete_question_start(id, account_id).0.pending() == 2,
        s.accepts(ev) ==> (is_final(s.next(ev).1) <==> s.next(ev).0 is Done),
        s.accepts(ev) ==> (answers(s.next(ev).1, ev2) ==> s.next(ev).0.accepts(ev2)),
        s.accepts(ev) ==> s.next(ev).0.pending() < s.pending(),
        (s.pending() == 0 <==> s is Done),
{
}

/// A successful listing is answered with exactly the listed questions, and a
/// failed one is rejected with the database's error; either way the handler
/// ends.
pub proof fn law_get_question_replies_listed(s: GetQuestion, v: Vec<Question>, e: WarpError)
    ensures
        s.next(Event::Listed(Ok(v))) == (GetQuestion::Done, Action::ReplyQuestions(v)),
        s.next(Event::Listed(Err(e))) == (GetQuestion::Done, Action::Reject(e)),
{
}

/// After the insert, the handler answers with exactly the question that the
/// database stored, or rejects with the database's error.
pub proof fn law_add_question_replies_stored(q: Question, e: WarpError)
    ensures
        AddQuestion::AwaitInsert.next(Event::Stored(Ok(q))) == (AddQuestion::Done, Action::ReplyQuestion(q)),
        AddQuestion::AwaitInsert.next(Event::Stored(Err(e))) == (AddQuestion::Done, Action::Reject(e)),
{
}

/// After the overwrite, the handler answers with exactly the question that
/// the database returned, or rejects with the database's error.
pub proof fn law_update_question_replies_stored(q: Question, e: WarpError)
    ensures
        UpdateQuestion::AwaitStore.next(Event::Stored(Ok(q))) == (UpdateQuestion::Done, Action::ReplyQuestion(q)),
        UpdateQuestion::AwaitStore.next(Event::Stored(Err(e))) == (UpdateQuestion::Done, Action::Reject(e)),
{
}

/// The reply to a deletion names the deleted id: between `Question ` and
/// ` deleted` stands a text that reads back to the id (after a `-` when the
/// id is negative).
pub proof fn law_deleted_text_names_id(id: i32)
    ensures
        deleted_text(id).subrange(0, 9) == "Question "@,
        deleted_text(id).subrange(deleted_text(id).len() - 8, deleted_text(id).len() as int) == " deleted"@,
        id >= 0 ==> digits_value(deleted_text(id).subrange(9, deleted_text(id).len() - 8)) == id,
        id >= 0 ==> all_digits(deleted_text(id).subrange(9, deleted_text(id).len() - 8)),
        id < 0 ==> deleted_text(id)[9] == '-' && digits_value(
            deleted_text(id).subrange(10, deleted_text(id).len() - 8),
        ) == -id,
{
    reveal_strlit("Question ");
    reveal_strlit(" deleted");
    lemma_signed_decimal_reads_back(id as int);
    let t = signed_decimal(id as int);
    let d = deleted_text(id);
    assert(d.subrange(0, 9) =~= "Question "@);
    assert(d.subrange(d.len() - 8, d.len() as int) =~= " deleted"@);
    assert(d.subrange(9, d.len() - 8) =~= t);
    if id < 0 {
        assert(d.subrange(10, d.len() - 8) =~= t.drop_first());
    }
}

} // verus!
