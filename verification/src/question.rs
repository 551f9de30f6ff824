//! Questions as the service stores and returns them.
use vstd::prelude::*;

verus! {

/// The database id of a question.
#[derive(Debug, Clone, Copy, PartialEq, Eq, Hash)]
pub struct QuestionId(pub i32);

/// A stored question.
#[derive(Debug, Clone, PartialEq, Eq)]
pub struct Question {
    pub id: QuestionId,
    pub title: String,
    pub content: String,
    pub tags: Option<Vec<String>>,
}

/// A question that a client submits, before it has an id.
#[derive(Debug, Clone, PartialEq, Eq)]
pub struct NewQuestion {
    pub title: String,
    pub content: String,
    pub tags: Option<Vec<String>>,
}

} // verus!
