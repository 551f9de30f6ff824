//! Accounts of the users who ask questions.
use vstd::prelude::*;

verus! {

/// The database id of an account.
#[derive(Debug, Clone, Copy, PartialEq, Eq, Hash)]
pub struct AccountId(pub i32);

/// A stored account; `id` is absent before the database assigns one.
#[derive(Debug, Clone, PartialEq, Eq)]
pub struct Account {
    pub id: Option<AccountId>,
    pub email: String,
    pub password: String,
}

/// The data of a registration.
#[derive(Debug, Clone, PartialEq, Eq)]
pub struct NewAccount {
    pub email: String,
    pub password: String,
}

} // verus!
