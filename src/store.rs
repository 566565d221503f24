use vstd::prelude::*;

verus! {

/// A storage failure, carrying the storage engine's description of it.
#[derive(Clone, Debug)]
pub struct SqliteRequestError {
    pub detail: String,
}

/// A persisted quote. `message_date` is the original message's time, in
/// seconds since the Unix epoch (UTC).
#[derive(Clone, Debug)]
pub struct Quote {
    pub id: i64,
    pub chat_id: i64,
    pub user_id: i64,
    pub username: Option<String>,
    pub message_text: String,
    pub message_date: i64,
}

/// One distinct (user, handle) pair among a chat's quote authors.
#[derive(Clone, Debug)]
pub struct Author {
    pub user_id: i64,
    pub username: Option<String>,
}

/// A write to the authorized-chats table.
#[derive(Clone, Copy, Debug, PartialEq, Eq, Structural)]
pub enum AuthChange {
    /// Insert the row of this chat.
    Grant(i64),
    /// Delete the row of this chat.
    Revoke(i64),
}

/// The authorized-chats table, seen as the set of its chat keys, after an
/// optional write.
pub open spec fn apply_change(table: Set<i64>, change: Option<AuthChange>) -> Set<i64> {
    match change {
        Some(AuthChange::Grant(c)) => table.insert(c),
        Some(AuthChange::Revoke(c)) => table.remove(c),
        None => table,
    }
}

/// Fail-closed reading of an authorization lookup: only a successful lookup
/// that found the row authorizes.
pub open spec fn lookup_grants(lookup: Result<bool, SqliteRequestError>) -> bool {
    match lookup {
        Ok(found) => found,
        Err(_) => false,
    }
}

/// Decides whether a chat is authorized from the result of looking up its
/// row: a missing row and a failed lookup both mean "not authorized".
pub fn is_chat_authorized(lookup: &Result<bool, SqliteRequestError>) -> (r: bool)
    ensures
        r == lookup_grants(*lookup),
{
    match lookup {
        Ok(found) => *found,
        Err(_) => false,
    }
}

} // verus!
