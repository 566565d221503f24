use vstd::prelude::*;
use crate::replies::Reply;
use crate::store::{AuthChange, apply_change, lookup_grants, SqliteRequestError};

verus! {

/// The bot's commands.
#[derive(Clone, Copy, Debug, PartialEq, Eq, Structural)]
pub enum Command {
    Help,
    Quote,
    GuessWho,
    Hug,
    Authorize,
    Deauthorize,
}

/// Where a command goes once the chat authorization gate has been applied.
#[derive(Clone, Copy, Debug, PartialEq, Eq, Structural)]
pub enum Route {
    /// The chat is not authorized: send this reply and stop.
    Rejected(Reply),
    Help,
    Quote,
    GuessWho,
    Hug,
    Authorize,
    Deauthorize,
}

/// Every command but the two administrative ones needs an authorized chat.
pub open spec fn needs_chat_authorization(cmd: Command) -> bool {
    !(cmd == Command::Authorize || cmd == Command::Deauthorize)
}

pub open spec fn route_of(cmd: Command, chat_authorized: bool) -> Route {
    if needs_chat_authorization(cmd) && !chat_authorized {
        Route::Rejected(Reply::NotAuthorized)
    } else {
        match cmd {
            Command::Help => Route::Help,
            Command::Quote => Route::Quote,
            Command::GuessWho => Route::GuessWho,
            Command::Hug => Route::Hug,
            Command::Authorize => Route::Authorize,
            Command::Deauthorize => Route::Deauthorize,
        }
    }
}

/// Whether dispatching `cmd` first needs the chat's authorization lookup.
pub fn requires_chat_authorization(cmd: Command) -> (r: bool)
    ensures
        r == needs_chat_authorization(cmd),
{
    !(cmd == Command::Authorize || cmd == Command::Deauthorize)
}

/// Routes a command: a command that needs an authorized chat is rejected with
/// the fixed message when the chat is not authorized; otherwise it goes to its
/// handler. `chat_authorized` is not read for the administrative commands.
pub fn answer(cmd: Command, chat_authorized: bool) -> (r: Route)
    ensures
        r == route_of(cmd, chat_authorized),
{
    if requires_chat_authorization(cmd) && !chat_authorized {
        return Route::Rejected(Reply::NotAuthorized);
    }
    match cmd {
        Command::Help => Route::Help,
        Command::Quote => Route::Quote,
        Command::GuessWho => Route::GuessWho,
        Command::Hug => Route::Hug,
        Command::Authorize => Route::Authorize,
        Command::Deauthorize => Route::Deauthorize,
    }
}

/// The identifier of the invoking user, zero when the message has no sender.
pub open spec fn caller_id(caller: Option<u64>) -> u64 {
    match caller {
        Some(id) => id,
        None => 0,
    }
}

/// Whether the invoking user is the administrator. A message without a sender
/// counts as user zero.
pub fn check_admin(caller: Option<u64>, admin_id: u64) -> (r: bool)
    ensures
        r == (caller_id(caller) == admin_id),
{
    let id: u64 = match caller {
        Some(id) => id,
        None => 0,
    };
    id == admin_id
}

/// What an administrative command does: an optional write to the
/// authorized-chats table, then a reply, sent once the write has succeeded.
#[derive(Clone, Copy, Debug, PartialEq, Eq, Structural)]
pub struct AdminOutcome {
    pub change: Option<AuthChange>,
    pub reply: Reply,
}

pub open spec fn authorize_outcome(
    caller: Option<u64>,
    admin_id: u64,
    chat_id: i64,
    chat_authorized: bool,
) -> AdminOutcome {
    if caller_id(caller) != admin_id {
        AdminOutcome { change: None, reply: Reply::AdminOnly }
    } else if chat_authorized {
        AdminOutcome { change: None, reply: Reply::AlreadyAuthorized }
    } else {
        AdminOutcome { change: Some(AuthChange::Grant(chat_id)), reply: Reply::Authorized }
    }
}

pub open spec fn deauthorize_outcome(
    caller: Option<u64>,
    admin_id: u64,
    chat_id: i64,
    chat_authorized: bool,
) -> AdminOutcome {
    if caller_id(caller) != admin_id {
        AdminOutcome { change: None, reply: Reply::AdminOnly }
    } else if !chat_authorized {
        AdminOutcome { change: None, reply: Reply::NotCurrentlyAuthorized }
    } else {
        AdminOutcome { change: Some(AuthChange::Revoke(chat_id)), reply: Reply::Deauthorized }
    }
}

/// The authorize command. Only the administrator may use it, whether or not
/// the chat is authorized; the row is inserted only when the chat's lookup
/// found none, so the table's uniqueness is never violated.
pub fn handle_authorize(caller: Option<u64>, admin_id: u64, chat_id: i64, chat_authorized: bool) -> (r: AdminOutcome)
    ensures
        r == authorize_outcome(caller, admin_id, chat_id, chat_authorized),
{
    if !check_admin(caller, admin_id) {
        AdminOutcome { change: None, reply: Reply::AdminOnly }
    } else if chat_authorized {
        AdminOutcome { change: None, reply: Reply::AlreadyAuthorized }
    } else {
        AdminOutcome { change: Some(AuthChange::Grant(chat_id)), reply: Reply::Authorized }
    }
}

/// The deauthorize command. Only the administrator may use it; the row is
/// deleted only when the chat's lookup found it.
pub fn handle_deauthorize(caller: Option<u64>, admin_id: u64, chat_id: i64, chat_authorized: bool) -> (r: AdminOutcome)
    ensures
        r == deauthorize_outcome(caller, admin_id, chat_id, chat_authorized),
{
    if !check_admin(caller, admin_id) {
        AdminOutcome { change: None, reply: Reply::AdminOnly }
    } else if !chat_authorized {
        AdminOutcome { change: None, reply: Reply::NotCurrentlyAuthorized }
    } else {
        AdminOutcome { change: Some(AuthChange::Revoke(chat_id)), reply: Reply::Deauthorized }
    }
}

/// The reply to an administrative command once its write, if any, has run:
/// the planned reply when the write succeeded or none was needed, the generic
/// failure message when it failed.
pub fn admin_reply(outcome: AdminOutcome, write: &Result<(), SqliteRequestError>) -> (r: Reply)
    ensures
        r == (if write is Ok { outcome.reply } else { Reply::UpdateFailed }),
{
    match write {
        Ok(_) => outcome.reply,
        Err(_) => Reply::UpdateFailed,
    }
}

/// With the table read through the fail-closed lookup: a chat without a row is
/// not authorized; after the administrator's authorize command it is; after the
/// administrator's deauthorize command it is not again.
pub proof fn lemma_authorize_then_deauthorize(table: Set<i64>, chat_id: i64, admin_id: u64)
    requires
        !table.contains(chat_id),
    ensures
        !lookup_grants(Ok::<bool, SqliteRequestError>(table.contains(chat_id))),
        ({
            let granted = apply_change(
                table,
                authorize_outcome(Some(admin_id), admin_id, chat_id, table.contains(chat_id)).change,
            );
            let revoked = apply_change(
                granted,
                deauthorize_outcome(Some(admin_id), admin_id, chat_id, granted.contains(chat_id)).change,
            );
            &&& lookup_grants(Ok::<bool, SqliteRequestError>(granted.contains(chat_id)))
            &&& !lookup_grants(Ok::<bool, SqliteRequestError>(revoked.contains(chat_id)))
        }),
{
}

/// A command of anyone but the administrator leaves the authorized-chats table
/// as it was and is answered with the admin-only message.
pub proof fn lemma_non_admin_changes_nothing(
    table: Set<i64>,
    caller: Option<u64>,
    admin_id: u64,
    chat_id: i64,
)
    requires
        caller_id(caller) != admin_id,
    ensures
        ({
            let a = authorize_outcome(caller, admin_id, chat_id, table.contains(chat_id));
            let d = deauthorize_outcome(caller, admin_id, chat_id, table.contains(chat_id));
            &&& apply_change(table, a.change) == table && a.reply == Reply::AdminOnly
            &&& apply_change(table, d.change) == table && d.reply == Reply::AdminOnly
        }),
{
}

/// Authorizing twice in a row: the first command inserts the row and confirms,
/// the second answers "already authorized" and writes nothing, so the chat has
/// exactly its one row.
pub proof fn lemma_authorize_twice(table: Set<i64>, chat_id: i64, admin_id: u64)
    requires
        !table.contains(chat_id),
    ensures
        ({
            let first = authorize_outcome(Some(admin_id), admin_id, chat_id, table.contains(chat_id));
            let once = apply_change(table, first.change);
            let second = authorize_outcome(Some(admin_id), admin_id, chat_id, once.contains(chat_id));
            &&& first.reply == Reply::Authorized
            &&& once == table.insert(chat_id)
            &&& second.reply == Reply::AlreadyAuthorized
            &&& apply_change(once, second.change) == once
        }),
{
}

} // verus!
