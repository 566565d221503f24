use vstd::prelude::*;
use crate::display::{display_of, name_view, render_author};
use crate::replies::{Reply, reply_text};
use crate::store::SqliteRequestError;

verus! {

/// A message's sender as the platform reports it.
#[derive(Clone, Debug)]
pub struct Sender {
    pub id: u64,
    pub username: Option<String>,
}

/// The message a quote command replies to. `date` is its original time in
/// seconds since the Unix epoch; `text` is absent for non-text content;
/// `forward_from` is the user it was forwarded from, when it is a forward of a
/// user's message (then `from` is whoever forwarded it).
#[derive(Clone, Debug)]
pub struct RepliedMessage {
    pub text: Option<String>,
    pub from: Option<Sender>,
    pub forward_from: Option<Sender>,
    pub date: i64,
}

/// A quote row to insert.
#[derive(Clone, Debug)]
pub struct NewQuote {
    pub chat_id: i64,
    pub user_id: i64,
    pub username: Option<String>,
    pub message_text: String,
    pub message_date: i64,
}

/// What a quote command does.
#[derive(Clone, Debug)]
pub enum Capture {
    /// Nothing is stored; this reply is sent.
    Rejected(Reply),
    /// This row is inserted.
    Store(NewQuote),
}

/// The sender a quote is attributed to: the original speaker when the
/// replied-to message is a forward, else its direct sender.
pub open spec fn attributed_sender(replied: RepliedMessage) -> Option<Sender> {
    match replied.forward_from {
        Some(u) => Some(u),
        None => replied.from,
    }
}

/// The stored author id of an attributed sender; zero when there is none.
pub open spec fn author_id(sender: Option<Sender>) -> i64 {
    match sender {
        Some(u) => u.id as i64,
        None => 0,
    }
}

pub open spec fn author_handle(sender: Option<Sender>) -> Option<Seq<char>> {
    match sender {
        Some(u) => name_view(u.username),
        None => None,
    }
}

fn clone_name(username: &Option<String>) -> (r: Option<String>)
    ensures
        name_view(r) == name_view(*username),
{
    match username {
        Some(u) => Some(u.clone()),
        None => None,
    }
}

/// The quote command. Without a replied-to message it asks for one; a
/// replied-to message without text is refused; otherwise the row to insert
/// holds the chat, the replied-to text and original time, and the author
/// preferred from the replied-to message's forward origin, then from its sender, then user zero
/// without handle.
pub fn handle_quote(chat_id: i64, replied: Option<RepliedMessage>) -> (r: Capture)
    ensures
        replied is None ==> r == Capture::Rejected(Reply::ReplyRequired),
        replied is Some && replied->0.text is None ==> r == Capture::Rejected(Reply::TextOnly),
        replied is Some && replied->0.text is Some ==> (r matches Capture::Store(q) && {
            let m = replied->0;
            &&& q.chat_id == chat_id
            &&& q.message_text@ == m.text->0@
            &&& q.message_date == m.date
            &&& q.user_id == author_id(attributed_sender(m))
            &&& name_view(q.username) == author_handle(attributed_sender(m))
        }),
{
    let m = match replied {
        Some(m) => m,
        None => return Capture::Rejected(Reply::ReplyRequired),
    };
    let text = match &m.text {
        Some(t) => t.clone(),
        None => return Capture::Rejected(Reply::TextOnly),
    };
    let (user_id, username) = match &m.forward_from {
        Some(u) => (u.id as i64, clone_name(&u.username)),
        None => match &m.from {
            Some(u) => (u.id as i64, clone_name(&u.username)),
            None => (0i64, None),
        },
    };
    Capture::Store(NewQuote {
        chat_id,
        user_id,
        username,
        message_text: text,
        message_date: m.date,
    })
}

/// The confirmation sent after a quote has been stored.
pub open spec fn saved_text(q: NewQuote) -> Seq<char> {
    "✅ Quote saved from "@ + display_of(q.user_id, name_view(q.username)) + "!"@
}

/// The reply to a quote insert: the confirmation naming the rendered author on
/// success, the generic failure message otherwise.
pub fn quote_saved_reply(q: &NewQuote, result: &Result<(), SqliteRequestError>) -> (r: String)
    ensures
        result is Ok ==> r@ == saved_text(*q),
        result is Err ==> r@ == reply_text(Reply::SaveFailed),
{
    match result {
        Ok(_) => {
            let name = render_author(q.user_id, &q.username);
            let r = String::from_str("✅ Quote saved from ").concat(name.as_str()).concat("!");
            r
        },
        Err(_) => String::from_str(Reply::SaveFailed.text()),
    }
}

} // verus!
