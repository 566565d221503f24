use immutable_bot::capture::{handle_quote, quote_saved_reply, Capture, NewQuote, RepliedMessage, Sender};
use immutable_bot::replies::Reply;
use immutable_bot::store::SqliteRequestError;

fn sender(id: u64, name: Option<&str>) -> Sender {
    Sender { id, username: name.map(|n| n.to_string()) }
}

fn stored(c: Capture) -> NewQuote {
    match c {
        Capture::Store(q) => q,
        Capture::Rejected(r) => panic!("rejected: {:?}", r),
    }
}

#[test]
fn quote_without_reply() {
    match handle_quote(5, None) {
        Capture::Rejected(r) => {
            assert_eq!(r, Reply::ReplyRequired);
            assert_eq!(r.text(), "⚠️ Please reply to a message with /quote to save it ꉂ(˵˃ ᗜ ˂˵)");
        }
        Capture::Store(_) => panic!("nothing may be stored"),
    }
}

#[test]
fn quote_of_non_text_message() {
    let m = RepliedMessage { text: None, from: Some(sender(9, Some("dave"))), forward_from: None, date: 100 };
    match handle_quote(5, Some(m)) {
        Capture::Rejected(r) => assert_eq!(r, Reply::TextOnly),
        Capture::Store(_) => panic!("nothing may be stored"),
    }
}

#[test]
fn quote_from_replied_sender() {
    let m = RepliedMessage {
        text: Some("hello".to_string()),
        from: Some(sender(9, Some("dave"))),
        forward_from: None,
        date: 1_700_000_000,
    };
    let q = stored(handle_quote(5, Some(m)));
    assert_eq!(q.chat_id, 5);
    assert_eq!(q.user_id, 9);
    assert_eq!(q.username.as_deref(), Some("dave"));
    assert_eq!(q.message_text, "hello");
    assert_eq!(q.message_date, 1_700_000_000);
}

#[test]
fn quote_of_forwarded_message() {
    let m = RepliedMessage {
        text: Some("original words".to_string()),
        from: Some(sender(9, Some("forwarder"))),
        forward_from: Some(sender(77, Some("speaker"))),
        date: 10,
    };
    let q = stored(handle_quote(5, Some(m)));
    assert_eq!(q.user_id, 77);
    assert_eq!(q.username.as_deref(), Some("speaker"));
}

#[test]
fn quote_without_sender() {
    let m = RepliedMessage { text: Some("anon".to_string()), from: None, forward_from: None, date: 10 };
    let q = stored(handle_quote(5, Some(m)));
    assert_eq!(q.user_id, 0);
    assert_eq!(q.username, None);
}

#[test]
fn saved_and_failed_replies() {
    let q = NewQuote {
        chat_id: 5,
        user_id: 555,
        username: None,
        message_text: "x".to_string(),
        message_date: 0,
    };
    assert_eq!(quote_saved_reply(&q, &Ok(())), "✅ Quote saved from User 555!");
    let err = Err(SqliteRequestError { detail: "disk I/O error".to_string() });
    assert_eq!(quote_saved_reply(&q, &err), "❌ Failed to save quote (⊙ _ ⊙ )");
    let named = NewQuote { username: Some("alice".to_string()), ..q };
    assert_eq!(quote_saved_reply(&named, &Ok(())), "✅ Quote saved from @alice!");
}
