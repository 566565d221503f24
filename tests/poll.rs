use std::collections::HashSet;

use immutable_bot::poll::{
    assemble_poll, correct_option_index, decoy_pool, handle_guesswho, has_enough_authors,
    poll_explanation, poll_question, quote_date_text, GuessWho, Poll,
};
use immutable_bot::replies::Reply;
use immutable_bot::store::{Author, Quote};

fn author(id: i64, name: Option<&str>) -> Author {
    Author { user_id: id, username: name.map(|n| n.to_string()) }
}

fn quote(user_id: i64, name: Option<&str>, text: &str, date: i64) -> Quote {
    Quote {
        id: 1,
        chat_id: 9,
        user_id,
        username: name.map(|n| n.to_string()),
        message_text: text.to_string(),
        message_date: date,
    }
}

fn poll_of(g: GuessWho) -> Poll {
    match g {
        GuessWho::Poll(p) => p,
        GuessWho::Rejected(r) => panic!("rejected: {:?}", r),
    }
}

#[test]
fn too_few_authors() {
    let none: Vec<Author> = Vec::new();
    let one = vec![author(1, Some("a"))];
    let same_user = vec![author(1, Some("a")), author(1, Some("b"))];
    for authors in [none, one, same_user] {
        assert!(!has_enough_authors(&authors));
        match handle_guesswho(&authors, Some(quote(1, Some("a"), "hi", 0))) {
            GuessWho::Rejected(r) => assert_eq!(r, Reply::NeedMoreAuthors),
            GuessWho::Poll(_) => panic!("no poll may be sent"),
        }
    }
}

#[test]
fn no_quote_found() {
    let authors = vec![author(1, Some("a")), author(2, None)];
    assert!(has_enough_authors(&authors));
    match handle_guesswho(&authors, None) {
        GuessWho::Rejected(r) => assert_eq!(r, Reply::NoQuotes),
        GuessWho::Poll(_) => panic!("no poll may be sent"),
    }
}

#[test]
fn two_author_poll() {
    let authors = vec![author(1, Some("alice")), author(555, None)];
    for quoted in [quote(1, Some("alice"), "hi", 0), quote(555, None, "yo", 0)] {
        let expected = if quoted.user_id == 1 { "@alice" } else { "User 555" };
        let p = poll_of(handle_guesswho(&authors, Some(quoted)));
        assert_eq!(p.options.len(), 2);
        let set: HashSet<&str> = p.options.iter().map(|s| s.as_str()).collect();
        assert_eq!(set, HashSet::from(["@alice", "User 555"]));
        assert_eq!(p.options[p.correct_option_id as usize], expected);
    }
}

#[test]
fn options_hold_correct_once_and_three_decoys() {
    let authors: Vec<Author> = (1..=6).map(|i| author(i, None)).collect();
    for _ in 0..20 {
        let p = poll_of(handle_guesswho(&authors, Some(quote(3, None, "q", 0))));
        assert_eq!(p.options.len(), 4);
        assert_eq!(p.options.iter().filter(|o| o.as_str() == "User 3").count(), 1);
        assert_eq!(p.options[p.correct_option_id as usize], "User 3");
        let distinct: HashSet<&String> = p.options.iter().collect();
        assert_eq!(distinct.len(), 4);
        for o in &p.options {
            assert!((1..=6).any(|i| *o == format!("User {}", i)));
        }
    }
}

#[test]
fn poll_texts() {
    let authors = vec![author(1, Some("alice")), author(2, Some("bob"))];
    let p = poll_of(handle_guesswho(&authors, Some(quote(2, Some("bob"), "to be", 0))));
    assert_eq!(p.question, "Who said this? (≖_≖)\n\"to be\"");
    assert_eq!(p.explanation.as_deref(), Some("🗓️ Quote from Jan 01, 1970 at 01:00 AM"));
}

#[test]
fn date_in_reference_zone() {
    assert_eq!(quote_date_text(0).as_deref(), Some("Jan 01, 1970 at 01:00 AM"));
    assert_eq!(quote_date_text(1_720_000_000).as_deref(), Some("Jul 03, 2024 at 11:46 AM"));
}

#[test]
fn decoy_pool_excludes_quoted_user() {
    let authors = vec![author(1, Some("a")), author(2, None), author(1, Some("old")), author(3, Some("c"))];
    assert_eq!(decoy_pool(&authors, 1), vec!["User 2".to_string(), "@c".to_string()]);
    assert!(decoy_pool(&authors, 4).len() == 4);
}

#[test]
fn correct_index_is_first_match() {
    let opts = vec!["@b".to_string(), "@a".to_string(), "@a".to_string()];
    assert_eq!(correct_option_index(&opts, &"@a".to_string()), 1);
    assert_eq!(correct_option_index(&opts, &"@z".to_string()), 0);
}

#[test]
fn assemble_fixed_order() {
    let q = quote(555, None, "hello", 0);
    let opts = vec!["@alice".to_string(), "User 555".to_string()];
    let p = assemble_poll(&q, opts.clone(), Some("today".to_string()));
    assert_eq!(p.options, opts);
    assert_eq!(p.correct_option_id, 1);
    assert_eq!(p.question, "Who said this? (≖_≖)\n\"hello\"");
    assert_eq!(p.explanation.as_deref(), Some("🗓️ Quote from today"));
    let bare = assemble_poll(&q, vec!["User 555".to_string()], None);
    assert_eq!(bare.correct_option_id, 0);
    assert_eq!(bare.explanation, None);
}

#[test]
fn question_and_explanation() {
    assert_eq!(poll_question(""), "Who said this? (≖_≖)\n\"\"");
    assert_eq!(poll_explanation("x"), "🗓️ Quote from x");
}

#[test]
fn correct_option_position_varies() {
    let authors: Vec<Author> = (1..=4).map(|i| author(i, None)).collect();
    let mut positions: HashSet<u8> = HashSet::new();
    for _ in 0..60 {
        let p = poll_of(handle_guesswho(&authors, Some(quote(1, None, "q", 0))));
        assert_eq!(p.options[p.correct_option_id as usize], "User 1");
        positions.insert(p.correct_option_id);
    }
    assert!(positions.len() > 1);
}

#[test]
fn colliding_display_resolves_to_first() {
    let authors = vec![author(1, Some("same")), author(2, Some("same"))];
    let p = poll_of(handle_guesswho(&authors, Some(quote(1, Some("same"), "q", 0))));
    assert_eq!(p.options, vec!["@same".to_string(), "@same".to_string()]);
    assert_eq!(p.correct_option_id, 0);
}

#[test]
fn decoys_are_distinct_pool_entries() {
    let authors: Vec<Author> = (1..=3).map(|i| author(i, None)).collect();
    for _ in 0..20 {
        let p = poll_of(handle_guesswho(&authors, Some(quote(2, None, "q", 0))));
        let mut got: Vec<String> = p.options.clone();
        got.sort();
        assert_eq!(got, vec!["User 1".to_string(), "User 2".to_string(), "User 3".to_string()]);
    }
}

#[test]
fn explanation_at_far_dates() {
    let authors = vec![author(1, None), author(2, None)];
    for secs in [-8_000_000_000_000i64, 8_000_000_000_000i64] {
        let p = poll_of(handle_guesswho(&authors, Some(quote(1, None, "q", secs))));
        assert!(p.explanation.is_some());
        assert!(quote_date_text(secs).is_some());
    }
}
