use vstd::prelude::*;
use rand::SeedableRng;
use rand::seq::SliceRandom;
use crate::display::{display_of, name_view, render_author};
use crate::replies::Reply;
use crate::store::{Author, Quote};

verus! {

broadcast use vstd::seq_lib::group_to_multiset_ensures;

/// A single-answer quiz poll, sent non-anonymously.
#[derive(Clone, Debug)]
pub struct Poll {
    pub question: String,
    pub options: Vec<String>,
    pub correct_option_id: u8,
    /// Absent only when the quote's time cannot be rendered.
    pub explanation: Option<String>,
}

/// What the guess-who command does.
#[derive(Clone, Debug)]
pub enum GuessWho {
    /// No poll; this reply is sent.
    Rejected(Reply),
    Poll(Poll),
}

/// The views of a sequence of strings.
pub open spec fn views(s: Seq<String>) -> Seq<Seq<char>> {
    s.map_values(|x: String| x@)
}

pub open spec fn author_display(a: Author) -> Seq<char> {
    display_of(a.user_id, name_view(a.username))
}

pub open spec fn quote_display(q: Quote) -> Seq<char> {
    display_of(q.user_id, name_view(q.username))
}

/// At least two distinct users are among the authors.
pub open spec fn has_two_authors(authors: Seq<Author>) -> bool {
    exists|i: int, j: int|
        0 <= i < authors.len() && 0 <= j < authors.len()
            && #[trigger] authors[i].user_id != #[trigger] authors[j].user_id
}

/// The rendered authors other than user `quoted`, in order: the decoy pool.
pub open spec fn others(authors: Seq<Author>, quoted: i64) -> Seq<Seq<char>>
    decreases authors.len(),
{
    if authors.len() == 0 {
        Seq::empty()
    } else {
        let rest = others(authors.drop_last(), quoted);
        if authors.last().user_id != quoted {
            rest.push(author_display(authors.last()))
        } else {
            rest
        }
    }
}

pub open spec fn question_text(text: Seq<char>) -> Seq<char> {
    "Who said this? (≖_≖)\n\""@ + text + "\""@
}

pub open spec fn explanation_text(date: Seq<char>) -> Seq<char> {
    "🗓️ Quote from "@ + date
}

/// The civil-time zone in which quote times are shown.
pub open spec fn reference_zone() -> Seq<char> {
    "Europe/Paris"@
}

/// The layout of a shown quote time: `<Mon> <DD>, <YYYY> at <hh>:<mm> <AM/PM>`.
pub open spec fn date_pattern() -> Seq<char> {
    "%b %d, %Y at %I:%M %p"@
}

/// Instants within 8 * 10^12 seconds of the Unix epoch, all of which chrono
/// can represent.
pub open spec fn in_date_range(secs: int) -> bool {
    -8_000_000_000_000 <= secs <= 8_000_000_000_000
}

/// The text of the instant `secs` seconds after the Unix epoch, in the time
/// zone named `zone`, laid out by the strftime-style `pattern`.
pub uninterp spec fn local_time_text(zone: Seq<char>, secs: int, pattern: Seq<char>) -> Seq<char>;

/// Relies on chrono_tz's `FromStr` for `Tz` (zone lookup by IANA name),
/// chrono's `DateTime::from_timestamp`, `with_timezone` and `format`: `None`
/// when the zone is unknown or the instant out of chrono's range (about
/// 262,000 years either side of the epoch), else the rendered text. Both
/// "Europe/Paris" and "UTC" are in chrono_tz's built-in table.
#[verifier::external_body]
fn render_in_zone(zone: &str, secs: i64, pattern: &str) -> (r: Option<String>)
    requires
        pattern@ == date_pattern(),
    ensures
        r matches Some(s) ==> s@ == local_time_text(zone@, secs as int, pattern@),
        (zone@ == "Europe/Paris"@ || zone@ == "UTC"@) && in_date_range(secs as int) ==> r is Some,
{
    let tz: chrono_tz::Tz = zone.parse().ok()?;
    let utc = chrono::DateTime::from_timestamp(secs, 0)?;
    Some(utc.with_timezone(&tz).format(pattern).to_string())
}

/// Renders a quote time in the reference zone; should that zone fail to
/// resolve, in UTC. Within the representable range the reference zone is
/// always resolved, so the text is always there.
pub fn quote_date_text(secs: i64) -> (r: Option<String>)
    ensures
        in_date_range(secs as int) ==> (r matches Some(s)
            && s@ == local_time_text(reference_zone(), secs as int, date_pattern())),
        r matches Some(s) ==> (s@ == local_time_text(reference_zone(), secs as int, date_pattern())
            || s@ == local_time_text("UTC"@, secs as int, date_pattern())),
{
    match render_in_zone("Europe/Paris", secs, "%b %d, %Y at %I:%M %p") {
        Some(s) => Some(s),
        None => render_in_zone("UTC", secs, "%b %d, %Y at %I:%M %p"),
    }
}

/// Relies on rand's `SliceRandom::choose_multiple` (seeded from entropy):
/// `min(amount, len)` clones of elements at distinct positions of the pool,
/// so no element comes out more often than the pool holds it.
#[verifier::external_body]
fn choose_decoys(pool: &Vec<String>, amount: usize) -> (r: Vec<String>)
    ensures
        r@.len() == if amount < pool@.len() { amount as int } else { pool@.len() as int },
        forall|i: int| 0 <= i < r@.len() ==> views(pool@).contains(#[trigger] r@[i]@),
        views(r@).to_multiset().subset_of(views(pool@).to_multiset()),
{
    let mut rng = rand::rngs::StdRng::from_entropy();
    pool.choose_multiple(&mut rng, amount).cloned().collect()
}

/// Relies on rand's `SliceRandom::shuffle` (seeded from entropy): the
/// elements are permuted by swaps.
#[verifier::external_body]
fn shuffle_options(options: &mut Vec<String>)
    ensures
        views(final(options)@).to_multiset() == views(old(options)@).to_multiset(),
        final(options)@.len() == old(options)@.len(),
{
    let mut rng = rand::rngs::StdRng::from_entropy();
    options.shuffle(&mut rng);
}

/// Whether at least two distinct users have quotes among `authors`.
pub fn has_enough_authors(authors: &Vec<Author>) -> (r: bool)
    ensures
        r == has_two_authors(authors@),
{
    let n = authors.len();
    if n == 0 {
        return false;
    }
    let first = authors[0].user_id;
    let mut i: usize = 1;
    while i < n
        invariant
            1 <= i <= n,
            n == authors@.len(),
            first == authors@[0].user_id,
            forall|k: int| 0 <= k < i ==> #[trigger] authors@[k].user_id == first,
        decreases n - i,
    {
        if authors[i].user_id != first {
            assert(authors@[i as int].user_id != authors@[0].user_id);
            return true;
        }
        i += 1;
    }
    false
}

/// The decoy pool: every author but user `quoted`, rendered, in order.
pub fn decoy_pool(authors: &Vec<Author>, quoted: i64) -> (r: Vec<String>)
    ensures
        views(r@) == others(authors@, quoted),
{
    let mut pool: Vec<String> = Vec::new();
    let mut i: usize = 0;
    while i < authors.len()
        invariant
            i <= authors@.len(),
            views(pool@) == others(authors@.subrange(0, i as int), quoted),
        decreases authors@.len() - i,
    {
        let ghost prefix = authors@.subrange(0, i as int + 1);
        assert(prefix.drop_last() =~= authors@.subrange(0, i as int));
        if authors[i].user_id != quoted {
            let shown = render_author(authors[i].user_id, &authors[i].username);
            let ghost before = pool@;
            pool.push(shown);
            assert(views(pool@) =~= views(before).push(shown@));
        }
        i += 1;
    }
    assert(authors@.subrange(0, authors@.len() as int) =~= authors@);
    pool
}

proof fn lemma_others_nonempty(authors: Seq<Author>, quoted: i64, i: int)
    requires
        0 <= i < authors.len(),
        authors[i].user_id != quoted,
    ensures
        others(authors, quoted).len() >= 1,
    decreases authors.len(),
{
    if i < authors.len() - 1 {
        lemma_others_nonempty(authors.drop_last(), quoted, i);
    }
}

/// The position of the first option equal to `correct`, or zero when none is.
pub fn correct_option_index(options: &Vec<String>, correct: &String) -> (r: usize)
    ensures
        views(options@).contains(correct@) ==> {
            &&& r < options@.len()
            &&& options@[r as int]@ == correct@
            &&& forall|k: int| 0 <= k < r ==> (#[trigger] options@[k])@ != correct@
        },
        !views(options@).contains(correct@) ==> r == 0,
{
    let mut i: usize = 0;
    while i < options.len()
        invariant
            i <= options@.len(),
            forall|k: int| 0 <= k < i ==> (#[trigger] options@[k])@ != correct@,
        decreases options@.len() - i,
    {
        if options[i] == *correct {
            assert(views(options@)[i as int] == correct@);
            return i;
        }
        i += 1;
    }
    assert forall|k: int| 0 <= k < views(options@).len() implies views(options@)[k] != correct@ by {
        assert(options@[k]@ != correct@);
    }
    0
}

/// The poll's question: the quoted text verbatim, in quotation marks.
pub fn poll_question(text: &str) -> (r: String)
    ensures
        r@ == question_text(text@),
{
    String::from_str("Who said this? (≖_≖)\n\"").concat(text).concat("\"")
}

/// The poll's explanation, naming the quote's rendered time.
pub fn poll_explanation(date: &str) -> (r: String)
    ensures
        r@ == explanation_text(date@),
{
    String::from_str("🗓️ Quote from ").concat(date)
}

/// Builds the poll from its options in their final order: the correct option
/// is the first one that shows the quote's author (zero when none does), and
/// the explanation is present exactly when the quote's time was rendered.
pub fn assemble_poll(quote: &Quote, options: Vec<String>, date: Option<String>) -> (r: Poll)
    requires
        options@.len() <= 256,
    ensures
        r.question@ == question_text(quote.message_text@),
        r.options@ == options@,
        views(options@).contains(quote_display(*quote)) ==> {
            &&& (r.correct_option_id as int) < options@.len()
            &&& options@[r.correct_option_id as int]@ == quote_display(*quote)
            &&& forall|k: int| 0 <= k < r.correct_option_id ==> (#[trigger] options@[k])@ != quote_display(*quote)
        },
        !views(options@).contains(quote_display(*quote)) ==> r.correct_option_id == 0,
        r.explanation is Some <==> date is Some,
        r.explanation matches Some(e) ==> e@ == explanation_text(date->0@),
{
    let correct = render_author(quote.user_id, &quote.username);
    let index = correct_option_index(&options, &correct);
    let explanation = match &date {
        Some(d) => Some(poll_explanation(d.as_str())),
        None => None,
    };
    Poll {
        question: poll_question(quote.message_text.as_str()),
        options,
        correct_option_id: index as u8,
        explanation,
    }
}

/// The guess-who command. Fewer than two distinct users among the chat's quote
/// authors: no poll. No quote: no poll. Otherwise a poll whose options are the
/// quoted author and up to three other authors, shuffled, with the correct
/// option pointing at the quoted author's first occurrence.
pub fn handle_guesswho(authors: &Vec<Author>, quote: Option<Quote>) -> (r: GuessWho)
    ensures
        !has_two_authors(authors@) ==> r matches GuessWho::Rejected(Reply::NeedMoreAuthors),
        has_two_authors(authors@) && quote is None ==> r matches GuessWho::Rejected(Reply::NoQuotes),
        has_two_authors(authors@) && quote is Some ==> (r matches GuessWho::Poll(p) && {
            let q = quote->0;
            let c = quote_display(q);
            let pool = others(authors@, q.user_id);
            let n = p.options@.len();
            let id = p.correct_option_id as int;
            &&& n == 1 + if pool.len() < 3 { pool.len() } else { 3 }
            &&& 2 <= n <= 4
            &&& id < n
            &&& p.options@[id]@ == c
            &&& forall|k: int| 0 <= k < id ==> (#[trigger] p.options@[k])@ != c
            &&& forall|k: int| 0 <= k < n ==> (#[trigger] p.options@[k])@ == c || pool.contains(p.options@[k]@)
            &&& !pool.contains(c) ==> views(p.options@).to_multiset().count(c) == 1
            &&& views(p.options@).to_multiset().subset_of(pool.to_multiset().insert(c))
            &&& p.question@ == question_text(q.message_text@)
            &&& in_date_range(q.message_date as int) ==> (p.explanation matches Some(e)
                && e@ == explanation_text(local_time_text(reference_zone(), q.message_date as int, date_pattern())))
            &&& p.explanation matches Some(e) ==> (
                e@ == explanation_text(local_time_text(reference_zone(), q.message_date as int, date_pattern()))
                || e@ == explanation_text(local_time_text("UTC"@, q.message_date as int, date_pattern())))
        }),
{
    if !has_enough_authors(authors) {
        return GuessWho::Rejected(Reply::NeedMoreAuthors);
    }
    let q = match quote {
        Some(q) => q,
        None => return GuessWho::Rejected(Reply::NoQuotes),
    };
    let correct = render_author(q.user_id, &q.username);
    let ghost c = correct@;
    let pool = decoy_pool(authors, q.user_id);
    let ghost pv = others(authors@, q.user_id);
    proof {
        let (i, j) = choose|i: int, j: int|
            0 <= i < authors@.len() && 0 <= j < authors@.len()
                && #[trigger] authors@[i].user_id != #[trigger] authors@[j].user_id;
        if authors@[i].user_id != q.user_id {
            lemma_others_nonempty(authors@, q.user_id, i);
        } else {
            lemma_others_nonempty(authors@, q.user_id, j);
        }
    }
    let amount: usize = if pool.len() < 3 { pool.len() } else { 3 };
    let chosen = choose_decoys(&pool, amount);
    let mut options: Vec<String> = Vec::new();
    options.push(correct.clone());
    assert(views(options@) =~= seq![c]);
    assert(views(options@) =~= Seq::<Seq<char>>::empty().push(c));
    assert(views(chosen@.subrange(0, 0)) =~= Seq::<Seq<char>>::empty());
    let mut i: usize = 0;
    while i < chosen.len()
        invariant
            i <= chosen@.len(),
            chosen@.len() == amount,
            options@.len() == 1 + i,
            views(pool@) == pv,
            forall|j: int| 0 <= j < chosen@.len() ==> views(pool@).contains(#[trigger] chosen@[j]@),
            forall|k: int| 0 <= k < options@.len() ==> (#[trigger] options@[k])@ == c || pv.contains(options@[k]@),
            views(options@).to_multiset().count(c) >= 1,
            !pv.contains(c) ==> views(options@).to_multiset().count(c) == 1,
            views(options@).to_multiset() == views(chosen@.subrange(0, i as int)).to_multiset().insert(c),
        decreases chosen@.len() - i,
    {
        let x = chosen[i].clone();
        let ghost before = options@;
        assert(pv.contains(chosen@[i as int]@));
        options.push(x);
        assert(views(options@) =~= views(before).push(x@));
        assert(views(chosen@.subrange(0, i as int + 1)) =~= views(chosen@.subrange(0, i as int)).push(x@));
        assert(views(options@).to_multiset() =~= views(chosen@.subrange(0, i as int + 1)).to_multiset().insert(c));
        i += 1;
    }
    assert(chosen@.subrange(0, chosen@.len() as int) =~= chosen@);
    assert(views(options@).to_multiset().subset_of(pv.to_multiset().insert(c))) by {
        assert forall|v: Seq<char>| views(options@).to_multiset().count(v) <= #[trigger] pv.to_multiset().insert(c).count(v) by {
            assert(views(chosen@).to_multiset().count(v) <= pv.to_multiset().count(v));
        }
    }
    let ghost unshuffled = options@;
    shuffle_options(&mut options);
    assert forall|k: int| 0 <= k < options@.len() implies (#[trigger] options@[k])@ == c || pv.contains(options@[k]@) by {
        let x = options@[k]@;
        assert(views(options@)[k] == x);
        assert(views(options@).to_multiset().count(x) > 0);
        assert(views(unshuffled).contains(x));
        let j = choose|j: int| 0 <= j < views(unshuffled).len() && views(unshuffled)[j] == x;
        assert(unshuffled[j]@ == x);
    }
    assert(views(options@).contains(c));
    let date = quote_date_text(q.message_date);
    let poll = assemble_poll(&q, options, date);
    GuessWho::Poll(poll)
}

} // verus!
