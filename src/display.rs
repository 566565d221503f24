use vstd::prelude::*;

verus! {

/// The character of one decimal digit.
pub open spec fn digit_char(d: nat) -> char {
    if d == 0 { '0' }
    else if d == 1 { '1' }
    else if d == 2 { '2' }
    else if d == 3 { '3' }
    else if d == 4 { '4' }
    else if d == 5 { '5' }
    else if d == 6 { '6' }
    else if d == 7 { '7' }
    else if d == 8 { '8' }
    else { '9' }
}

/// Decimal digits of a natural number, most significant first, no leading zeros.
pub open spec fn decimal(n: nat) -> Seq<char>
    decreases n,
{
    if n < 10 {
        seq![digit_char(n)]
    } else {
        decimal(n / 10).push(digit_char(n % 10))
    }
}

/// Decimal rendering of a signed integer, with a leading `-` when negative.
pub open spec fn signed_decimal(n: int) -> Seq<char> {
    if n < 0 {
        seq!['-'] + decimal((-n) as nat)
    } else {
        decimal(n as nat)
    }
}

/// How an author is shown: `@handle` when a handle is known, `User <id>` otherwise.
pub open spec fn display_of(user_id: i64, handle: Option<Seq<char>>) -> Seq<char> {
    match handle {
        Some(h) => seq!['@'] + h,
        None => seq!['U', 's', 'e', 'r', ' '] + signed_decimal(user_id as int),
    }
}

/// The view of an optional owned handle.
pub open spec fn name_view(username: Option<String>) -> Option<Seq<char>> {
    match username {
        Some(u) => Some(u@),
        None => None,
    }
}

/// The view of an optional borrowed handle.
pub open spec fn handle_view(username: Option<&str>) -> Option<Seq<char>> {
    match username {
        Some(u) => Some(u@),
        None => None,
    }
}

fn digit_str(d: u64) -> (r: &'static str)
    requires
        d < 10,
    ensures
        r@ == seq![digit_char(d as nat)],
{
    proof {
        reveal_strlit("0");
        reveal_strlit("1");
        reveal_strlit("2");
        reveal_strlit("3");
        reveal_strlit("4");
        reveal_strlit("5");
        reveal_strlit("6");
        reveal_strlit("7");
        reveal_strlit("8");
        reveal_strlit("9");
    }
    if d == 0 { "0" }
    else if d == 1 { "1" }
    else if d == 2 { "2" }
    else if d == 3 { "3" }
    else if d == 4 { "4" }
    else if d == 5 { "5" }
    else if d == 6 { "6" }
    else if d == 7 { "7" }
    else if d == 8 { "8" }
    else { "9" }
}

fn append_decimal(out: &mut String, n: u64)
    ensures
        final(out)@ == old(out)@ + decimal(n as nat),
    decreases n,
{
    if n >= 10 {
        append_decimal(out, n / 10);
    }
    out.append(digit_str(n % 10));
    assert(final(out)@ =~= old(out)@ + decimal(n as nat));
}

/// Renders a signed integer in decimal.
pub fn decimal_text(n: i64) -> (r: String)
    ensures
        r@ == signed_decimal(n as int),
{
    let mut out = String::new();
    if n < 0 {
        proof { reveal_strlit("-"); }
        out.append("-");
        let magnitude: u64 = ((-(n + 1)) as u64) + 1;
        append_decimal(&mut out, magnitude);
    } else {
        append_decimal(&mut out, n as u64);
    }
    assert(out@ =~= signed_decimal(n as int));
    out
}

/// Renders an author for any user-facing text: `"@" + handle` when a handle
/// is present, `"User " + id` otherwise.
pub fn format_user_display(user_id: i64, username: Option<&str>) -> (r: String)
    ensures
        r@ == display_of(user_id, handle_view(username)),
{
    match username {
        Some(u) => {
            proof { reveal_strlit("@"); }
            let out = String::from_str("@");
            let r = out.concat(u);
            assert(r@ =~= display_of(user_id, handle_view(username)));
            r
        },
        None => {
            proof { reveal_strlit("User "); }
            let out = String::from_str("User ");
            let digits = decimal_text(user_id);
            let r = out.concat(digits.as_str());
            assert(r@ =~= display_of(user_id, handle_view(username)));
            r
        },
    }
}

/// Renders an author whose handle is held as an owned string.
pub fn render_author(user_id: i64, username: &Option<String>) -> (r: String)
    ensures
        r@ == display_of(user_id, name_view(*username)),
{
    match username {
        Some(u) => format_user_display(user_id, Some(u.as_str())),
        None => format_user_display(user_id, None),
    }
}

/// The display rule: with a handle the text is `"@" + handle`, whatever the
/// id; without one it is `"User " + id` in decimal. Nothing else enters, so
/// rendering the same author twice gives the same text.
pub proof fn lemma_display_rule(user_id: i64, other_id: i64, handle: Seq<char>)
    ensures
        display_of(user_id, Some(handle)) == "@"@ + handle,
        display_of(user_id, Some(handle)) == display_of(other_id, Some(handle)),
        display_of(user_id, None) == "User "@ + signed_decimal(user_id as int),
{
    reveal_strlit("@");
    reveal_strlit("User ");
    assert(display_of(user_id, None) =~= "User "@ + signed_decimal(user_id as int));
    assert(display_of(user_id, Some(handle)) =~= "@"@ + handle);
}

} // verus!
