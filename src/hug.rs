use vstd::prelude::*;
use rand::{Rng, SeedableRng};

verus! {

/// How many canned hug reactions there are.
pub const HUG_COUNT: usize = 16;

/// The canned hug reactions, in order.
pub open spec fn hug_texts() -> Seq<Seq<char>> {
    seq![
        "( っ˶´ ˘ `)っ"@,
        "♡⸜(ˆᗜˆ˵ )⸝♡"@,
        "(っᵔ◡ᵔ)っ"@,
        "(づ> v <)づ♡"@,
        "ʕっ•ᴥ•ʔっ ♡"@,
        "◝(ᵔᗜᵔ)◜"@,
        "(૭ ｡•̀ ᵕ •́｡ )૭"@,
        "(⊙ _ ⊙ )"@,
        "(◍•ᴗ•◍)♡"@,
        "≽^•⩊•^≼"@,
        "ᕙ(  •̀ ᗜ •́  )ᕗ"@,
        "( ⊃ ◕ _ ◕)⊃"@,
        "༼つ◕_◕༽つ"@,
        "(ㅅ´ ˘ `)"@,
        "(˵ •̀ ᴗ - ˵ ) ✧"@,
        "(❀❛ ֊ ❛„)♡"@,
    ]
}

/// The hug reaction at `index`.
pub fn hug_message(index: usize) -> (r: &'static str)
    requires
        index < HUG_COUNT,
    ensures
        r@ == hug_texts()[index as int],
{
    if index == 0 {
        "( っ˶´ ˘ `)っ"
    } else if index == 1 {
        "♡⸜(ˆᗜˆ˵ )⸝♡"
    } else if index == 2 {
        "(っᵔ◡ᵔ)っ"
    } else if index == 3 {
        "(づ> v <)づ♡"
    } else if index == 4 {
        "ʕっ•ᴥ•ʔっ ♡"
    } else if index == 5 {
        "◝(ᵔᗜᵔ)◜"
    } else if index == 6 {
        "(૭ ｡•̀ ᵕ •́｡ )૭"
    } else if index == 7 {
        "(⊙ _ ⊙ )"
    } else if index == 8 {
        "(◍•ᴗ•◍)♡"
    } else if index == 9 {
        "≽^•⩊•^≼"
    } else if index == 10 {
        "ᕙ(  •̀ ᗜ •́  )ᕗ"
    } else if index == 11 {
        "( ⊃ ◕ _ ◕)⊃"
    } else if index == 12 {
        "༼つ◕_◕༽つ"
    } else if index == 13 {
        "(ㅅ´ ˘ `)"
    } else if index == 14 {
        "(˵ •̀ ᴗ - ˵ ) ✧"
    } else {
        "(❀❛ ֊ ❛„)♡"
    }
}

/// Relies on rand's `Rng::gen_range` (seeded from entropy), which panics on an
/// empty range: a position below `bound`.
#[verifier::external_body]
fn random_below(bound: usize) -> (r: usize)
    requires
        bound > 0,
    ensures
        r < bound,
{
    let mut rng = rand::rngs::StdRng::from_entropy();
    rng.gen_range(0..bound)
}

/// The hug command: one of the canned reactions, picked at random.
pub fn handle_hug() -> (r: &'static str)
    ensures
        hug_texts().contains(r@),
{
    let index = random_below(HUG_COUNT);
    let r = hug_message(index);
    assert(hug_texts()[index as int] == r@);
    r
}

} // verus!
