//! The messages shown while an answer is awaited.

use vstd::prelude::*;

verus! {

/// How many waiting messages there are.
pub const LOADING_MESSAGES: usize = 10;

/// The waiting message at each index.
pub open spec fn loading_text(index: int) -> Seq<char> {
    if index == 0 {
        "Consulting neural network..."@
    } else if index == 1 {
        "Bribing data set..."@
    } else if index == 2 {
        "Thinking hard..."@
    } else if index == 3 {
        "Crunching 0s and 1s..."@
    } else if index == 4 {
        "Cooking up a response..."@
    } else if index == 5 {
        "AI is thinking..."@
    } else if index == 6 {
        "Turning AI gears..."@
    } else if index == 7 {
        "Consulting the AI crystal..."@
    } else if index == 8 {
        "Praying for your answer..."@
    } else {
        "Circuits tingling..."@
    }
}

/// Returns the waiting message at `index`.
pub fn loading_message(index: usize) -> (message: &'static str)
    requires
        index < LOADING_MESSAGES,
    ensures
        message@ == loading_text(index as int),
{
    if index == 0 {
        "Consulting neural network..."
    } else if index == 1 {
        "Bribing data set..."
    } else if index == 2 {
        "Thinking hard..."
    } else if index == 3 {
        "Crunching 0s and 1s..."
    } else if index == 4 {
        "Cooking up a response..."
    } else if index == 5 {
        "AI is thinking..."
    } else if index == 6 {
        "Turning AI gears..."
    } else if index == 7 {
        "Consulting the AI crystal..."
    } else if index == 8 {
        "Praying for your answer..."
    } else {
        "Circuits tingling..."
    }
}

/// Seeds a `rand::rngs::StdRng` from `rand::rngs::OsRng` and calls
/// `gen_range` of `rand::Rng` on it, with the range from zero up to, and
/// without, `bound`. Trusted, as the crate documents it: the value lies in
/// the range. `None` stands for the error of the operating system's random
/// source. An empty range would panic, so the bound is positive.
#[verifier::external_body]
fn random_below(bound: usize) -> (index: Option<usize>)
    requires
        bound > 0,
    ensures
        index matches Some(i) ==> i < bound,
{
    match <rand::rngs::StdRng as rand::SeedableRng>::from_rng(rand::rngs::OsRng) {
        Ok(mut rng) => Some(rand::Rng::gen_range(&mut rng, 0..bound)),
        Err(_) => None,
    }
}

/// What [`random_loading_message`] makes of the index that was drawn: the
/// message at that index, and the first message where none could be drawn.
pub fn loading_message_for(drawn: Option<usize>) -> (message: &'static str)
    requires
        drawn matches Some(index) ==> index < LOADING_MESSAGES,
    ensures
        message@ == loading_text(
            match drawn {
                Some(index) => index as int,
                None => 0,
            },
        ),
{
    match drawn {
        Some(index) => loading_message(index),
        None => loading_message(0),
    }
}

/// Picks one of the waiting messages at random.
pub fn random_loading_message() -> (message: &'static str)
    ensures
        exists|index: int| 0 <= index < LOADING_MESSAGES && message@ == loading_text(index),
{
    let message = loading_message_for(random_below(LOADING_MESSAGES));
    assert(exists|index: int| 0 <= index < LOADING_MESSAGES && message@ == loading_text(index));
    message
}

} // verus!
