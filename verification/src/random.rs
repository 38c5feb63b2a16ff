//! The sources of chance: the thread's random number generator and the
//! random word generator. Nothing here is proved; each item states what the
//! outside function is relied on for.

use crate::words::is_word_line;
use rand::rngs::ThreadRng;
use rand::Rng;
use vstd::prelude::*;

verus! {

/// `rand::rngs::ThreadRng`, a handle to the calling thread's generator.
/// Nothing is known of its state.
#[verifier::external_type_specification]
#[verifier::external_body]
pub struct ExThreadRng(ThreadRng);

/// `rand::thread_rng`: hands out a handle to the calling thread's generator.
/// Nothing is claimed of the handle.
pub assume_specification[ rand::thread_rng ]() -> (rng: ThreadRng)
;

/// `Rng::gen_range` on the half-open range `low..high` of `usize`: the
/// value drawn lies in the range. The call panics on an empty range, which
/// the precondition excludes. Which value comes is left open.
#[verifier::external_body]
pub(crate) fn draw_in_range(rng: &mut ThreadRng, low: usize, high: usize) -> (drawn: usize)
    requires
        low < high,
    ensures
        low <= drawn < high,
{
    rng.gen_range(low..high)
}

/// `rand_word::new`: `count` words picked at random from the generator's
/// vocabulary and joined by single spaces. Every word of the vocabulary is
/// a non-empty run of lower-case ASCII letters, but for one that is the
/// single character U+00BA. Which words come is left open.
#[verifier::external_body]
pub(crate) fn random_words(count: usize) -> (line: String)
    ensures
        is_word_line(line@, count as nat),
{
    rand_word::new(count)
}

} // verus!
