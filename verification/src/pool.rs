//! The pool of precomputed messages that one worker sends from.

use crate::config::{ConfigError, Options};
use crate::message::{
    compose, is_datagram, lemma_payload_is_datagram, matches_wire_format, payload,
};
use crate::random::{draw_in_range, random_words};
use crate::words::{all_words, is_word_line, joined, lemma_joined_shape};
use rand::rngs::ThreadRng;
use vstd::prelude::*;

verus! {

/// The number of messages in a pool.
pub const POOL_SIZE: usize = 4096;

/// `message` is a datagram that `options` allow: it has the wire format, its
/// priority lies below `priority_max`, and it has the fixed number of words,
/// or, where the number varies, one in `[1, words_max)`.
pub open spec fn conforms(message: Seq<char>, options: Options) -> bool {
    exists|priority: nat, words: nat|
        {
            &&& #[trigger] is_datagram(message, priority, words)
            &&& options.allows_priority(priority)
            &&& options.allows_words(words)
        }
}

/// `message` is what shaping a message under `options` can give: the
/// payload of an allowed priority and of a line of an allowed number of
/// words from the vocabulary.
pub open spec fn shaped(message: Seq<char>, options: Options) -> bool {
    exists|priority: nat, count: nat, line: Seq<char>| #[trigger]
        shaped_from(message, options, priority, count, line)
}

/// `message` is the payload of `priority` and `line`, which `options`
/// allow, `line` being `count` words.
pub open spec fn shaped_from(
    message: Seq<char>,
    options: Options,
    priority: nat,
    count: nat,
    line: Seq<char>,
) -> bool {
    &&& message == payload(priority, line)
    &&& options.allows_priority(priority)
    &&& options.allows_words(count)
    &&& is_word_line(line, count)
}

/// The format of every message. A shaped message matches
/// `^<\d+> (\S+)( \S+)*$`; the priority between its angle brackets lies
/// below `priority_max`; and after the priority it has exactly
/// `words_fixed` whitespace-separated tokens, or, where that is zero, a
/// number of them in `[1, words_max)`.
pub proof fn lemma_shaped_conforms(message: Seq<char>, options: Options)
    requires
        shaped(message, options),
    ensures
        conforms(message, options),
        matches_wire_format(message),
{
    let (priority, count, line) = choose|priority: nat, count: nat, line: Seq<char>| #[trigger]
        shaped_from(message, options, priority, count, line);
    let ws = choose|ws: Seq<Seq<char>>| #[trigger]
        joined(ws) == line && ws.len() == count && all_words(ws);
    lemma_joined_shape(ws);
    lemma_payload_is_datagram(priority, line);
    assert(is_datagram(message, priority, count));
}

/// An ordered sequence of exactly `POOL_SIZE` messages, built once and
/// read-only thereafter.
pub struct MessagePool {
    messages: Vec<String>,
}

impl View for MessagePool {
    type V = Seq<Seq<char>>;

    /// The messages, each as its characters.
    closed spec fn view(&self) -> Seq<Seq<char>> {
        Seq::new(self.messages@.len(), |i: int| self.messages@[i]@)
    }
}

impl MessagePool {
    #[verifier::type_invariant]
    spec fn full(&self) -> bool {
        self.messages@.len() == POOL_SIZE
    }

    /// The pool is full, and every message of it is shaped under
    /// `options`.
    pub open spec fn fits(&self, options: Options) -> bool {
        &&& self@.len() == POOL_SIZE
        &&& forall|i: int| 0 <= i < self@.len() ==> shaped(#[trigger] self@[i], options)
    }

    /// Shapes one message: the number of words, fixed or drawn from
    /// `[1, words_max)`, then the words, then the priority.
    fn shape(options: &Options, rng: &mut ThreadRng) -> (message: String)
        requires
            options.valid(),
        ensures
            shaped(message@, *options),
    {
        let count: usize = if options.words_fixed != 0 {
            options.words_fixed as usize
        } else {
            draw_in_range(rng, 1, options.words_max as usize)
        };
        let words = random_words(count);
        let priority = draw_in_range(rng, 0, options.priority_max as usize) as u8;
        let message = compose(priority, words.as_str());
        assert(shaped_from(message@, *options, priority as nat, count as nat, words@));
        message
    }

    /// Builds a pool for `options`, drawing from the calling thread's
    /// generator. Fails exactly when the options allow no message. Every
    /// message of the pool is shaped under the options, and so conforms to
    /// them.
    pub fn generate(options: &Options) -> (made: Result<MessagePool, ConfigError>)
        ensures
            made is Ok <==> options.valid(),
            made matches Err(e) ==> options.verdict() == Err::<(), ConfigError>(e),
            made matches Ok(pool) ==> pool.fits(*options),
            made matches Ok(pool) ==> forall|i: int|
                0 <= i < POOL_SIZE ==> conforms(#[trigger] pool@[i], *options),
    {
        match options.validate() {
            Err(e) => Err(e),
            Ok(()) => {
                let mut rng = rand::thread_rng();
                let mut messages: Vec<String> = Vec::new();
                let mut i: usize = 0;
                while i < POOL_SIZE
                    invariant
                        i <= POOL_SIZE,
                        options.valid(),
                        messages@.len() == i,
                        forall|j: int| 0 <= j < i ==> shaped(#[trigger] messages@[j]@, *options),
                    decreases POOL_SIZE - i,
                {
                    let message = Self::shape(options, &mut rng);
                    messages.push(message);
                    i += 1;
                }
                let pool = MessagePool { messages };
                assert(pool.fits(*options));
                assert forall|i: int| 0 <= i < POOL_SIZE implies conforms(
                    #[trigger] pool@[i],
                    *options,
                ) by {
                    lemma_shaped_conforms(pool@[i], *options);
                }
                Ok(pool)
            },
        }
    }

    /// The number of messages, which is `POOL_SIZE`.
    pub fn len(&self) -> (n: usize)
        ensures
            n == POOL_SIZE,
            n == self@.len(),
    {
        proof {
            use_type_invariant(self);
        }
        self.messages.len()
    }

    /// The message in `slot`, if the pool has such a slot.
    pub fn message(&self, slot: usize) -> (found: Option<&String>)
        ensures
            self@.len() == POOL_SIZE,
            found is Some <==> slot < POOL_SIZE,
            found matches Some(m) ==> m@ == self@[slot as int],
    {
        proof {
            use_type_invariant(self);
        }
        if slot < self.messages.len() {
            Some(&self.messages[slot])
        } else {
            None
        }
    }

    /// Draws a slot of the pool uniformly at random, from the calling
    /// thread's generator.
    pub fn draw_slot() -> (slot: usize)
        ensures
            slot < POOL_SIZE,
    {
        let mut rng = rand::thread_rng();
        draw_in_range(&mut rng, 0, POOL_SIZE)
    }
}

} // verus!
