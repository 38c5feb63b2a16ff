//! The wire format of one datagram: `<P> W1 W2 ... Wk`.

use crate::text::{
    all_digits, decimal, decimal_value, lemma_decimal_is_digits, lemma_decimal_round_trip,
    render_decimal,
};
use crate::words::{single_spaced, token_count};
use vstd::prelude::*;
use vstd::string::StringExecFns;

verus! {

/// The payload that carries `priority` in front of `line`.
pub open spec fn payload(priority: nat, line: Seq<char>) -> Seq<char> {
    seq!['<'] + decimal(priority) + seq!['>', ' '] + line
}

/// `s` matches `^<\d+> (\S+)( \S+)*$`, with the closing bracket at `close`.
pub open spec fn framed_at(s: Seq<char>, close: int) -> bool {
    &&& 2 <= close
    &&& close + 2 < s.len()
    &&& s[0] == '<'
    &&& all_digits(s.subrange(1, close))
    &&& s[close] == '>'
    &&& s[close + 1] == ' '
    &&& single_spaced(s.skip(close + 2))
}

/// `s` matches `^<\d+> (\S+)( \S+)*$`.
pub open spec fn matches_wire_format(s: Seq<char>) -> bool {
    exists|close: int| #[trigger] framed_at(s, close)
}

/// `s` is a datagram whose priority, read from between the angle
/// brackets, is `priority`, and which has `words` whitespace-separated
/// tokens after the priority.
pub open spec fn is_datagram(s: Seq<char>, priority: nat, words: nat) -> bool {
    exists|close: int|
        {
            &&& #[trigger] framed_at(s, close)
            &&& decimal_value(s.subrange(1, close)) == priority
            &&& token_count(s.skip(close + 2)) == words
        }
}

/// A payload has at most one reading: the closing bracket of a framed
/// payload is the first `>` in it, so the priority and the words that
/// `is_datagram` speaks of are determined by the payload.
pub proof fn lemma_frame_is_unique(s: Seq<char>, a: int, b: int)
    requires
        framed_at(s, a),
        framed_at(s, b),
    ensures
        a == b,
{
    if a < b {
        assert(s.subrange(1, b)[a - 1] == s[a]);
    } else if b < a {
        assert(s.subrange(1, a)[b - 1] == s[b]);
    }
}

/// The payload built from a priority and a single-spaced line is a
/// datagram with that priority and that line's tokens.
pub proof fn lemma_payload_is_datagram(priority: nat, line: Seq<char>)
    requires
        single_spaced(line),
    ensures
        is_datagram(payload(priority, line), priority, token_count(line)),
        matches_wire_format(payload(priority, line)),
{
    let s = payload(priority, line);
    let digits = decimal(priority);
    let close = 1 + digits.len() as int;
    lemma_decimal_is_digits(priority);
    lemma_decimal_round_trip(priority);
    assert(s.subrange(1, close) =~= digits);
    assert(s.skip(close + 2) =~= line);
    assert(s[0] == '<');
    assert(s[close] == '>');
    assert(s[close + 1] == ' ');
    assert(framed_at(s, close));
}

/// Builds the payload for one message from its priority and its words.
pub fn compose(priority: u8, words: &str) -> (message: String)
    ensures
        message@ == payload(priority as nat, words@),
{
    proof {
        reveal_strlit("<");
        reveal_strlit("> ");
    }
    let mut message = String::from_str("<");
    let numeral = render_decimal(priority as u64);
    message.append(numeral.as_str());
    message.append("> ");
    message.append(words);
    assert(message@ =~= payload(priority as nat, words@));
    message
}

} // verus!
