//! Whitespace, tokens, and lines of words joined by single spaces.

use vstd::prelude::*;

verus! {

/// What `\s` matches: a character with the Unicode property `White_Space`.
pub open spec fn is_whitespace(c: char) -> bool {
    let u = c as u32;
    ||| 0x09 <= u <= 0x0d
    ||| u == 0x20
    ||| u == 0x85
    ||| u == 0xa0
    ||| u == 0x1680
    ||| 0x2000 <= u <= 0x200a
    ||| u == 0x2028
    ||| u == 0x2029
    ||| u == 0x202f
    ||| u == 0x205f
    ||| u == 0x3000
}

/// A character that the word generator's vocabulary is written in: a
/// lower-case ASCII letter, or the ordinal indicator U+00BA.
pub open spec fn is_word_char(c: char) -> bool {
    ('a' <= c && c <= 'z') || c as u32 == 0xba
}

/// A word: at least one character, each of the vocabulary's alphabet.
pub open spec fn is_word(w: Seq<char>) -> bool {
    &&& w.len() > 0
    &&& forall|i: int| 0 <= i < w.len() ==> is_word_char(#[trigger] w[i])
}

/// Every element of `ws` is a word.
pub open spec fn all_words(ws: Seq<Seq<char>>) -> bool {
    forall|i: int| 0 <= i < ws.len() ==> is_word(#[trigger] ws[i])
}

/// The words of `ws`, in order, with one space between neighbours.
pub open spec fn joined(ws: Seq<Seq<char>>) -> Seq<char>
    decreases ws.len(),
{
    if ws.len() == 0 {
        Seq::<char>::empty()
    } else if ws.len() == 1 {
        ws[0]
    } else {
        joined(ws.drop_last()) + seq![' '] + ws.last()
    }
}

/// `s` is `count` words joined by single spaces.
pub open spec fn is_word_line(s: Seq<char>, count: nat) -> bool {
    exists|ws: Seq<Seq<char>>| #[trigger] joined(ws) == s && ws.len() == count && all_words(ws)
}

/// A token begins at position `i` of `s`: a character that is not
/// whitespace, at the start or right after whitespace.
pub open spec fn starts_token(s: Seq<char>, i: int) -> bool {
    !is_whitespace(s[i]) && (i == 0 || is_whitespace(s[i - 1]))
}

/// The number of whitespace-separated tokens in `s`.
pub open spec fn token_count(s: Seq<char>) -> nat
    decreases s.len(),
{
    if s.len() == 0 {
        0
    } else if starts_token(s, s.len() - 1) {
        token_count(s.drop_last()) + 1
    } else {
        token_count(s.drop_last())
    }
}

/// What `(\S+)( \S+)*` matches in full: at least one token, nothing but
/// tokens and the single U+0020 between two of them.
pub open spec fn single_spaced(s: Seq<char>) -> bool {
    &&& s.len() > 0
    &&& !is_whitespace(s[0])
    &&& !is_whitespace(s[s.len() - 1])
    &&& forall|i: int|
        0 <= i < s.len() - 1 && is_whitespace(#[trigger] s[i]) ==> s[i] == ' ' && !is_whitespace(
            s[i + 1],
        )
}

/// No character of a word is whitespace.
pub proof fn lemma_word_char_is_plain(c: char)
    requires
        is_word_char(c),
    ensures
        !is_whitespace(c),
{
}

/// Appending text without whitespace to a line that is empty or ends in
/// whitespace adds exactly one token.
pub proof fn lemma_token_count_append(a: Seq<char>, w: Seq<char>)
    requires
        a.len() == 0 || is_whitespace(a.last()),
        w.len() > 0,
        forall|i: int| 0 <= i < w.len() ==> !is_whitespace(#[trigger] w[i]),
    ensures
        token_count(a + w) == token_count(a) + 1,
    decreases w.len(),
{
    let s = a + w;
    let last = s.len() - 1;
    assert(s[last] == w[w.len() - 1]);
    if w.len() == 1 {
        assert(s.drop_last() =~= a);
        if a.len() > 0 {
            assert(s[last - 1] == a.last());
        }
        assert(starts_token(s, last));
    } else {
        let v = w.drop_last();
        assert(s.drop_last() =~= a + v);
        assert(s[last - 1] == w[w.len() - 2]);
        assert(!starts_token(s, last));
        assert forall|i: int| 0 <= i < v.len() implies !is_whitespace(#[trigger] v[i]) by {
            assert(v[i] == w[i]);
        }
        lemma_token_count_append(a, v);
    }
}

/// Appending one whitespace character adds no token.
pub proof fn lemma_token_count_push_space(a: Seq<char>, c: char)
    requires
        is_whitespace(c),
    ensures
        token_count(a.push(c)) == token_count(a),
{
    let s = a.push(c);
    assert(s.drop_last() =~= a);
    assert(!starts_token(s, s.len() - 1));
}

/// A line of at least one word is single-spaced and has as many tokens as
/// words; its characters are the words' and the space.
pub proof fn lemma_joined_shape(ws: Seq<Seq<char>>)
    requires
        ws.len() >= 1,
        all_words(ws),
    ensures
        single_spaced(joined(ws)),
        token_count(joined(ws)) == ws.len(),
        forall|i: int|
            0 <= i < joined(ws).len() ==> is_word_char(#[trigger] joined(ws)[i]) || joined(ws)[i]
                == ' ',
    decreases ws.len(),
{
    let line = joined(ws);
    if ws.len() == 1 {
        let w = ws[0];
        assert(is_word(w));
        assert forall|i: int| 0 <= i < w.len() implies !is_whitespace(#[trigger] w[i]) by {
            lemma_word_char_is_plain(w[i]);
        }
        lemma_token_count_append(Seq::<char>::empty(), w);
        assert(Seq::<char>::empty() + w =~= w);
    } else {
        let head = ws.drop_last();
        let w = ws.last();
        assert(is_word(w));
        assert(all_words(head)) by {
            assert forall|i: int| 0 <= i < head.len() implies is_word(#[trigger] head[i]) by {
                assert(head[i] == ws[i]);
            }
        }
        lemma_joined_shape(head);
        let front = joined(head);
        let spaced = front.push(' ');
        assert(front + seq![' '] =~= spaced);
        assert(line =~= spaced + w);
        assert forall|i: int| 0 <= i < w.len() implies !is_whitespace(#[trigger] w[i]) by {
            lemma_word_char_is_plain(w[i]);
        }
        lemma_token_count_push_space(front, ' ');
        assert(spaced.last() == ' ');
        lemma_token_count_append(spaced, w);
        assert forall|i: int| 0 <= i < line.len() implies is_word_char(#[trigger] line[i])
            || line[i] == ' ' by {
            if i < front.len() {
                assert(line[i] == front[i]);
            } else if i == front.len() {
                assert(line[i] == ' ');
            } else {
                assert(line[i] == w[i - front.len() - 1]);
            }
        }
        assert(line[0] == front[0]);
        assert(line[line.len() - 1] == w[w.len() - 1]);
        assert forall|i: int|
            0 <= i < line.len() - 1 && is_whitespace(#[trigger] line[i]) implies line[i] == ' '
            && !is_whitespace(line[i + 1]) by {
            if i < front.len() - 1 {
                assert(line[i] == front[i]);
                assert(line[i + 1] == front[i + 1]);
            } else if i == front.len() - 1 {
                assert(line[i] == front[front.len() - 1]);
            } else if i == front.len() {
                assert(line[i + 1] == w[0]);
            } else {
                assert(line[i] == w[i - front.len() - 1]);
            }
        }
    }
}

} // verus!
