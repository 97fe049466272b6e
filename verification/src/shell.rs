//! Quoting for POSIX shells.

use vstd::prelude::*;

use crate::text::{chars_of, concat3, texts};

verus! {

/// How one character is written inside a single-quoted word: a single quote closes the word,
/// adds a double-quoted quote and opens the word again.
pub open spec fn quoted_char(c: char) -> Seq<char> {
    if c == '\'' {
        seq!['\'', '"', '\'', '"', '\'']
    } else {
        seq![c]
    }
}

/// The characters of `s`, each as it is written inside a single-quoted word.
pub open spec fn quoted_body(s: Seq<char>) -> Seq<char>
    decreases s.len(),
{
    if s.len() == 0 {
        Seq::empty()
    } else {
        quoted_body(s.drop_last()) + quoted_char(s.last())
    }
}

/// `s` as one single-quoted shell word.
pub open spec fn quoted(s: Seq<char>) -> Seq<char> {
    seq!['\''] + quoted_body(s) + seq!['\'']
}

/// Writes the characters of `value` as they stand inside a single-quoted word.
pub fn quote_body(value: &str) -> (r: String)
    ensures
        r@ == quoted_body(value@),
{
    let chars = chars_of(value);
    let mut out = String::new();
    let mut i: usize = 0;
    while i < chars.len()
        invariant
            i <= chars@.len(),
            out@ == quoted_body(chars@.take(i as int)),
        decreases chars@.len() - i,
    {
        let c = chars[i];
        if c == '\'' {
            out.push('\'');
            out.push('"');
            out.push('\'');
            out.push('"');
            out.push('\'');
        } else {
            out.push(c);
        }
        proof {
            assert(chars@.take(i + 1).drop_last() =~= chars@.take(i as int));
            assert(out@ =~= quoted_body(chars@.take(i as int)) + quoted_char(c));
        }
        i = i + 1;
    }
    proof {
        assert(chars@.take(i as int) =~= value@);
    }
    out
}

/// Quotes `value` so that a POSIX shell reads it back as one word.
pub fn shell_quote(value: &str) -> (r: String)
    ensures
        r@ == quoted(value@),
{
    let body = quote_body(value);
    let mut out = String::new();
    out.push('\'');
    out.append(&body);
    out.push('\'');
    proof {
        assert(out@ =~= quoted(value@));
    }
    out
}

/// `words`, each as one shell word, with spaces between them.
pub open spec fn quoted_words(words: Seq<Seq<char>>) -> Seq<char>
    decreases words.len(),
{
    if words.len() == 0 {
        Seq::empty()
    } else if words.len() == 1 {
        quoted(words[0])
    } else {
        quoted_words(words.drop_last()) + " "@ + quoted(words.last())
    }
}

/// Writes `words`, each as one shell word, with spaces between them.
pub fn quote_words(words: &Vec<String>) -> (r: String)
    ensures
        r@ == quoted_words(texts(words@)),
{
    let ghost all = texts(words@);
    if words.len() == 0 {
        return String::new();
    }
    let mut out = shell_quote(&words[0]);
    let mut i: usize = 1;
    proof {
        assert(all.take(1)[0] == words@[0]@);
    }
    while i < words.len()
        invariant
            1 <= i <= words@.len(),
            all == texts(words@),
            out@ == quoted_words(all.take(i as int)),
        decreases words@.len() - i,
    {
        let word = shell_quote(&words[i]);
        out = concat3(&out, " ", &word);
        proof {
            assert(all.take(i + 1).drop_last() =~= all.take(i as int));
            assert(all.take(i + 1).last() == words@[i as int]@);
        }
        i = i + 1;
    }
    proof {
        assert(all.take(i as int) =~= all);
    }
    out
}

/// Where a shell stands inside a word.
pub enum QuoteState {
    Outside,
    Single,
    Double,
}

/// What a POSIX shell makes of the rest `s` of a word that consists of quoted parts only; `None`
/// where a part stays open, a character stands outside the quotes, or a double-quoted part would
/// be expanded.
pub open spec fn shell_reads(state: QuoteState, s: Seq<char>) -> Option<Seq<char>>
    decreases s.len(),
{
    if s.len() == 0 {
        if state is Outside {
            Some(Seq::empty())
        } else {
            None
        }
    } else {
        let rest = s.skip(1);
        match state {
            QuoteState::Outside => if s[0] == '\'' {
                shell_reads(QuoteState::Single, rest)
            } else if s[0] == '"' {
                shell_reads(QuoteState::Double, rest)
            } else {
                None
            },
            QuoteState::Single => if s[0] == '\'' {
                shell_reads(QuoteState::Outside, rest)
            } else {
                preceded(s[0], shell_reads(QuoteState::Single, rest))
            },
            QuoteState::Double => if s[0] == '"' {
                shell_reads(QuoteState::Outside, rest)
            } else if s[0] == '$' || s[0] == '`' || s[0] == '\\' {
                None
            } else {
                preceded(s[0], shell_reads(QuoteState::Double, rest))
            },
        }
    }
}

/// `c` in front of what was read, if anything was.
pub open spec fn preceded(c: char, read: Option<Seq<char>>) -> Option<Seq<char>> {
    match read {
        Some(text) => Some(seq![c] + text),
        None => None,
    }
}

proof fn lemma_quoted_char_reads(c: char, rest: Seq<char>)
    ensures
        shell_reads(QuoteState::Single, quoted_char(c) + rest) == preceded(
            c,
            shell_reads(QuoteState::Single, rest),
        ),
{
    let s = quoted_char(c) + rest;
    if c == '\'' {
        assert(s.skip(1).skip(1).skip(1).skip(1).skip(1) =~= rest);
        assert(s[0] == '\'');
        assert(s.skip(1)[0] == '"');
        assert(s.skip(1).skip(1)[0] == '\'');
        assert(s.skip(1).skip(1).skip(1)[0] == '"');
        assert(s.skip(1).skip(1).skip(1).skip(1)[0] == '\'');
        reveal_with_fuel(shell_reads, 6);
    } else {
        assert(s.skip(1) =~= rest);
        assert(s[0] == c);
    }
}

proof fn lemma_quoted_body_reads(s: Seq<char>, rest: Seq<char>, tail: Seq<char>)
    requires
        shell_reads(QuoteState::Single, rest) == Some(tail),
    ensures
        shell_reads(QuoteState::Single, quoted_body(s) + rest) == Some(s + tail),
    decreases s.len(),
{
    if s.len() == 0 {
        assert(quoted_body(s) + rest =~= rest);
        assert(s + tail =~= tail);
    } else {
        let c = s.last();
        lemma_quoted_char_reads(c, rest);
        lemma_quoted_body_reads(s.drop_last(), quoted_char(c) + rest, seq![c] + tail);
        assert(quoted_body(s.drop_last()) + (quoted_char(c) + rest) =~= quoted_body(s) + rest);
        assert(s.drop_last() + (seq![c] + tail) =~= s + tail);
    }
}

/// A shell reads a quoted value back as one word that is the value itself, whatever characters it
/// holds.
pub proof fn law_quoting_is_read_back(s: Seq<char>)
    ensures
        shell_reads(QuoteState::Outside, quoted(s)) == Some(s),
{
    let close = seq!['\''];
    assert(close.skip(1) =~= Seq::<char>::empty());
    assert(shell_reads(QuoteState::Outside, close.skip(1)) == Some(Seq::<char>::empty()));
    assert(shell_reads(QuoteState::Single, close) == Some(Seq::<char>::empty()));
    lemma_quoted_body_reads(s, close, Seq::empty());
    assert(quoted(s).skip(1) =~= quoted_body(s) + close);
    assert(s + Seq::<char>::empty() =~= s);
}

/// The words that a POSIX shell makes of the rest `s` of a line of quoted words with single spaces
/// between them, `word` being what it has read of the current one; `None` where a quote stays
/// open, a character other than a space stands outside the quotes, or a double-quoted part would
/// be expanded.
pub open spec fn shell_words(state: QuoteState, word: Seq<char>, s: Seq<char>) -> Option<Seq<Seq<char>>>
    decreases s.len(),
{
    if s.len() == 0 {
        if state is Outside {
            Some(seq![word])
        } else {
            None
        }
    } else {
        let rest = s.skip(1);
        match state {
            QuoteState::Outside => if s[0] == '\'' {
                shell_words(QuoteState::Single, word, rest)
            } else if s[0] == '"' {
                shell_words(QuoteState::Double, word, rest)
            } else if s[0] == ' ' {
                after_words(seq![word], shell_words(QuoteState::Outside, Seq::empty(), rest))
            } else {
                None
            },
            QuoteState::Single => if s[0] == '\'' {
                shell_words(QuoteState::Outside, word, rest)
            } else {
                shell_words(QuoteState::Single, word.push(s[0]), rest)
            },
            QuoteState::Double => if s[0] == '"' {
                shell_words(QuoteState::Outside, word, rest)
            } else if s[0] == '$' || s[0] == '`' || s[0] == '\\' {
                None
            } else {
                shell_words(QuoteState::Double, word.push(s[0]), rest)
            },
        }
    }
}

/// `words` in front of those that were read, if any were.
pub open spec fn after_words(words: Seq<Seq<char>>, read: Option<Seq<Seq<char>>>) -> Option<
    Seq<Seq<char>>,
> {
    match read {
        Some(more) => Some(words + more),
        None => None,
    }
}

proof fn lemma_quoted_char_word(word: Seq<char>, c: char, rest: Seq<char>)
    ensures
        shell_words(QuoteState::Single, word, quoted_char(c) + rest) == shell_words(
            QuoteState::Single,
            word.push(c),
            rest,
        ),
{
    let s = quoted_char(c) + rest;
    if c == '\'' {
        assert(s.skip(1).skip(1).skip(1).skip(1).skip(1) =~= rest);
        assert(s[0] == '\'');
        assert(s.skip(1)[0] == '"');
        assert(s.skip(1).skip(1)[0] == '\'');
        assert(s.skip(1).skip(1).skip(1)[0] == '"');
        assert(s.skip(1).skip(1).skip(1).skip(1)[0] == '\'');
        reveal_with_fuel(shell_words, 6);
    } else {
        assert(s.skip(1) =~= rest);
        assert(s[0] == c);
    }
}

proof fn lemma_quoted_body_word(word: Seq<char>, s: Seq<char>, rest: Seq<char>)
    ensures
        shell_words(QuoteState::Single, word, quoted_body(s) + rest) == shell_words(
            QuoteState::Single,
            word + s,
            rest,
        ),
    decreases s.len(),
{
    if s.len() == 0 {
        assert(quoted_body(s) + rest =~= rest);
        assert(word + s =~= word);
    } else {
        let c = s.last();
        let init = s.drop_last();
        lemma_quoted_body_word(word, init, quoted_char(c) + rest);
        lemma_quoted_char_word(word + init, c, rest);
        assert(quoted_body(init) + (quoted_char(c) + rest) =~= quoted_body(s) + rest);
        assert((word + init).push(c) =~= word + s);
    }
}

proof fn lemma_quoted_word(s: Seq<char>, rest: Seq<char>)
    ensures
        shell_words(QuoteState::Outside, Seq::empty(), quoted(s) + rest) == shell_words(
            QuoteState::Outside,
            s,
            rest,
        ),
{
    let none = Seq::<char>::empty();
    let close = seq!['\''] + rest;
    let all = quoted(s) + rest;
    assert(all[0] == '\'');
    assert(all.skip(1) =~= quoted_body(s) + close);
    lemma_quoted_body_word(none, s, close);
    assert(none + s =~= s);
    assert(close[0] == '\'');
    assert(close.skip(1) =~= rest);
}

proof fn lemma_quoted_words(words: Seq<Seq<char>>, rest: Seq<char>)
    requires
        words.len() > 0,
    ensures
        shell_words(QuoteState::Outside, Seq::empty(), quoted_words(words) + rest) == after_words(
            words.drop_last(),
            shell_words(QuoteState::Outside, words.last(), rest),
        ),
    decreases words.len(),
{
    reveal_strlit(" ");
    assert(" "@ =~= seq![' ']);
    let last = words.last();
    let read = shell_words(QuoteState::Outside, last, rest);
    lemma_quoted_word(last, rest);
    if words.len() == 1 {
        assert(words[0] == last);
        if let Some(more) = read {
            assert(words.drop_last() + more =~= more);
        }
    } else {
        let init = words.drop_last();
        let tail = " "@ + quoted(last) + rest;
        lemma_quoted_words(init, tail);
        assert(quoted_words(words) + rest =~= quoted_words(init) + tail);
        assert(tail[0] == ' ');
        assert(tail.skip(1) =~= quoted(last) + rest);
        if let Some(more) = read {
            assert(init.drop_last() + (seq![init.last()] + more) =~= init + more);
        }
    }
}

/// A shell reads a line of quoted words back as exactly these words, whatever characters they
/// hold.
pub proof fn law_quoted_words_are_read_back(words: Seq<Seq<char>>)
    requires
        words.len() > 0,
    ensures
        shell_words(QuoteState::Outside, Seq::empty(), quoted_words(words)) == Some(words),
{
    let none = Seq::<char>::empty();
    lemma_quoted_words(words, none);
    assert(quoted_words(words) + none =~= quoted_words(words));
    assert(words.drop_last() + seq![words.last()] =~= words);
}

} // verus!
