//! What the text building blocks come to, character by character.

use vstd::prelude::*;

use crate::text::{
    decimal_text, first_of, has_prefix, in_class, integer_text, lines_of, split_on, trimmed, trimmed_end,
    trimmed_start, without_return, CharClass,
};

verus! {

/// Parts in a row, with `c` between each two of them.
pub open spec fn with_between(parts: Seq<Seq<char>>, c: char) -> Seq<char>
    decreases parts.len(),
{
    if parts.len() == 0 {
        Seq::empty()
    } else if parts.len() == 1 {
        parts[0]
    } else {
        parts[0] + seq![c] + with_between(parts.skip(1), c)
    }
}

/// Where the first `c` stands.
pub proof fn lemma_first_position(s: Seq<char>, c: char)
    ensures
        0 <= first_of(s, c) <= s.len(),
        first_of(s, c) < s.len() ==> s[first_of(s, c)] == c,
        forall|j: int| 0 <= j < first_of(s, c) ==> s[j] != c,
    decreases s.len(),
{
    if s.len() > 0 && s[0] != c {
        lemma_first_position(s.skip(1), c);
        assert forall|j: int| 0 <= j < first_of(s, c) implies s[j] != c by {
            if j > 0 {
                assert(s.skip(1)[j - 1] == s[j]);
            }
        }
        if first_of(s, c) < s.len() {
            assert(s.skip(1)[first_of(s, c) - 1] == s[first_of(s, c)]);
        }
    }
}

/// Splitting loses nothing: the parts with the separator between them are the text, and no part holds
/// the separator.
pub proof fn law_split_parts_make_up_the_text(s: Seq<char>, c: char)
    ensures
        split_on(s, c).len() > 0,
        with_between(split_on(s, c), c) == s,
        forall|i: int| 0 <= i < split_on(s, c).len() ==> !(#[trigger] split_on(s, c)[i]).contains(c),
    decreases s.len(),
{
    let i = first_of(s, c);
    lemma_first_position(s, c);
    let parts = split_on(s, c);
    if i < s.len() {
        let rest = split_on(s.skip(i + 1), c);
        law_split_parts_make_up_the_text(s.skip(i + 1), c);
        assert(parts.skip(1) =~= rest);
        assert(s =~= s.take(i) + seq![c] + s.skip(i + 1));
        assert forall|k: int| 0 <= k < parts.len() implies !(#[trigger] parts[k]).contains(c) by {
            if k > 0 {
                assert(parts[k] == rest[k - 1]);
            }
        }
    }
}

/// What is cut off the end of a text are characters of the class alone, and none is left there.
pub proof fn law_trimming_the_end(s: Seq<char>, class: CharClass)
    ensures
        trimmed_end(s, class).len() <= s.len(),
        trimmed_end(s, class) == s.take(trimmed_end(s, class).len() as int),
        forall|i: int| trimmed_end(s, class).len() <= i < s.len() ==> in_class(#[trigger] s[i], class),
        trimmed_end(s, class).len() > 0 ==> !in_class(trimmed_end(s, class).last(), class),
    decreases s.len(),
{
    if s.len() > 0 && in_class(s.last(), class) {
        let t = s.drop_last();
        law_trimming_the_end(t, class);
        let n = trimmed_end(s, class).len() as int;
        assert(t.take(n) =~= s.take(n));
        assert forall|i: int| n <= i < s.len() implies in_class(#[trigger] s[i], class) by {
            if i < t.len() {
                assert(t[i] == s[i]);
            }
        }
    } else {
        assert(s.take(s.len() as int) =~= s);
    }
}

/// What is cut off the start of a text are characters of the class alone, and none is left there.
pub proof fn law_trimming_the_start(s: Seq<char>, class: CharClass)
    ensures
        trimmed_start(s, class).len() <= s.len(),
        trimmed_start(s, class) == s.skip(s.len() - trimmed_start(s, class).len()),
        forall|i: int|
            0 <= i < s.len() - trimmed_start(s, class).len() ==> in_class(#[trigger] s[i], class),
        trimmed_start(s, class).len() > 0 ==> !in_class(trimmed_start(s, class)[0], class),
    decreases s.len(),
{
    if s.len() > 0 && in_class(s[0], class) {
        let t = s.skip(1);
        law_trimming_the_start(t, class);
        let n = trimmed_start(s, class).len() as int;
        assert(t.skip(t.len() - n) =~= s.skip(s.len() - n));
        assert forall|i: int| 0 <= i < s.len() - n implies in_class(#[trigger] s[i], class) by {
            if i > 0 {
                assert(t[i - 1] == s[i]);
            }
        }
    } else {
        assert(s.skip(0) =~= s);
    }
}

/// A text that starts and ends in a character that is no white space stays as it is when white space
/// is put around it and cut off again.
pub proof fn law_trimming_leaves_the_middle(before: Seq<char>, s: Seq<char>, after: Seq<char>)
    requires
        s.len() > 0,
        !in_class(s[0], CharClass::Space),
        !in_class(s.last(), CharClass::Space),
        forall|i: int| 0 <= i < before.len() ==> in_class(#[trigger] before[i], CharClass::Space),
        forall|i: int| 0 <= i < after.len() ==> in_class(#[trigger] after[i], CharClass::Space),
    ensures
        trimmed(before + s + after) == s,
{
    let all = before + s + after;
    let e = trimmed_end(all, CharClass::Space);
    law_trimming_the_end(all, CharClass::Space);
    let n = before.len() + s.len();
    assert(all[n - 1] == s.last());
    if e.len() < n {
        assert(in_class(all[n - 1], CharClass::Space));
    } else if e.len() > n {
        assert(e.last() == all[e.len() - 1]);
        assert(all[e.len() - 1] == after[e.len() - 1 - n]);
    }
    assert(e =~= before + s);
    let t = trimmed_start(e, CharClass::Space);
    law_trimming_the_start(e, CharClass::Space);
    assert(e[before.len() as int] == s[0]);
    if t.len() < s.len() {
        assert(in_class(e[before.len() as int], CharClass::Space));
    } else if t.len() > s.len() {
        assert(t[0] == e[e.len() - t.len()]);
        assert(e[e.len() - t.len()] == before[e.len() - t.len()]);
    }
    assert(t =~= s);
}

/// Line ends are carriage returns and line feeds alone; spaces, tabs and line ends are white space, and
/// no character that prints is.
pub proof fn law_character_classes(c: char)
    ensures
        in_class(c, CharClass::LineEnd) <==> c == '\r' || c == '\n',
        c == ' ' || c == '\t' || c == '\r' || c == '\n' ==> in_class(c, CharClass::Space),
        '!' <= c <= '~' ==> !in_class(c, CharClass::Space),
{
}

/// A text starts with a prefix exactly where it is the prefix followed by something.
pub proof fn law_prefixes_are_followed_by_the_rest(prefix: Seq<char>, rest: Seq<char>, s: Seq<char>)
    ensures
        has_prefix(prefix + rest, prefix),
        (prefix + rest).skip(prefix.len() as int) == rest,
        has_prefix(s, prefix) ==> s == prefix + s.skip(prefix.len() as int),
{
    let all = prefix + rest;
    assert(all.take(prefix.len() as int) =~= prefix);
    assert(all.skip(prefix.len() as int) =~= rest);
    if has_prefix(s, prefix) {
        assert(s =~= s.take(prefix.len() as int) + s.skip(prefix.len() as int));
    }
}

/// The number that decimal digits stand for.
pub open spec fn decimal_value(s: Seq<char>) -> int
    decreases s.len(),
{
    if s.len() == 0 {
        0
    } else {
        decimal_value(s.drop_last()) * 10 + (s.last() as int - '0' as int)
    }
}

/// A number in decimal is read back as the number: it is made of digits alone, has at least one, and
/// starts with a zero only where it is zero.
pub proof fn law_decimals_are_read_back(n: nat)
    ensures
        decimal_value(decimal_text(n)) == n,
        decimal_text(n).len() > 0,
        forall|i: int| 0 <= i < decimal_text(n).len() ==> '0' <= #[trigger] decimal_text(n)[i] <= '9',
        n > 0 ==> decimal_text(n)[0] != '0',
        n == 0 ==> decimal_text(n) == seq!['0'],
    decreases n,
{
    let s = decimal_text(n);
    if n < 10 {
        assert(s.drop_last() =~= Seq::<char>::empty());
        assert(decimal_value(s.drop_last()) == 0);
    } else {
        law_decimals_are_read_back(n / 10);
        let init = decimal_text(n / 10);
        assert(s.drop_last() =~= init);
        assert(s[0] == init[0]);
        assert forall|i: int| 0 <= i < s.len() implies '0' <= #[trigger] s[i] <= '9' by {
            if i < init.len() {
                assert(s[i] == init[i]);
            }
        }
    }
}

/// A negative number is its amount behind a minus sign, and any other its amount.
pub proof fn law_integers_carry_their_sign(n: int)
    ensures
        n < 0 ==> integer_text(n) == seq!['-'] + decimal_text((-n) as nat),
        n >= 0 ==> integer_text(n) == decimal_text(n as nat),
{
    reveal_strlit("-");
    assert("-"@ =~= seq!['-']);
}

/// What stands before the first line feed is the first line, without a carriage return at its end, and
/// what stands behind it makes up the other lines. A text without a line feed is one line as it is,
/// unless it is empty.
pub proof fn law_lines_end_at_line_feeds(line: Seq<char>, rest: Seq<char>)
    requires
        !line.contains('\n'),
    ensures
        lines_of(line + seq!['\n'] + rest) == seq![
            if line.len() > 0 && line.last() == '\r' {
                line.drop_last()
            } else {
                line
            },
        ] + lines_of(rest),
        line.len() > 0 ==> lines_of(line) == seq![line],
        lines_of(Seq::<char>::empty()) == Seq::<Seq<char>>::empty(),
{
    let all = line + seq!['\n'] + rest;
    let n = line.len() as int;
    assert forall|j: int| 0 <= j < n implies all[j] != '\n' by {
        assert(all[j] == line[j]);
        assert(line.contains(line[j]));
    }
    lemma_first_position(all, '\n');
    let i = first_of(all, '\n');
    assert(all[n] == '\n');
    assert(i == n);
    assert(all.take(n) =~= line);
    assert(all.skip(n + 1) =~= rest);
    let parts = split_on(all, '\n');
    let more = split_on(rest, '\n');
    law_split_parts_make_up_the_text(rest, '\n');
    assert(parts == seq![line] + more);
    assert(parts.last() == more.last());
    let first = without_return(line);
    assert(lines_of(all) =~= seq![first] + lines_of(rest));
    lemma_first_position(line, '\n');
    let k = first_of(line, '\n');
    if k < line.len() {
        assert(line.contains(line[k]));
    }
    assert(split_on(line, '\n') == seq![line]);
    if line.len() > 0 {
        assert(lines_of(line) =~= seq![line]);
    }
    let none = Seq::<char>::empty();
    assert(split_on(none, '\n') =~= seq![none]);
    assert(lines_of(none) =~= Seq::<Seq<char>>::empty());
}

/// Whether `text` ends in `words`.
pub open spec fn ends_in(text: Seq<char>, words: Seq<char>) -> bool {
    &&& words.len() <= text.len()
    &&& text.skip(text.len() - words.len()) == words
}

/// Whatever stands before `words`, the text ends in them.
pub proof fn lemma_ends_in(head: Seq<char>, words: Seq<char>)
    ensures
        ends_in(head + words, words),
{
    assert((head + words).skip(head.len() as int) =~= words);
}

} // verus!
