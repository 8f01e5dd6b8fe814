//! Searching and rewriting text, character by character.
//!
//! Strings are handled as sequences of characters: a `Vec<char>` while the
//! work is done, a `Seq<char>` in contracts.

use vstd::prelude::*;

verus! {

/// Collects characters into a `String` with `String::from_iter`, which
/// appends them one after the other in the order given.
#[verifier::external_body]
pub(crate) fn string_of(chars: &Vec<char>) -> (text: String)
    ensures
        text@ == chars@,
{
    String::from_iter(chars.iter())
}

/// The characters of a string.
pub fn chars_of(text: &str) -> (chars: Vec<char>)
    ensures
        chars@ == text@,
{
    let mut chars: Vec<char> = Vec::new();
    for c in iter: text.chars()
        invariant
            chars@ == iter.seq().take(iter.index() as int),
            iter.seq() == text@,
    {
        chars.push(c);
    }
    chars
}

/// `needle` stands in `hay` at position `at`.
pub open spec fn is_match_at(hay: Seq<char>, at: int, needle: Seq<char>) -> bool {
    &&& 0 <= at
    &&& at + needle.len() <= hay.len()
    &&& hay.subrange(at, at + needle.len()) == needle
}

/// Tells whether `needle` stands in `hay` at position `at`.
pub fn matches_at(hay: &Vec<char>, at: usize, needle: &Vec<char>) -> (found: bool)
    ensures
        found == is_match_at(hay@, at as int, needle@),
{
    if at > hay.len() || needle.len() > hay.len() - at {
        return false;
    }
    let mut k: usize = 0;
    while k < needle.len()
        invariant
            at + needle.len() <= hay.len(),
            k <= needle.len(),
            hay@.subrange(at as int, at + k) == needle@.take(k as int),
        decreases needle.len() - k,
    {
        if hay[at + k] != needle[k] {
            assert(hay@.subrange(at as int, at + needle.len())[k as int] != needle@[k as int]);
            return false;
        }
        assert(hay@.subrange(at as int, at + k + 1) =~= hay@.subrange(at as int, at + k).push(
            hay@[at + k],
        ));
        assert(needle@.take(k + 1) =~= needle@.take(k as int).push(needle@[k as int]));
        k += 1;
    }
    assert(needle@.take(needle.len() as int) =~= needle@);
    true
}

/// The first position at or after `from` at which `needle` stands in `hay`.
pub open spec fn first_match_from(hay: Seq<char>, needle: Seq<char>, from: int) -> Option<int>
    decreases hay.len() + 1 - from,
{
    if from < 0 || from + needle.len() > hay.len() {
        None
    } else if is_match_at(hay, from, needle) {
        Some(from)
    } else {
        first_match_from(hay, needle, from + 1)
    }
}

/// The first position at which `needle` stands in `hay`.
pub open spec fn first_match(hay: Seq<char>, needle: Seq<char>) -> Option<int> {
    first_match_from(hay, needle, 0)
}

/// `needle` stands somewhere in `hay`.
pub open spec fn occurs_in(needle: Seq<char>, hay: Seq<char>) -> bool {
    exists|at: int| is_match_at(hay, at, needle)
}

/// `first_match_from` finds a match, the leftmost one, whenever there is one
/// at or after `from`.
pub proof fn lemma_first_match_from(hay: Seq<char>, needle: Seq<char>, from: int)
    requires
        0 <= from,
    ensures
        match first_match_from(hay, needle, from) {
            Some(at) => {
                &&& from <= at
                &&& is_match_at(hay, at, needle)
                &&& forall|k: int| from <= k < at ==> !is_match_at(hay, k, needle)
            },
            None => forall|k: int| from <= k ==> !is_match_at(hay, k, needle),
        },
    decreases hay.len() + 1 - from,
{
    if from + needle.len() <= hay.len() && !is_match_at(hay, from, needle) {
        lemma_first_match_from(hay, needle, from + 1);
    }
}

/// `first_match` is `None` exactly when `needle` does not occur in `hay`.
pub proof fn lemma_first_match_none(hay: Seq<char>, needle: Seq<char>)
    ensures
        first_match(hay, needle) is None <==> !occurs_in(needle, hay),
{
    lemma_first_match_from(hay, needle, 0);
    if let Some(at) = first_match(hay, needle) {
        assert(is_match_at(hay, at, needle));
    }
}

/// Finds the first position at which `needle` stands in `hay`.
pub fn find(hay: &Vec<char>, needle: &Vec<char>) -> (position: Option<usize>)
    ensures
        match position {
            Some(at) => first_match(hay@, needle@) == Some(at as int),
            None => first_match(hay@, needle@) is None,
        },
{
    if needle.len() > hay.len() {
        return None;
    }
    let last = hay.len() - needle.len();
    let mut at: usize = 0;
    loop
        invariant
            last == hay.len() - needle.len(),
            at <= last,
            first_match(hay@, needle@) == first_match_from(hay@, needle@, at as int),
        decreases last - at,
    {
        if matches_at(hay, at, needle) {
            return Some(at);
        }
        if at == last {
            assert(first_match_from(hay@, needle@, at + 1) is None);
            return None;
        }
        at += 1;
    }
}

/// Tells whether `needle` occurs in `hay`.
pub fn contains(hay: &Vec<char>, needle: &Vec<char>) -> (found: bool)
    ensures
        found == occurs_in(needle@, hay@),
{
    proof {
        lemma_first_match_none(hay@, needle@);
    }
    find(hay, needle).is_some()
}

/// Appends the characters of `more` to `out`.
pub fn append_chars(out: &mut Vec<char>, more: &Vec<char>)
    ensures
        final(out)@ == old(out)@ + more@,
{
    let mut k: usize = 0;
    while k < more.len()
        invariant
            k <= more.len(),
            out@ == old(out)@ + more@.take(k as int),
        decreases more.len() - k,
    {
        out.push(more[k]);
        assert(more@.take(k + 1) =~= more@.take(k as int).push(more@[k as int]));
        k += 1;
    }
    assert(more@.take(more.len() as int) =~= more@);
}

/// A match in a suffix of `hay` is a match in `hay`, further to the right.
pub proof fn lemma_match_in_suffix(hay: Seq<char>, at: int, needle: Seq<char>)
    requires
        0 <= at <= hay.len(),
    ensures
        is_match_at(hay.skip(at), 0, needle) == is_match_at(hay, at, needle),
{
    if at + needle.len() <= hay.len() {
        assert(hay.skip(at).subrange(0, needle.len() as int) =~= hay.subrange(
            at,
            at + needle.len(),
        ));
    }
}

/// `hay` with every occurrence of `from` replaced by `to`. Occurrences are
/// taken from the left and do not overlap. An empty `from` occurs before
/// every character and at the end.
pub open spec fn replaced(hay: Seq<char>, from: Seq<char>, to: Seq<char>) -> Seq<char>
    decreases hay.len(),
{
    if from.len() == 0 {
        if hay.len() == 0 {
            to
        } else {
            to + seq![hay[0]] + replaced(hay.skip(1), from, to)
        }
    } else if is_match_at(hay, 0, from) {
        to + replaced(hay.skip(from.len() as int), from, to)
    } else if hay.len() == 0 {
        Seq::empty()
    } else {
        seq![hay[0]] + replaced(hay.skip(1), from, to)
    }
}

/// Replacing a text that is not empty by itself changes nothing.
pub proof fn lemma_replaced_by_itself(hay: Seq<char>, from: Seq<char>)
    requires
        from.len() > 0,
    ensures
        replaced(hay, from, from) == hay,
    decreases hay.len(),
{
    if is_match_at(hay, 0, from) {
        let rest = hay.skip(from.len() as int);
        lemma_replaced_by_itself(rest, from);
        assert(from + rest =~= hay);
    } else if hay.len() > 0 {
        lemma_replaced_by_itself(hay.skip(1), from);
        assert(seq![hay[0]] + hay.skip(1) =~= hay);
    }
}

/// A text in which `from` does not occur is left as it is.
pub proof fn lemma_replaced_without_match(hay: Seq<char>, from: Seq<char>, to: Seq<char>)
    requires
        from.len() > 0,
        !occurs_in(from, hay),
    ensures
        replaced(hay, from, to) == hay,
    decreases hay.len(),
{
    assert(!is_match_at(hay, 0, from));
    if hay.len() > 0 {
        let rest = hay.skip(1);
        assert forall|at: int| !is_match_at(rest, at, from) by {
            if is_match_at(rest, at, from) {
                assert(hay.subrange(at + 1, at + 1 + from.len()) =~= rest.subrange(
                    at,
                    at + from.len(),
                ));
                assert(is_match_at(hay, at + 1, from));
            }
        }
        lemma_replaced_without_match(rest, from, to);
        assert(seq![hay[0]] + rest =~= hay);
    }
}

/// Replaces every occurrence of `from` in `hay` by `to`.
pub fn replace_all(hay: &Vec<char>, from: &Vec<char>, to: &Vec<char>) -> (out: Vec<char>)
    ensures
        out@ == replaced(hay@, from@, to@),
{
    let mut out: Vec<char> = Vec::new();
    let mut at: usize = 0;
    assert(hay@.skip(0) =~= hay@);
    assert(out@ + replaced(hay@, from@, to@) =~= replaced(hay@, from@, to@));
    while at < hay.len()
        invariant
            at <= hay.len(),
            out@ + replaced(hay@.skip(at as int), from@, to@) == replaced(hay@, from@, to@),
        decreases hay.len() - at,
    {
        let ghost rest = hay@.skip(at as int);
        let ghost before = out@;
        proof {
            lemma_match_in_suffix(hay@, at as int, from@);
        }
        if from.len() == 0 {
            append_chars(&mut out, to);
            out.push(hay[at]);
            assert(rest.skip(1) =~= hay@.skip(at + 1));
            assert(out@ + replaced(rest.skip(1), from@, to@) =~= before + (to@ + seq![rest[0]]
                + replaced(rest.skip(1), from@, to@)));
            at += 1;
        } else if matches_at(hay, at, from) {
            append_chars(&mut out, to);
            assert(rest.skip(from.len() as int) =~= hay@.skip(at + from.len()));
            assert(out@ + replaced(rest.skip(from.len() as int), from@, to@) =~= before + (to@
                + replaced(rest.skip(from.len() as int), from@, to@)));
            at += from.len();
        } else {
            out.push(hay[at]);
            assert(rest.skip(1) =~= hay@.skip(at + 1));
            assert(out@ + replaced(rest.skip(1), from@, to@) =~= before + (seq![rest[0]]
                + replaced(rest.skip(1), from@, to@)));
            at += 1;
        }
    }
    assert(hay@.skip(at as int) =~= Seq::<char>::empty());
    if from.len() == 0 {
        let ghost before = out@;
        append_chars(&mut out, to);
        assert(out@ =~= before + replaced(Seq::<char>::empty(), from@, to@));
    } else {
        assert(out@ =~= out@ + replaced(Seq::<char>::empty(), from@, to@));
    }
    out
}

/// Copies the characters of `text` from position `from` up to `to`.
pub fn slice_chars(text: &Vec<char>, from: usize, to: usize) -> (out: Vec<char>)
    requires
        from <= to <= text.len(),
    ensures
        out@ == text@.subrange(from as int, to as int),
{
    let mut out: Vec<char> = Vec::new();
    let mut k: usize = from;
    while k < to
        invariant
            from <= k <= to <= text.len(),
            out@ == text@.subrange(from as int, k as int),
        decreases to - k,
    {
        out.push(text[k]);
        assert(text@.subrange(from as int, k + 1) =~= text@.subrange(from as int, k as int).push(
            text@[k as int],
        ));
        k += 1;
    }
    out
}

/// A line without the carriage return that may end it.
pub open spec fn without_carriage_return(line: Seq<char>) -> Seq<char> {
    if line.len() > 0 && line.last() == '\r' {
        line.drop_last()
    } else {
        line
    }
}

/// The lines of `text` from position `at` on, where the line that is being
/// read began at `start`.
pub open spec fn lines_from(text: Seq<char>, start: int, at: int) -> Seq<Seq<char>>
    decreases text.len() - at,
{
    if at >= text.len() {
        if start < text.len() {
            seq![text.subrange(start, text.len() as int)]
        } else {
            Seq::empty()
        }
    } else if text[at] == '\n' {
        seq![without_carriage_return(text.subrange(start, at))] + lines_from(text, at + 1, at + 1)
    } else {
        lines_from(text, start, at + 1)
    }
}

/// The lines of a text. A line ends with a line feed, or with a carriage
/// return and a line feed; neither belongs to the line. The last line needs
/// no line ending, and keeps a carriage return that it may end with. An empty
/// text has no lines.
pub open spec fn lines_of(text: Seq<char>) -> Seq<Seq<char>> {
    lines_from(text, 0, 0)
}

/// The character sequences that a vector of character vectors stands for.
pub open spec fn views_of(lines: Seq<Vec<char>>) -> Seq<Seq<char>> {
    lines.map_values(|line: Vec<char>| line@)
}

/// Splits a text into its lines.
pub fn lines(text: &Vec<char>) -> (out: Vec<Vec<char>>)
    ensures
        views_of(out@) == lines_of(text@),
{
    let mut out: Vec<Vec<char>> = Vec::new();
    let mut start: usize = 0;
    let mut at: usize = 0;
    assert(views_of(out@) + lines_from(text@, 0, 0) =~= lines_of(text@));
    while at < text.len()
        invariant
            start <= at <= text.len(),
            views_of(out@) + lines_from(text@, start as int, at as int) == lines_of(text@),
        decreases text.len() - at,
    {
        if text[at] == '\n' {
            let mut line = slice_chars(text, start, at);
            if line.len() > 0 && line[line.len() - 1] == '\r' {
                line.pop();
            }
            assert(line@ =~= without_carriage_return(text@.subrange(start as int, at as int)));
            let ghost before = out@;
            out.push(line);
            assert(views_of(out@) =~= views_of(before).push(line@));
            assert(views_of(out@) + lines_from(text@, at + 1, at + 1) =~= views_of(before) + (
                seq![line@] + lines_from(text@, at + 1, at + 1)));
            start = at + 1;
        }
        at += 1;
    }
    if start < text.len() {
        let line = slice_chars(text, start, text.len());
        let ghost before = out@;
        out.push(line);
        assert(views_of(out@) =~= views_of(before).push(line@));
        assert(views_of(out@) =~= views_of(before) + seq![line@]);
    } else {
        assert(views_of(out@) + Seq::<Seq<char>>::empty() =~= views_of(out@));
    }
    out
}

/// Tells whether two character vectors hold the same text.
pub fn same_chars(a: &Vec<char>, b: &Vec<char>) -> (same: bool)
    ensures
        same == (a@ == b@),
{
    if a.len() != b.len() {
        return false;
    }
    let same = matches_at(a, 0, b);
    assert(a@.subrange(0, a.len() as int) =~= a@);
    same
}

/// Tells whether two strings hold the same text.
pub fn same_text(a: &str, b: &str) -> (same: bool)
    ensures
        same == (a@ == b@),
{
    let a_chars = chars_of(a);
    let b_chars = chars_of(b);
    same_chars(&a_chars, &b_chars)
}

/// The character of a decimal digit.
pub open spec fn digit_char(digit: nat) -> char {
    if digit == 0 {
        '0'
    } else if digit == 1 {
        '1'
    } else if digit == 2 {
        '2'
    } else if digit == 3 {
        '3'
    } else if digit == 4 {
        '4'
    } else if digit == 5 {
        '5'
    } else if digit == 6 {
        '6'
    } else if digit == 7 {
        '7'
    } else if digit == 8 {
        '8'
    } else {
        '9'
    }
}

/// A number written in decimal digits, without leading zeros.
pub open spec fn decimal(number: nat) -> Seq<char>
    decreases number,
{
    if number < 10 {
        seq![digit_char(number)]
    } else {
        decimal(number / 10).push(digit_char(number % 10))
    }
}

fn digit_of(value: u32) -> (c: char)
    requires
        value < 10,
    ensures
        c == digit_char(value as nat),
{
    if value == 0 {
        '0'
    } else if value == 1 {
        '1'
    } else if value == 2 {
        '2'
    } else if value == 3 {
        '3'
    } else if value == 4 {
        '4'
    } else if value == 5 {
        '5'
    } else if value == 6 {
        '6'
    } else if value == 7 {
        '7'
    } else if value == 8 {
        '8'
    } else {
        '9'
    }
}

/// Appends `number` in decimal digits to `out`.
pub fn append_decimal(out: &mut Vec<char>, number: u32)
    ensures
        final(out)@ == old(out)@ + decimal(number as nat),
    decreases number,
{
    if number >= 10 {
        append_decimal(out, number / 10);
    }
    out.push(digit_of(number % 10));
    assert(out@ =~= old(out)@ + decimal(number as nat));
}

} // verus!
