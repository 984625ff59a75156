//! Splitting the text of an entry into its lines.

use vstd::prelude::*;

verus! {

/// `String::push` appends one character.
pub assume_specification[ String::push ](text: &mut String, c: char)
    ensures
        final(text)@ == old(text)@.push(c),
;

/// The pieces of `s` between the occurrences of `sep`: one more piece than
/// there are separators, in order, none of them holding a separator.
pub open spec fn split_on(s: Seq<char>, sep: char) -> Seq<Seq<char>>
    decreases s.len(),
{
    if s.len() == 0 {
        seq![Seq::empty()]
    } else {
        let before = split_on(s.drop_last(), sep);
        if s.last() == sep {
            before.push(Seq::empty())
        } else {
            before.drop_last().push(before.last().push(s.last()))
        }
    }
}

/// What stays of a text: every character but the carriage return.
pub open spec fn is_kept() -> spec_fn(char) -> bool {
    |c: char| c != '\r'
}

/// The lines of a text: carriage returns are dropped, then the text is cut
/// at each line feed.
pub open spec fn lines_of(content: Seq<char>) -> Seq<Seq<char>> {
    split_on(content.filter(is_kept()), '\n')
}

/// The pieces put together again, with `sep` between each two.
pub open spec fn join_with(pieces: Seq<Seq<char>>, sep: char) -> Seq<char>
    decreases pieces.len(),
{
    if pieces.len() == 0 {
        Seq::empty()
    } else if pieces.len() == 1 {
        pieces[0]
    } else {
        join_with(pieces.drop_last(), sep).push(sep) + pieces.last()
    }
}

/// Cutting loses nothing: there is at least one piece, no piece holds the
/// separator, and the pieces joined by the separator are the text.
pub proof fn lemma_split_joins_back(s: Seq<char>, sep: char)
    ensures
        split_on(s, sep).len() >= 1,
        forall|k: int|
            0 <= k < split_on(s, sep).len() ==> !(#[trigger] split_on(s, sep)[k]).contains(sep),
        join_with(split_on(s, sep), sep) == s,
    decreases s.len(),
{
    if s.len() > 0 {
        let pieces = split_on(s, sep);
        let before = split_on(s.drop_last(), sep);
        lemma_split_joins_back(s.drop_last(), sep);
        if s.last() == sep {
            assert(pieces.drop_last() =~= before);
        } else {
            let grown = before.last().push(s.last());
            assert forall|k: int| 0 <= k < pieces.len() implies !(#[trigger] pieces[k]).contains(
                sep,
            ) by {
                if k == pieces.len() - 1 {
                    assert forall|j: int| 0 <= j < grown.len() implies grown[j] != sep by {}
                }
            }
            if before.len() > 1 {
                assert(pieces.drop_last() =~= before.drop_last());
                assert(join_with(pieces, sep) =~= join_with(before, sep).push(s.last()));
            }
        }
    }
}

/// Cutting is the only way to part a text: pieces that hold no separator
/// and that, joined by the separator, are the text, are the pieces of the
/// cut.
pub proof fn lemma_split_is_unique(pieces: Seq<Seq<char>>, s: Seq<char>, sep: char)
    requires
        pieces.len() >= 1,
        forall|k: int| 0 <= k < pieces.len() ==> !(#[trigger] pieces[k]).contains(sep),
        join_with(pieces, sep) == s,
    ensures
        pieces == split_on(s, sep),
    decreases s.len(),
{
    let front = pieces.drop_last();
    let tail = pieces.last();
    if pieces.len() == 1 {
        if s.len() == 0 {
            assert(s =~= Seq::<char>::empty());
        } else {
            // The one piece is the text; without its last character it is
            // the one piece of the shorter text.
            let shorter = seq![s.drop_last()];
            assert forall|k: int| 0 <= k < shorter.len() implies !(#[trigger] shorter[k]).contains(
                sep,
            ) by {}
            lemma_split_is_unique(shorter, s.drop_last(), sep);
            assert(s.drop_last().push(s.last()) =~= s);
        }
    } else {
        assert forall|k: int| 0 <= k < front.len() implies !(#[trigger] front[k]).contains(
            sep,
        ) by {}
        if tail.len() == 0 {
            // The text ends in a separator: the pieces before the empty one
            // part the text before it.
            assert(s.drop_last() =~= join_with(front, sep));
            lemma_split_is_unique(front, s.drop_last(), sep);
            assert(tail =~= Seq::<char>::empty());
        } else {
            // The text ends in the last piece: shorten both by a character.
            let shorter = front.push(tail.drop_last());
            assert(shorter.drop_last() =~= front);
            assert forall|k: int| 0 <= k < shorter.len() implies !(#[trigger] shorter[k]).contains(
                sep,
            ) by {}
            assert(s.drop_last() =~= join_with(front, sep).push(sep) + tail.drop_last());
            lemma_split_is_unique(shorter, s.drop_last(), sep);
            assert(tail.drop_last().push(tail.last()) =~= tail);
        }
    }
}

/// What a piece holds, the text holds.
proof fn lemma_piece_within(s: Seq<char>, sep: char, k: int, c: char)
    requires
        0 <= k < split_on(s, sep).len(),
        split_on(s, sep)[k].contains(c),
    ensures
        s.contains(c),
    decreases s.len(),
{
    if s.len() > 0 {
        let before = split_on(s.drop_last(), sep);
        let piece = split_on(s, sep)[k];
        let at: int = choose|at: int| 0 <= at < piece.len() && piece[at] == c;
        let last: int = before.len() - 1;
        if k < last || (k == last && s.last() == sep) {
            lemma_piece_within(s.drop_last(), sep, k, c);
        } else if s.last() != sep && at < before.last().len() {
            lemma_piece_within(s.drop_last(), sep, last, c);
        }
        if s.drop_last().contains(c) {
            let found: int = choose|i: int|
                0 <= i < s.drop_last().len() && s.drop_last()[i] == c;
            assert(s[found] == c);
        }
    }
}

/// The lines of a text hold neither line feed nor carriage return, and
/// joined by line feeds they are the text without its carriage returns.
pub proof fn lemma_lines_join_back(content: Seq<char>)
    ensures
        lines_of(content).len() >= 1,
        forall|k: int|
            0 <= k < lines_of(content).len() ==> !(#[trigger] lines_of(content)[k]).contains('\n')
                && !lines_of(content)[k].contains('\r'),
        join_with(lines_of(content), '\n') == content.filter(is_kept()),
{
    let kept = content.filter(is_kept());
    let lines = lines_of(content);
    lemma_split_joins_back(kept, '\n');
    assert forall|k: int| 0 <= k < lines.len() implies !(#[trigger] lines[k]).contains('\r') by {
        if lines[k].contains('\r') {
            lemma_piece_within(kept, '\n', k, '\r');
        }
    }
}

/// Reading one more character either opens a line, leaves the lines as they
/// are, or lengthens the last one.
proof fn lemma_lines_step(done: Seq<char>, c: char)
    ensures
        c == '\n' ==> lines_of(done.push(c)) == lines_of(done).push(Seq::empty()),
        c == '\r' ==> lines_of(done.push(c)) == lines_of(done),
        c != '\n' && c != '\r' ==> lines_of(done.push(c)) == lines_of(done).drop_last().push(
            lines_of(done).last().push(c),
        ),
{
    reveal(Seq::filter);
    let kept = done.filter(is_kept());
    assert(done.push(c).drop_last() =~= done);
    assert(kept.push(c).drop_last() =~= kept);
}

/// Cuts a text into its lines, dropping every carriage return.
pub fn split_on_line_breaks(content: &str) -> (lines: Vec<String>)
    ensures
        lines.deep_view() == lines_of(content@),
{
    let mut lines: Vec<String> = Vec::new();
    let mut current = String::new();
    for c in it: content.chars()
        invariant
            it.seq() == content@,
            lines.deep_view().push(current@) == lines_of(content@.take(it.index() as int)),
    {
        proof {
            let done = content@.take(it.index() as int);
            lemma_lines_step(done, c);
            assert(content@.take(it.index() + 1) =~= done.push(c));
        }
        if c == '\n' {
            lines.push(current);
            current = String::new();
        } else if c != '\r' {
            current.push(c);
        }
    }
    assert(content@.take(content@.len() as int) =~= content@);
    lines.push(current);
    lines
}

} // verus!
