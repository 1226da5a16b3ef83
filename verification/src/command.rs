//! Splitting a command line into a program and its arguments.

use vstd::prelude::*;
use vstd::string::*;

verus! {

/// Whether `i` is the place of the first `sep` in `s`.
pub open spec fn first_at(s: Seq<char>, sep: char, i: int) -> bool {
    &&& 0 <= i < s.len()
    &&& s[i] == sep
    &&& forall|j: int| 0 <= j < i ==> s[j] != sep
}

/// The pieces of `s` between the occurrences of `sep`. There is one piece
/// more than there are separators: two separators in a row, and one at either
/// end, give an empty piece. Nothing is quoted or escaped.
pub open spec fn split_on(s: Seq<char>, sep: char) -> Seq<Seq<char>>
    decreases s.len(),
{
    if s.contains(sep) {
        let i = choose|i: int| first_at(s, sep, i);
        if first_at(s, sep, i) {
            seq![s.take(i)] + split_on(s.skip(i + 1), sep)
        } else {
            seq![s]
        }
    } else {
        seq![s]
    }
}

/// The pieces put together again, with `sep` between each two.
pub open spec fn join(pieces: Seq<Seq<char>>, sep: char) -> Seq<char>
    decreases pieces.len(),
{
    if pieces.len() == 0 {
        Seq::empty()
    } else if pieces.len() == 1 {
        pieces[0]
    } else {
        pieces[0] + seq![sep] + join(pieces.skip(1), sep)
    }
}

/// A sequence without the separator is its own single piece.
pub proof fn lemma_split_whole(s: Seq<char>, sep: char)
    requires
        !s.contains(sep),
    ensures
        split_on(s, sep) == seq![s],
{
}

/// A sequence splits at its first separator into the piece before it and the
/// pieces of the rest.
pub proof fn lemma_split_first(s: Seq<char>, sep: char, i: int)
    requires
        first_at(s, sep, i),
    ensures
        split_on(s, sep) == seq![s.take(i)] + split_on(s.skip(i + 1), sep),
{
    assert(s.contains(sep));
    let k = choose|k: int| first_at(s, sep, k);
    assert(first_at(s, sep, k));
    assert(k == i);
}

/// Splitting loses nothing and invents nothing: no piece holds the separator,
/// there is at least one piece, and the pieces joined by the separator are the
/// sequence that was split.
pub proof fn lemma_split_joins(s: Seq<char>, sep: char)
    ensures
        split_on(s, sep).len() >= 1,
        forall|k: int| 0 <= k < split_on(s, sep).len() ==> !(#[trigger] split_on(s, sep)[k]).contains(sep),
        join(split_on(s, sep), sep) == s,
    decreases s.len(),
{
    if s.contains(sep) {
        let w = choose|w: int| 0 <= w < s.len() && s[w] == sep;
        lemma_first_exists(s, sep, w);
        let i = choose|i: int| first_at(s, sep, i);
        let rest = s.skip(i + 1);
        lemma_split_first(s, sep, i);
        lemma_split_joins(rest, sep);
        let pieces = split_on(s, sep);
        let tail = split_on(rest, sep);
        assert(pieces.skip(1) =~= tail);
        assert(pieces[0] == s.take(i));
        assert(join(pieces, sep) =~= s.take(i) + seq![sep] + join(tail, sep));
        assert(s =~= s.take(i) + seq![sep] + rest);
        assert forall|k: int| 0 <= k < pieces.len() implies !(#[trigger] pieces[k]).contains(sep) by {
            if k == 0 {
                if pieces[0].contains(sep) {
                    let j = choose|j: int| 0 <= j < pieces[0].len() && pieces[0][j] == sep;
                    assert(s[j] == sep);
                }
            } else {
                assert(pieces[k] == tail[k - 1]);
            }
        }
    } else {
        lemma_split_whole(s, sep);
        assert(join(seq![s], sep) == s);
    }
}

/// Where a separator occurs, one occurs first.
proof fn lemma_first_exists(s: Seq<char>, sep: char, w: int)
    requires
        0 <= w < s.len(),
        s[w] == sep,
    ensures
        exists|i: int| first_at(s, sep, i),
    decreases w,
{
    if exists|j: int| 0 <= j < w && s[j] == sep {
        let j = choose|j: int| 0 <= j < w && s[j] == sep;
        lemma_first_exists(s, sep, j);
    } else {
        assert(first_at(s, sep, w));
    }
}

/// Splits a command line at each space. The first piece is the program, the
/// others are its arguments.
pub fn split_command(command: &str) -> (r: Vec<String>)
    ensures
        r.deep_view() == split_on(command@, ' '),
{
    let len = command.unicode_len();
    let mut pieces: Vec<String> = Vec::new();
    let mut start: usize = 0;
    let mut i: usize = 0;
    proof {
        assert(command@.skip(0) =~= command@);
        assert(pieces.deep_view() + split_on(command@.skip(0), ' ') =~= split_on(command@, ' '));
    }
    for c in it: command.chars()
        invariant
            it.seq() == command@,
            len == command@.len(),
            i == it.index(),
            start <= i <= len,
            forall|j: int| start <= j < i ==> command@[j] != ' ',
            pieces.deep_view() + split_on(command@.skip(start as int), ' ') == split_on(
                command@,
                ' ',
            ),
    {
        if c == ' ' {
            let piece = command.substring_char(start, i).to_owned();
            let ghost before = pieces.deep_view();
            pieces.push(piece);
            proof {
                let rest = command@.skip(start as int);
                assert(first_at(rest, ' ', i - start));
                lemma_split_first(rest, ' ', i - start);
                assert(rest.take(i - start) =~= command@.subrange(start as int, i as int));
                assert(rest.skip(i - start + 1) =~= command@.skip(i + 1));
                assert(pieces.deep_view() =~= before.push(piece@));
                assert(pieces.deep_view() + split_on(command@.skip(i + 1), ' ') =~= before
                    + split_on(rest, ' '));
            }
            start = i + 1;
        }
        i = i + 1;
    }
    let piece = command.substring_char(start, len).to_owned();
    let ghost before = pieces.deep_view();
    pieces.push(piece);
    proof {
        let rest = command@.skip(start as int);
        assert(!rest.contains(' ')) by {
            if rest.contains(' ') {
                let j = choose|j: int| 0 <= j < rest.len() && rest[j] == ' ';
                assert(command@[start + j] == ' ');
            }
        }
        lemma_split_whole(rest, ' ');
        assert(rest =~= command@.subrange(start as int, len as int));
        assert(pieces.deep_view() =~= before.push(piece@));
        assert(pieces.deep_view() =~= before + split_on(rest, ' '));
    }
    pieces
}

} // verus!
