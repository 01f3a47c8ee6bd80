//! Text helpers shared by the other modules.
use vstd::prelude::*;
use vstd::string::*;

verus! {

/// The pieces of `s` between occurrences of `sep`, in order. There is always
/// at least one piece; a piece is empty where two separators touch or where
/// `s` starts or ends with one.
pub open spec fn split(s: Seq<char>, sep: char) -> Seq<Seq<char>>
    decreases s.len(),
{
    if s.len() == 0 {
        seq![Seq::empty()]
    } else {
        let before = split(s.drop_last(), sep);
        if s.last() == sep {
            before.push(Seq::empty())
        } else {
            before.update(before.len() - 1, before.last().push(s.last()))
        }
    }
}

/// The pieces put together again, with `sep` between each two.
pub open spec fn join(pieces: Seq<Seq<char>>, sep: char) -> Seq<char>
    decreases pieces.len(),
{
    if pieces.len() == 0 {
        Seq::empty()
    } else if pieces.len() == 1 {
        pieces[0]
    } else {
        join(pieces.drop_last(), sep).push(sep) + pieces.last()
    }
}

/// Splitting loses nothing and leaves no separator behind: the pieces hold
/// none, and joined by the separator they give the text back.
pub proof fn lemma_split_is_exact(s: Seq<char>, sep: char)
    ensures
        split(s, sep).len() >= 1,
        forall|k: int| 0 <= k < split(s, sep).len() ==> !(#[trigger] split(s, sep)[k]).contains(sep),
        join(split(s, sep), sep) == s,
    decreases s.len(),
{
    if s.len() == 0 {
        assert(join(seq![Seq::<char>::empty()], sep) == s);
    } else {
        let init = s.drop_last();
        let before = split(init, sep);
        lemma_split_is_exact(init, sep);
        if s.last() == sep {
            let pieces = before.push(Seq::<char>::empty());
            assert(pieces.drop_last() == before);
            assert(join(pieces, sep) == join(before, sep).push(sep) + Seq::<char>::empty());
            assert(init.push(sep) == s);
            assert forall|k: int| 0 <= k < pieces.len() implies !(#[trigger] pieces[k]).contains(
                sep,
            ) by {
                if k < before.len() {
                    assert(pieces[k] == before[k]);
                }
            }
        } else {
            let grown = before.last().push(s.last());
            let pieces = before.update(before.len() - 1, grown);
            assert forall|k: int| 0 <= k < pieces.len() implies !(#[trigger] pieces[k]).contains(
                sep,
            ) by {
                if k < before.len() - 1 {
                    assert(pieces[k] == before[k]);
                } else {
                    assert(!before.last().contains(sep));
                    assert forall|i: int| 0 <= i < grown.len() implies grown[i] != sep by {
                        if i < before.last().len() {
                            assert(before.last().contains(grown[i]));
                        }
                    }
                }
            }
            if before.len() == 1 {
                assert(join(before, sep) == before[0]);
                assert(join(pieces, sep) == grown);
                assert(init.push(s.last()) == s);
            } else {
                assert(pieces.drop_last() == before.drop_last());
                assert(pieces.last() == grown);
                assert(join(pieces, sep) == join(before.drop_last(), sep).push(sep) + grown);
                assert(join(before, sep) == join(before.drop_last(), sep).push(sep)
                    + before.last());
                assert(join(before.drop_last(), sep).push(sep) + grown == (join(
                    before.drop_last(),
                    sep,
                ).push(sep) + before.last()).push(s.last()));
                assert(init.push(s.last()) == s);
            }
        }
    }
}

/// A split always yields at least one piece.
pub proof fn lemma_split_is_not_empty(s: Seq<char>, sep: char)
    ensures
        split(s, sep).len() >= 1,
    decreases s.len(),
{
    if s.len() > 0 {
        lemma_split_is_not_empty(s.drop_last(), sep);
    }
}

/// Text without a separator is its own single piece.
pub proof fn lemma_split_without_separator(s: Seq<char>, sep: char)
    requires
        !s.contains(sep),
    ensures
        split(s, sep) == seq![s],
    decreases s.len(),
{
    if s.len() > 0 {
        let init = s.drop_last();
        assert forall|i: int| 0 <= i < init.len() implies init[i] != sep by {
            assert(init[i] == s[i]);
        }
        assert(!init.contains(sep));
        lemma_split_without_separator(init, sep);
        assert(s.last() != sep) by {
            assert(s.contains(s.last()));
        }
        assert(init.push(s.last()) == s);
        assert(seq![init].update(0, init.push(s.last())) == seq![s]);
    } else {
        assert(s == Seq::<char>::empty());
    }
}

/// Splitting two texts joined by a separator gives the pieces of the first
/// followed by the pieces of the second.
pub proof fn lemma_split_at_separator(a: Seq<char>, b: Seq<char>, sep: char)
    ensures
        split(a + seq![sep] + b, sep) == split(a, sep) + split(b, sep),
    decreases b.len(),
{
    let whole = a + seq![sep] + b;
    if b.len() == 0 {
        assert(whole.drop_last() == a);
        assert(split(a, sep).push(Seq::<char>::empty()) == split(a, sep) + seq![
            Seq::<char>::empty(),
        ]);
    } else {
        let init = b.drop_last();
        lemma_split_at_separator(a, init, sep);
        lemma_split_is_not_empty(init, sep);
        assert(whole.drop_last() == a + seq![sep] + init);
        assert(whole.last() == b.last());
        let left = split(a, sep);
        let right = split(init, sep);
        if b.last() == sep {
            assert((left + right).push(Seq::<char>::empty()) == left + right.push(
                Seq::<char>::empty(),
            ));
        } else {
            assert((left + right).last() == right.last());
            assert((left + right).update(
                (left + right).len() - 1,
                right.last().push(b.last()),
            ) == left + right.update(right.len() - 1, right.last().push(b.last())));
        }
    }
}

/// Splitting is the only way to take a text apart at its separators: pieces
/// that hold no separator are what splitting their join gives.
pub proof fn lemma_split_of_join(pieces: Seq<Seq<char>>, sep: char)
    requires
        pieces.len() >= 1,
        forall|k: int| 0 <= k < pieces.len() ==> !(#[trigger] pieces[k]).contains(sep),
    ensures
        split(join(pieces, sep), sep) == pieces,
    decreases pieces.len(),
{
    if pieces.len() == 1 {
        lemma_split_without_separator(pieces[0], sep);
        assert(seq![pieces[0]] == pieces);
    } else {
        let init = pieces.drop_last();
        lemma_split_of_join(init, sep);
        lemma_split_at_separator(join(init, sep), pieces.last(), sep);
        lemma_split_without_separator(pieces.last(), sep);
        assert(join(init, sep).push(sep) + pieces.last() == join(init, sep) + seq![sep]
            + pieces.last());
        assert(init + seq![pieces.last()] == pieces);
    }
}

/// The characters of each string of a list.
pub open spec fn texts(list: Seq<String>) -> Seq<Seq<char>> {
    list.map_values(|s: String| s@)
}

/// Whether two strings hold the same characters.
pub fn same(a: &str, b: &str) -> (r: bool)
    ensures
        r == (a@ == b@),
{
    let x: String = a.to_owned();
    let y: String = b.to_owned();
    x == y
}

/// Splits `s` at every `sep`.
pub fn split_text(s: &str, sep: char) -> (pieces: Vec<String>)
    ensures
        texts(pieces@) == split(s@, sep),
{
    let n: usize = s.unicode_len();
    let mut pieces: Vec<String> = Vec::new();
    let mut start: usize = 0;
    let mut at: usize = 0;
    for c in it: s.chars()
        invariant
            it.seq() == s@,
            n == s@.len(),
            at == it.index(),
            start <= at <= n,
            split(s@.subrange(0, at as int), sep).len() == pieces@.len() + 1,
            split(s@.subrange(0, at as int), sep).last() == s@.subrange(start as int, at as int),
            forall|k: int|
                0 <= k < pieces@.len() ==> #[trigger] pieces@[k]@ == split(
                    s@.subrange(0, at as int),
                    sep,
                )[k],
    {
        let ghost before = s@.subrange(0, at as int);
        let ghost after = s@.subrange(0, at + 1);
        assert(after.drop_last() == before);
        assert(after.last() == c);
        if c == sep {
            pieces.push(s.substring_char(start, at).to_owned());
            start = at + 1;
            assert(s@.subrange(start as int, start as int) == Seq::<char>::empty());
        } else {
            assert(s@.subrange(start as int, at as int).push(c) == s@.subrange(
                start as int,
                at + 1,
            ));
        }
        at = at + 1;
    }
    assert(s@.subrange(0, at as int) == s@);
    pieces.push(s.substring_char(start, at).to_owned());
    pieces
}

} // verus!
