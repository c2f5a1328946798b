//! Small operations on text and bytes that the pipeline stages share.

use vstd::prelude::*;

verus! {

broadcast use vstd::string::group_string_axioms;

/// The texts held by a vector of strings.
pub open spec fn texts(strings: Seq<String>) -> Seq<Seq<char>> {
    strings.map_values(|s: String| s@)
}

/// The text held by an optional string.
pub open spec fn optional_text(s: Option<String>) -> Option<Seq<char>> {
    match s {
        Some(s) => Some(s@),
        None => None,
    }
}

/// `String::push` appends one character to the end of the string.
pub assume_specification[ String::push ](s: &mut String, ch: char)
    ensures
        final(s)@ == old(s)@.push(ch),
;

/// The pieces of `text` between occurrences of `sep`. A text without `sep`
/// is one piece; a text that ends in `sep` ends in an empty piece.
pub open spec fn split_on(text: Seq<char>, sep: char) -> Seq<Seq<char>>
    decreases text.len(),
{
    if text.len() == 0 {
        seq![Seq::empty()]
    } else {
        let before = split_on(text.drop_last(), sep);
        if text.last() == sep {
            before.push(Seq::empty())
        } else {
            before.drop_last().push(before.last().push(text.last()))
        }
    }
}

/// The pieces put back together with `sep` between neighbours.
pub open spec fn join_with(pieces: Seq<Seq<char>>, sep: char) -> Seq<char>
    decreases pieces.len(),
{
    if pieces.len() == 0 {
        Seq::empty()
    } else if pieces.len() == 1 {
        pieces[0]
    } else {
        join_with(pieces.drop_last(), sep).push(sep) + pieces.last()
    }
}

/// Splitting loses nothing and leaves no separator behind: there is at
/// least one piece, no piece contains the separator, and joining the pieces
/// with the separator gives the text back.
pub proof fn split_on_is_inverse_of_join(text: Seq<char>, sep: char)
    ensures
        split_on(text, sep).len() >= 1,
        forall|i: int|
            0 <= i < split_on(text, sep).len() ==> !(#[trigger] split_on(text, sep)[i]).contains(
                sep,
            ),
        join_with(split_on(text, sep), sep) == text,
    decreases text.len(),
{
    if text.len() > 0 {
        let shorter = text.drop_last();
        let before = split_on(shorter, sep);
        split_on_is_inverse_of_join(shorter, sep);
        let pieces = split_on(text, sep);
        if text.last() == sep {
            assert(pieces.drop_last() =~= before);
        } else if before.len() > 1 {
            assert(pieces.drop_last() =~= before.drop_last());
            assert(join_with(pieces, sep) =~= join_with(before, sep).push(text.last()));
        }
    }
}

/// Splitting undoes joining: pieces that hold no separator, and of which
/// there is at least one, are what their joined text splits into. Together
/// with [`split_on_is_inverse_of_join`] this says that the pieces of a text
/// are the only such pieces that join to it.
pub proof fn split_on_undoes_join(pieces: Seq<Seq<char>>, sep: char)
    requires
        pieces.len() >= 1,
        forall|i: int| 0 <= i < pieces.len() ==> !(#[trigger] pieces[i]).contains(sep),
    ensures
        split_on(join_with(pieces, sep), sep) == pieces,
    decreases pieces.len(), pieces.last().len(),
{
    let text = join_with(pieces, sep);
    let last = pieces.last();
    if last.len() == 0 {
        assert(last =~= Seq::<char>::empty());
        if pieces.len() > 1 {
            // The text ends in the separator that stands before the empty last piece.
            assert(text.drop_last() =~= join_with(pieces.drop_last(), sep));
            split_on_undoes_join(pieces.drop_last(), sep);
        }
    } else {
        // The text ends in the last character of the last piece; without it
        // the text is the join of the pieces with that character taken off.
        let shorter = pieces.update(pieces.len() - 1, last.drop_last());
        assert(last.last() != sep);
        assert forall|i: int| 0 <= i < shorter.len() implies !(#[trigger] shorter[i]).contains(
            sep,
        ) by {
            if i == shorter.len() - 1 && shorter[i].contains(sep) {
                let k = choose|k: int| 0 <= k < shorter[i].len() && shorter[i][k] == sep;
                assert(last[k] == sep);
            }
        }
        if pieces.len() > 1 {
            assert(shorter.drop_last() =~= pieces.drop_last());
        }
        assert(text.drop_last() =~= join_with(shorter, sep));
        split_on_undoes_join(shorter, sep);
        assert(last.drop_last().push(last.last()) =~= last);
    }
}

/// Splits `text` at every line feed.
pub fn split_lines(text: &str) -> (lines: Vec<String>)
    ensures
        texts(lines@) == split_on(text@, '\n'),
{
    let mut done: Vec<String> = Vec::new();
    let mut current = String::new();
    for ch in it: text.chars()
        invariant
            it.seq() == text@,
            texts(done@).push(current@) == split_on(text@.take(it.index() as int), '\n'),
    {
        let ghost seen = text@.take(it.index() as int);
        let ghost next = text@.take(it.index() + 1);
        assert(next.drop_last() =~= seen);
        if ch == '\n' {
            done.push(current);
            current = String::new();
        } else {
            current.push(ch);
        }
    }
    assert(text@.take(text@.len() as int) =~= text@);
    done.push(current);
    done
}

/// Copies a vector of strings.
pub fn clone_texts(strings: &Vec<String>) -> (copy: Vec<String>)
    ensures
        texts(copy@) == texts(strings@),
{
    let mut copy: Vec<String> = Vec::new();
    let mut i: usize = 0;
    while i < strings.len()
        invariant
            i <= strings.len(),
            copy.len() == i,
            forall|k: int| 0 <= k < i ==> copy@[k]@ == strings@[k]@,
        decreases strings.len() - i,
    {
        copy.push(strings[i].clone());
        i += 1;
    }
    copy
}

/// Appends one string to a vector of strings.
pub fn push_text(strings: &mut Vec<String>, text: String)
    ensures
        texts(final(strings)@) == texts(old(strings)@).push(text@),
{
    strings.push(text);
}

/// Appends copies of `more` to a vector of strings.
pub fn append_texts(strings: &mut Vec<String>, more: &Vec<String>)
    ensures
        texts(final(strings)@) == texts(old(strings)@) + texts(more@),
{
    let ghost before = texts(strings@);
    let mut i: usize = 0;
    while i < more.len()
        invariant
            i <= more.len(),
            texts(strings@) == before + texts(more@).take(i as int),
        decreases more.len() - i,
    {
        push_text(strings, more[i].clone());
        i += 1;
    }
}

/// Whether two byte strings hold the same bytes.
pub fn same_bytes(left: &[u8], right: &[u8]) -> (same: bool)
    ensures
        same == (left@ == right@),
{
    if left.len() != right.len() {
        return false;
    }
    let mut i: usize = 0;
    while i < left.len()
        invariant
            left.len() == right.len(),
            i <= left.len(),
            forall|k: int| 0 <= k < i ==> left@[k] == right@[k],
        decreases left.len() - i,
    {
        if left[i] != right[i] {
            return false;
        }
        i += 1;
    }
    assert(left@ =~= right@);
    true
}

} // verus!
