//! What taking texts apart and putting them together comes to.
use crate::text;
use vstd::prelude::*;

verus! {

/// Whether the text holds no such character.
pub open spec fn lacks(s: Seq<char>, c: char) -> bool {
    forall|i: int| 0 <= i < s.len() ==> #[trigger] s[i] != c
}

/// Whether the text is one word: it is not empty and holds no white space.
pub open spec fn is_word(s: Seq<char>) -> bool {
    s.len() > 0 && forall|i: int| 0 <= i < s.len() ==> !text::white_space(#[trigger] s[i])
}

/// A text without the separator is its only piece; what follows a separator and holds none is one
/// piece more.
pub proof fn pieces_follow_separators(a: Seq<char>, b: Seq<char>, separator: char)
    requires
        lacks(b, separator),
    ensures
        text::split_on(b, separator) == seq![b],
        text::split_on(a.push(separator) + b, separator) == text::split_on(a, separator).push(b),
    decreases b.len(),
{
    let whole = a.push(separator) + b;
    if b.len() == 0 {
        assert(b =~= Seq::<char>::empty());
        assert(whole =~= a.push(separator));
        assert(whole.drop_last() =~= a);
    } else {
        let front = b.drop_last();
        assert forall|i: int| 0 <= i < front.len() implies #[trigger] front[i] != separator by {
            assert(front[i] == b[i]);
        }
        pieces_follow_separators(a, front, separator);
        assert(whole.drop_last() =~= a.push(separator) + front);
        assert(b[b.len() - 1] != separator);
        assert(whole.last() == b.last());
        let before = text::split_on(a.push(separator) + front, separator);
        assert(before.drop_last() =~= text::split_on(a, separator));
        assert(before.last() == front);
        assert(front.push(b.last()) =~= b);
        let single = text::split_on(front, separator);
        assert(single.drop_last().push(single.last().push(b.last())) =~= seq![b]);
    }
}

/// Joining the pieces of a text gives it back.
pub proof fn pieces_make_up_the_text(s: Seq<char>, separator: char)
    ensures
        text::split_on(s, separator).len() > 0,
        text::joined(text::split_on(s, separator), seq![separator]) == s,
    decreases s.len(),
{
    let pieces = text::split_on(s, separator);
    if s.len() == 0 {
        assert(s =~= Seq::<char>::empty());
    } else {
        let front = s.drop_last();
        let before = text::split_on(front, separator);
        pieces_make_up_the_text(front, separator);
        assert(front.push(s.last()) =~= s);
        if s.last() == separator {
            assert(pieces.drop_last() =~= before);
            assert(pieces.last() =~= Seq::<char>::empty());
            assert(text::joined(pieces, seq![separator]) =~= s);
        } else {
            assert(pieces.drop_last() =~= before.drop_last());
            assert(pieces.last() == before.last().push(s.last()));
            if before.len() == 1 {
                assert(pieces[0] =~= s);
            } else {
                assert(text::joined(pieces, seq![separator]) =~= s);
            }
        }
    }
}

/// One word is the only word of a text; what follows white space and holds none is one word more; and
/// white space at the end adds none.
pub proof fn words_follow_white_space(a: Seq<char>, blank: char, b: Seq<char>)
    requires
        text::white_space(blank),
        is_word(b),
    ensures
        text::words(b) == seq![b],
        text::words(a.push(blank)) == text::words(a),
        text::words(a.push(blank) + b) == text::words(a).push(b),
    decreases b.len(),
{
    let whole = a.push(blank) + b;
    assert(a.push(blank).drop_last() =~= a);
    let front = b.drop_last();
    assert(whole.drop_last() =~= a.push(blank) + front);
    assert(!text::white_space(b[b.len() - 1]));
    assert(whole.last() == b.last());
    if b.len() == 1 {
        assert(front =~= Seq::<char>::empty());
        assert(a.push(blank) + front =~= a.push(blank));
        assert(whole[whole.len() - 2] == blank);
        assert(seq![b.last()] =~= b);
        assert(text::words(front) =~= Seq::<Seq<char>>::empty());
        assert(text::words(b) =~= seq![b]);
    } else {
        assert forall|i: int| 0 <= i < front.len() implies !text::white_space(#[trigger] front[i]) by {
            assert(front[i] == b[i]);
        }
        words_follow_white_space(a, blank, front);
        assert(whole[whole.len() - 2] == front.last());
        assert(b[b.len() - 2] == front.last());
        assert(front[front.len() - 1] == front.last());
        let before = text::words(a.push(blank) + front);
        assert(before.drop_last() =~= text::words(a));
        assert(before.last() == front);
        assert(front.push(b.last()) =~= b);
        let single = text::words(front);
        assert(single.drop_last().push(single.last().push(b.last())) =~= seq![b]);
    }
}

/// A line is made of a text by setting one blank between its words and cutting it off: one more word
/// is added behind one blank, whatever white space stood before it, as long as the line is not too
/// long; and no line is longer than the limit.
pub proof fn lines_are_compact(a: Seq<char>, blank: char, b: Seq<char>, limit: nat)
    requires
        text::white_space(blank),
        is_word(b),
    ensures
        text::compacted(a, limit).len() <= limit,
        b.len() <= limit ==> text::compacted(b, limit) == b,
        b.len() > limit ==> text::compacted(b, limit) == b.take(limit as int),
        text::compacted(a.push(blank), limit) == text::compacted(a, limit),
        text::words(a).len() > 0 && text::compacted(a, limit).len() + 1 + b.len() <= limit
            ==> text::compacted(a.push(blank) + b, limit) == text::compacted(a, limit).push(' ') + b,
{
    words_follow_white_space(a, blank, b);
    let parts = text::words(a).push(b);
    assert(parts.drop_last() =~= text::words(a));
    assert(text::joined(seq![b], seq![' ']) == b);
    if text::words(a).len() > 0 {
        assert(text::joined(parts, seq![' ']) =~= text::joined(text::words(a), seq![' ']).push(' ')
            + b);
    }
}

/// A small letter is its capital one in upper case, and every other character is itself.
pub proof fn upper_case_is_of_letters(c: char)
    ensures
        'a' <= c && c <= 'z' ==> text::upper_char(c) == (c as u32 - 32) as char,
        !('a' <= c && c <= 'z') ==> text::upper_char(c) == c,
{
}

} // verus!
