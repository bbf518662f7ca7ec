//! Character-counting helpers over character sequences, shared by the
//! identifier parser and the tree renderer.

use vstd::prelude::*;

verus! {

/// How many times the character `c` occurs in `s`.
pub open spec fn count_char(s: Seq<char>, c: char) -> nat
    decreases s.len(),
{
    if s.len() == 0 {
        0
    } else {
        count_char(s.drop_last(), c) + (if s.last() == c {
            1nat
        } else {
            0nat
        })
    }
}

/// Occurrence counts add up over concatenation.
pub proof fn lemma_count_char_append(a: Seq<char>, b: Seq<char>, c: char)
    ensures
        count_char(a + b, c) == count_char(a, c) + count_char(b, c),
    decreases b.len(),
{
    if b.len() == 0 {
        assert(a + b =~= a);
    } else {
        lemma_count_char_append(a, b.drop_last(), c);
        assert((a + b).drop_last() =~= a + b.drop_last());
        assert((a + b).last() == b.last());
    }
}

/// A character occurs zero times exactly when the sequence does not
/// contain it.
pub proof fn lemma_count_char_zero(s: Seq<char>, c: char)
    ensures
        count_char(s, c) == 0 <==> !s.contains(c),
    decreases s.len(),
{
    if s.len() == 0 {
    } else {
        lemma_count_char_zero(s.drop_last(), c);
        if s.contains(c) {
            let i = choose|i: int| 0 <= i < s.len() && s[i] == c;
            if i < s.len() - 1 {
                assert(s.drop_last()[i] == c);
                assert(s.drop_last().contains(c));
            }
            assert(count_char(s, c) > 0);
        } else {
            assert(!s.drop_last().contains(c)) by {
                if s.drop_last().contains(c) {
                    let i = choose|i: int| 0 <= i < s.drop_last().len() && s.drop_last()[i] == c;
                    assert(s[i] == c);
                }
            }
            assert(s.last() != c) by {
                if s.last() == c {
                    assert(s[s.len() - 1] == c);
                }
            }
        }
    }
}

} // verus!
