//! Subjects: the part of an identifier before its first delimiter.

use vstd::prelude::*;
use vstd::string::StrSliceExecFns;

verus! {

/// The character that ends the subject in an identifier.
pub const DELIMITER: char = '_';

/// The position of the first delimiter in `id`, or the length of `id` where
/// it holds none.
pub open spec fn delimiter_position(id: Seq<char>) -> int
    decreases id.len(),
{
    if id.len() == 0 || id[0] == DELIMITER {
        0
    } else {
        1 + delimiter_position(id.drop_first())
    }
}

/// The subject of an identifier: what stands before its first delimiter, or
/// all of it where it holds none.
pub open spec fn subject(id: Seq<char>) -> Seq<char> {
    id.take(delimiter_position(id))
}

/// The position `p` before which `id` holds no delimiter, and at which it
/// ends or holds one, is the position of its first delimiter.
pub proof fn lemma_delimiter_position(id: Seq<char>, p: int)
    requires
        0 <= p <= id.len(),
        forall|k: int| 0 <= k < p ==> id[k] != DELIMITER,
        p < id.len() ==> id[p] == DELIMITER,
    ensures
        delimiter_position(id) == p,
    decreases p,
{
    if p > 0 {
        let rest = id.drop_first();
        assert forall|k: int| 0 <= k < p - 1 implies rest[k] != DELIMITER by {
            assert(rest[k] == id[k + 1]);
        }
        lemma_delimiter_position(rest, p - 1);
    }
}

/// The length of the subject of `id`, in characters.
pub fn subject_len(id: &str) -> (p: usize)
    ensures
        p == delimiter_position(id@),
{
    let n = id.unicode_len();
    let mut i: usize = 0;
    while i < n && id.get_char(i) != DELIMITER
        invariant
            i <= n,
            n == id@.len(),
            forall|k: int| 0 <= k < i ==> id@[k] != DELIMITER,
        decreases n - i,
    {
        i = i + 1;
    }
    proof {
        lemma_delimiter_position(id@, i as int);
    }
    i
}

/// The subject of an identifier.
pub fn subject_of(id: &str) -> (s: String)
    ensures
        s@ == subject(id@),
{
    let p = subject_len(id);
    proof {
        lemma_position_in_range(id@);
    }
    id.substring_char(0, p).to_owned()
}

/// The position of the first delimiter lies within the identifier.
pub proof fn lemma_position_in_range(id: Seq<char>)
    ensures
        0 <= delimiter_position(id) <= id.len(),
    decreases id.len(),
{
    if id.len() > 0 && id[0] != DELIMITER {
        lemma_position_in_range(id.drop_first());
    }
}

/// Whether two identifiers name one subject: the ground truth of a pair.
pub fn same_subject(a: &str, b: &str) -> (same: bool)
    ensures
        same == (subject(a@) == subject(b@)),
{
    let subject_a = subject_of(a);
    let subject_b = subject_of(b);
    subject_a == subject_b
}

} // verus!
