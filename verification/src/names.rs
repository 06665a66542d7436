//! File names of descriptors: the extension that marks one, and the
//! identifier that the name gives it.
//!
//! A name here is the last component of a path, as a directory listing
//! gives it.

use vstd::prelude::*;
use vstd::string::StrSliceExecFns;

verus! {

/// The character that sets off the extension of a file name.
pub const DOT: char = '.';

/// The position of the last dot in `name`, or -1 where it holds none.
pub open spec fn last_dot(name: Seq<char>) -> int
    decreases name.len(),
{
    if name.len() == 0 {
        -1
    } else if name.last() == DOT {
        name.len() - 1
    } else {
        last_dot(name.drop_last())
    }
}

/// Whether `name` has an extension: it holds a dot that is not its first
/// character. A name such as `.hidden` has none.
pub open spec fn has_extension(name: Seq<char>) -> bool {
    last_dot(name) > 0
}

/// The extension of `name`: what follows its last dot.
pub open spec fn extension(name: Seq<char>) -> Option<Seq<char>> {
    if has_extension(name) {
        Some(name.skip(last_dot(name) + 1))
    } else {
        None
    }
}

/// The stem of `name`: what stands before the last dot, or all of `name`
/// where it has no extension.
pub open spec fn stem(name: Seq<char>) -> Seq<char> {
    if has_extension(name) {
        name.take(last_dot(name))
    } else {
        name
    }
}

/// The extension of descriptor files.
pub open spec fn descriptor_extension() -> Seq<char> {
    seq!['n', 'p', 'y']
}

/// Whether a file of this name holds a descriptor.
pub open spec fn is_descriptor_name(name: Seq<char>) -> bool {
    extension(name) == Some(descriptor_extension())
}

/// The position `p` at which `name` holds a dot and after which it holds
/// none is the position of its last dot; so is -1 where it holds none at all.
pub proof fn lemma_last_dot(name: Seq<char>, p: int)
    requires
        -1 <= p < name.len(),
        p >= 0 ==> name[p] == DOT,
        forall|k: int| p < k < name.len() ==> name[k] != DOT,
    ensures
        last_dot(name) == p,
    decreases name.len(),
{
    if name.len() > 0 && p < name.len() - 1 {
        lemma_last_dot(name.drop_last(), p);
    }
}

/// Finds the last dot of `name`: its position, or `None` where `name` holds
/// no dot.
pub fn find_last_dot(name: &str) -> (found: Option<usize>)
    ensures
        match found {
            Some(p) => p == last_dot(name@) && p < name@.len(),
            None => last_dot(name@) == -1,
        },
{
    let n = name.unicode_len();
    let mut i: usize = n;
    while i > 0 && name.get_char(i - 1) != DOT
        invariant
            i <= n,
            n == name@.len(),
            forall|k: int| i <= k < n ==> name@[k] != DOT,
        decreases i,
    {
        i = i - 1;
    }
    proof {
        lemma_last_dot(name@, i - 1);
    }
    if i > 0 {
        Some(i - 1)
    } else {
        None
    }
}

/// Whether a file of this name holds a descriptor: its extension is `npy`.
pub fn is_descriptor_file(name: &str) -> (eligible: bool)
    ensures
        eligible == is_descriptor_name(name@),
{
    let n = name.unicode_len();
    match find_last_dot(name) {
        Some(p) => {
            if p > 0 && n - p == 4 {
                let eligible = name.get_char(p + 1) == 'n' && name.get_char(p + 2) == 'p'
                    && name.get_char(p + 3) == 'y';
                proof {
                    let tail = name@.skip(p + 1);
                    assert(tail.len() == 3);
                    assert(tail[0] == name@[p + 1] && tail[1] == name@[p + 2] && tail[2] == name@[p
                        + 3]);
                    if eligible {
                        assert(tail =~= descriptor_extension());
                    }
                }
                eligible
            } else {
                proof {
                    if p > 0 {
                        assert(name@.skip(p + 1).len() != descriptor_extension().len());
                    }
                }
                false
            }
        },
        None => false,
    }
}

/// The identifier that a file name gives its descriptor: the name without
/// its extension.
pub fn identifier_of(name: &str) -> (id: String)
    ensures
        id@ == stem(name@),
{
    match find_last_dot(name) {
        Some(p) => {
            if p > 0 {
                name.substring_char(0, p).to_owned()
            } else {
                name.to_owned()
            }
        },
        None => name.to_owned(),
    }
}

} // verus!
