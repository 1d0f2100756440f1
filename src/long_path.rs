//! The wide-character form of a path handed to a long-path-safe directory
//! creation call: absolute paths get the `\\?\` prefix, which lifts the
//! classic length limit, and the form is terminated by a zero unit.
use vstd::prelude::*;

verus! {

/// The code unit of `\`.
pub const BACKSLASH: u16 = 92;

/// The code unit of `?`.
pub const QUESTION_MARK: u16 = 63;

/// The prefix `\\?\` as code units.
pub open spec fn long_prefix() -> Seq<u16> {
    seq![BACKSLASH, BACKSLASH, QUESTION_MARK, BACKSLASH]
}

/// The zero-terminated form of `path`, prefixed when it is absolute.
pub open spec fn long_form(path: Seq<u16>, absolute: bool) -> Seq<u16> {
    (if absolute {
        long_prefix()
    } else {
        Seq::empty()
    }) + path + seq![0u16]
}

/// Builds the zero-terminated, long-path-safe form of the wide path `path`.
/// Only absolute paths are prefixed: the prefix means nothing to a relative
/// one.
pub fn long_path_units(path: &Vec<u16>, absolute: bool) -> (r: Vec<u16>)
    ensures
        r@ == long_form(path@, absolute),
{
    let mut r: Vec<u16> = Vec::new();
    if absolute {
        r.push(BACKSLASH);
        r.push(BACKSLASH);
        r.push(QUESTION_MARK);
        r.push(BACKSLASH);
    }
    let base = r.len();
    let mut i: usize = 0;
    while i < path.len()
        invariant
            i <= path.len(),
            base == (if absolute {
                4nat
            } else {
                0nat
            }),
            r@.len() == base + i,
            r@.subrange(0, base as int) == (if absolute {
                long_prefix()
            } else {
                Seq::empty()
            }),
            forall|j: int| 0 <= j < i ==> r@[base + j] == path@[j],
        decreases path.len() - i,
    {
        r.push(path[i]);
        i += 1;
    }
    r.push(0);
    assert(r@ =~= long_form(path@, absolute));
    r
}

} // verus!
