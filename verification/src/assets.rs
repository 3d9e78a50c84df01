//! The names of model assets. The file stem of an asset gives the name of
//! the model and, in round brackets behind an underscore, the scale at which
//! the model is shown: `teapot_(0.5)`.

use vstd::prelude::*;

verus! {

pub const UNDERSCORE: u8 = 95;

pub const OPENING: u8 = 40;

pub const CLOSING: u8 = 41;

pub const NEWLINE: u8 = 10;

/// At `at` stands an underscore, behind it an opening bracket, and behind
/// that at least the last byte of the stem is left.
pub open spec fn is_separator(stem: Seq<u8>, at: int) -> bool {
    &&& 0 <= at
    &&& at + 3 <= stem.len()
    &&& stem[at] == UNDERSCORE
    &&& stem[at + 1] == OPENING
}

/// The stem is a single line that ends with a closing bracket.
pub open spec fn is_bracketed(stem: Seq<u8>) -> bool {
    &&& stem.len() > 0
    &&& stem.last() == CLOSING
    &&& forall|i: int| 0 <= i < stem.len() ==> #[trigger] stem[i] != NEWLINE
}

/// `at` is where the stem falls into name and scale: the last separator of
/// a bracketed stem. The name is what stands before `at`, the scale what
/// stands between the opening bracket and the last byte.
pub open spec fn splits_at(stem: Seq<u8>, at: int) -> bool {
    &&& is_bracketed(stem)
    &&& is_separator(stem, at)
    &&& forall|later: int| at < later ==> !is_separator(stem, later)
}

/// The name of the model in a stem that falls apart at `at`.
pub open spec fn name_of(stem: Seq<u8>, at: int) -> Seq<u8> {
    stem.subrange(0, at)
}

/// The text of the scale in a stem that falls apart at `at`.
pub open spec fn scale_of(stem: Seq<u8>, at: int) -> Seq<u8> {
    stem.subrange(at + 2, stem.len() - 1)
}

/// A stem falls apart in at most one place.
pub proof fn lemma_split_unique(stem: Seq<u8>, first: int, second: int)
    requires
        splits_at(stem, first),
        splits_at(stem, second),
    ensures
        first == second,
{
}

/// A stem that falls apart is its name, the separator, its scale and the
/// closing bracket, one after the other.
pub proof fn lemma_split_rejoins(stem: Seq<u8>, at: int)
    requires
        splits_at(stem, at),
    ensures
        stem == name_of(stem, at) + seq![UNDERSCORE, OPENING] + scale_of(stem, at) + seq![CLOSING],
{
    assert(stem =~= name_of(stem, at) + seq![UNDERSCORE, OPENING] + scale_of(stem, at)
        + seq![CLOSING]);
}

/// Finds where a stem falls into name and scale, if it does.
pub fn split_stem(stem: &[u8]) -> (found: Option<usize>)
    ensures
        match found {
            Some(at) => splits_at(stem@, at as int),
            None => forall|at: int| !splits_at(stem@, at),
        },
{
    let len = stem.len();
    if len < 3 || stem[len - 1] != CLOSING {
        return None;
    }
    let mut checked: usize = 0;
    while checked < len
        invariant
            checked <= len == stem@.len(),
            forall|i: int| 0 <= i < checked ==> #[trigger] stem@[i] != NEWLINE,
        decreases len - checked,
    {
        if stem[checked] == NEWLINE {
            return None;
        }
        checked = checked + 1;
    }
    let mut at: usize = len - 2;
    while at > 0
        invariant
            at <= len - 2,
            len == stem@.len(),
            len >= 3,
            is_bracketed(stem@),
            forall|later: int| at <= later ==> !is_separator(stem@, later),
        decreases at,
    {
        at = at - 1;
        if stem[at] == UNDERSCORE && stem[at + 1] == OPENING {
            return Some(at);
        }
    }
    None
}

} // verus!
