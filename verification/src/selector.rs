//! The four-byte code at the front of the call data.

use vstd::prelude::*;

verus! {

/// The length of a selector.
pub const SELECTOR_LENGTH: usize = 4;

/// Whether the data begins with the four bytes of a selector. The match is
/// byte for byte: there are no prefixes and no wildcards.
pub open spec fn has_selector(data: Seq<u8>, selector: [u8; 4]) -> bool {
    data.len() >= 4 && data[0] == selector[0] && data[1] == selector[1] && data[2] == selector[2]
        && data[3] == selector[3]
}

/// Tells whether the data begins with the selector.
pub fn starts_with(data: &[u8], selector: [u8; 4]) -> (r: bool)
    ensures
        r == has_selector(data@, selector),
{
    data.len() >= SELECTOR_LENGTH && data[0] == selector[0] && data[1] == selector[1] && data[2]
        == selector[2] && data[3] == selector[3]
}

/// The bytes after the selector, where the data holds one.
pub fn arguments_of(data: &[u8]) -> (rest: &[u8])
    requires
        data@.len() >= 4,
    ensures
        rest@ == data@.skip(4),
{
    let rest = vstd::slice::slice_subrange(data, SELECTOR_LENGTH, data.len());
    assert(rest@ =~= data@.skip(4));
    rest
}

} // verus!
