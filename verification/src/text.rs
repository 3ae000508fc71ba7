//! Shared text and the comparison of texts.

use std::sync::Arc;
use vstd::prelude::*;
use vstd::utf8::*;

verus! {

/// Calls std's `Arc::<str>::from(&str)`: the result holds the same characters.
#[verifier::external_body]
pub(crate) fn shared(text: &str) -> (result: Arc<str>)
    ensures
        result@ == text@,
{
    Arc::from(text)
}

/// Calls std's `<Arc<str> as Clone>::clone`: another pointer to the same text.
#[verifier::external_body]
pub(crate) fn share(text: &Arc<str>) -> (result: Arc<str>)
    ensures
        result == *text,
{
    Arc::clone(text)
}

/// The characters of an optional text.
pub open spec fn opt_text(text: Option<Arc<str>>) -> Option<Seq<char>> {
    match text {
        Some(t) => Some(t@),
        None => None,
    }
}

/// Another pointer to the same text, where there is one.
pub(crate) fn share_opt(text: &Option<Arc<str>>) -> (result: Option<Arc<str>>)
    ensures
        result == *text,
{
    match text {
        Some(t) => Some(share(t)),
        None => None,
    }
}

/// Whether two texts hold the same characters.
pub fn same_text(a: &str, b: &str) -> (same: bool)
    ensures
        same == (a@ == b@),
{
    let left = a.as_bytes();
    let right = b.as_bytes();
    proof {
        encode_utf8_decode_utf8(a@);
        encode_utf8_decode_utf8(b@);
    }
    if left.len() != right.len() {
        return false;
    }
    let mut i: usize = 0;
    while i < left.len()
        invariant
            left@ == encode_utf8(a@),
            right@ == encode_utf8(b@),
            left@.len() == right@.len(),
            i <= left@.len(),
            forall|j: int| 0 <= j < i ==> left@[j] == right@[j],
        decreases left@.len() - i,
    {
        if left[i] != right[i] {
            return false;
        }
        i = i + 1;
    }
    assert(left@ =~= right@);
    true
}

} // verus!
