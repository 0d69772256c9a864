use vstd::prelude::*;

verus! {

/// The natural order of two strings, in which a run of digits counts by its
/// value: negative where `left` sorts first, zero where neither does,
/// positive where `right` sorts first.
pub uninterp spec fn natural_order(left: Seq<char>, right: Seq<char>) -> int;

/// Calls `natord::compare`, which skips whitespace, compares runs of decimal
/// digits by value and every other character by code point. The contract
/// only names its answer: -1, 0 and 1 stand for less, equal and greater.
#[verifier::external_body]
pub(crate) fn compare_natural(left: &str, right: &str) -> (sign: i8)
    ensures
        sign == natural_order(left@, right@),
{
    match natord::compare(left, right) {
        std::cmp::Ordering::Less => -1,
        std::cmp::Ordering::Equal => 0,
        std::cmp::Ordering::Greater => 1,
    }
}

} // verus!
