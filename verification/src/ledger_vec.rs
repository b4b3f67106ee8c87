//! The Soroban host vectors that hold checkpoint histories and vote ledgers.
//!
//! A `soroban_sdk::Vec` is a handle on a vector that lives in the Soroban host.
//! Its contents are named by [`checkpoint_list`] (for `Vec<u128>`) and
//! [`ledger_list`] (for `Vec<u32>`); each wrapper below states what the SDK call
//! does to that content. Every call goes through the host, whose resource
//! metering may abort the transaction; nothing here speaks of that.
use vstd::prelude::*;

verus! {

#[verifier::external_type_specification]
#[verifier::external_body]
#[verifier::reject_recursive_types(T)]
pub struct ExSorobanVec<T>(soroban_sdk::Vec<T>);

#[verifier::external_type_specification]
#[verifier::external_body]
pub struct ExSorobanAddress(soroban_sdk::Address);

/// The items of a host vector of checkpoints, front to back.
pub uninterp spec fn checkpoint_list(v: soroban_sdk::Vec<u128>) -> Seq<u128>;

/// The items of a host vector of ledger sequence numbers, front to back.
pub uninterp spec fn ledger_list(v: soroban_sdk::Vec<u32>) -> Seq<u32>;

/// Every item is at most the ones after it.
pub open spec fn sorted_ledgers(s: Seq<u32>) -> bool {
    forall|i: int, j: int| 0 <= i <= j < s.len() ==> s[i] <= s[j]
}

/// Every item is below the ones after it.
pub open spec fn strictly_sorted_ledgers(s: Seq<u32>) -> bool {
    forall|i: int, j: int| 0 <= i < j < s.len() ==> s[i] < s[j]
}

/// Every item is at most the ones after it.
pub open spec fn sorted_u128(s: Seq<u128>) -> bool {
    forall|i: int, j: int| 0 <= i <= j < s.len() ==> s[i] <= s[j]
}

/// `Vec::<u128>::len`: the number of items.
#[verifier::external_body]
pub(crate) fn checkpoints_len(v: &soroban_sdk::Vec<u128>) -> (r: u32)
    ensures
        r == checkpoint_list(*v).len(),
{
    v.len()
}

/// `Vec::<u128>::get_unchecked`: the item at `i`; the SDK panics when `i` is out of bounds.
#[verifier::external_body]
pub(crate) fn checkpoints_get(v: &soroban_sdk::Vec<u128>, i: u32) -> (r: u128)
    requires
        i < checkpoint_list(*v).len(),
    ensures
        r == checkpoint_list(*v)[i as int],
{
    v.get_unchecked(i)
}

/// `Vec::<u128>::push_back`: appends `x`.
#[verifier::external_body]
pub(crate) fn checkpoints_push(v: &mut soroban_sdk::Vec<u128>, x: u128)
    requires
        checkpoint_list(*old(v)).len() < u32::MAX,
    ensures
        checkpoint_list(*final(v)) == checkpoint_list(*old(v)).push(x),
{
    v.push_back(x)
}

/// `Vec::<u128>::pop_back` on a non-empty vector: removes the last item.
#[verifier::external_body]
pub(crate) fn checkpoints_pop(v: &mut soroban_sdk::Vec<u128>)
    requires
        checkpoint_list(*old(v)).len() > 0,
    ensures
        checkpoint_list(*final(v)) == checkpoint_list(*old(v)).drop_last(),
{
    v.pop_back();
}

/// `Vec::<u128>::slice(start..end)`: a new vector of the items from `start` up to
/// (not including) `end`; the host refuses a range that is out of bounds.
#[verifier::external_body]
pub(crate) fn checkpoints_slice(v: &soroban_sdk::Vec<u128>, start: u32, end: u32) -> (r: soroban_sdk::Vec<u128>)
    requires
        start <= end <= checkpoint_list(*v).len(),
    ensures
        checkpoint_list(r) == checkpoint_list(*v).subrange(start as int, end as int),
{
    v.slice(start..end)
}

/// `Vec::<u128>::binary_search`: on a sorted vector, `Ok` with the index of an item
/// equal to `x`, or `Err` with the index at which `x` could be inserted to keep the
/// vector sorted (std's `binary_search_by`, which the host runs). Of an unsorted
/// vector nothing is said: the result is unspecified there.
#[verifier::external_body]
pub(crate) fn checkpoints_search(v: &soroban_sdk::Vec<u128>, x: u128) -> (r: Result<u32, u32>)
    ensures
        sorted_u128(checkpoint_list(*v)) ==> match r {
            Ok(i) => i < checkpoint_list(*v).len() && checkpoint_list(*v)[i as int] == x,
            Err(i) => {
                &&& i <= checkpoint_list(*v).len()
                &&& forall|j: int| 0 <= j < i ==> checkpoint_list(*v)[j] < x
                &&& forall|j: int| i <= j < checkpoint_list(*v).len() ==> checkpoint_list(*v)[j] > x
            },
        },
{
    v.binary_search(x)
}

/// `Vec::<u32>::len`: the number of items.
#[verifier::external_body]
pub(crate) fn ledgers_len(v: &soroban_sdk::Vec<u32>) -> (r: u32)
    ensures
        r == ledger_list(*v).len(),
{
    v.len()
}

/// `Vec::<u32>::get_unchecked`: the item at `i`; the SDK panics when `i` is out of bounds.
#[verifier::external_body]
pub(crate) fn ledgers_get(v: &soroban_sdk::Vec<u32>, i: u32) -> (r: u32)
    requires
        i < ledger_list(*v).len(),
    ensures
        r == ledger_list(*v)[i as int],
{
    v.get_unchecked(i)
}

/// `Vec::<u32>::push_back`: appends `x`.
#[verifier::external_body]
pub(crate) fn ledgers_push(v: &mut soroban_sdk::Vec<u32>, x: u32)
    requires
        ledger_list(*old(v)).len() < u32::MAX,
    ensures
        ledger_list(*final(v)) == ledger_list(*old(v)).push(x),
{
    v.push_back(x)
}

/// `Vec::<u32>::slice(start..end)`: a new vector of the items from `start` up to
/// (not including) `end`; the host refuses a range that is out of bounds.
#[verifier::external_body]
pub(crate) fn ledgers_slice(v: &soroban_sdk::Vec<u32>, start: u32, end: u32) -> (r: soroban_sdk::Vec<u32>)
    requires
        start <= end <= ledger_list(*v).len(),
    ensures
        ledger_list(r) == ledger_list(*v).subrange(start as int, end as int),
{
    v.slice(start..end)
}

/// `Vec::<u32>::binary_search`: on a sorted vector, `Ok` with the index of an item
/// equal to `x`, or `Err` with the index at which `x` could be inserted to keep the
/// vector sorted (std's `binary_search_by`, which the host runs). Of an unsorted
/// vector nothing is said: the result is unspecified there.
#[verifier::external_body]
pub(crate) fn ledgers_search(v: &soroban_sdk::Vec<u32>, x: u32) -> (r: Result<u32, u32>)
    ensures
        sorted_ledgers(ledger_list(*v)) ==> match r {
            Ok(i) => i < ledger_list(*v).len() && ledger_list(*v)[i as int] == x,
            Err(i) => {
                &&& i <= ledger_list(*v).len()
                &&& forall|j: int| 0 <= j < i ==> ledger_list(*v)[j] < x
                &&& forall|j: int| i <= j < ledger_list(*v).len() ==> ledger_list(*v)[j] > x
            },
        },
{
    v.binary_search(x)
}

} // verus!
