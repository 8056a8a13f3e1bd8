//! The short lists of the calling-convention engine, kept in
//! `smallvec::SmallVec` so that the common lengths need no allocation.
//!
//! Each list is known here by the sequence of its items.

use crate::abi::{ABIArgSlot, CallArgPair, CallRetPair, RetPair};
use smallvec::SmallVec;
use vstd::prelude::*;

verus! {

/// The slots of one argument. Nearly every value takes one slot.
#[verifier::external_body]
pub struct ABIArgSlotVec {
    inner: SmallVec<[ABIArgSlot; 1]>,
}

/// The slots that a list holds, in order.
pub uninterp spec fn slot_vec_items(list: ABIArgSlotVec) -> Seq<ABIArgSlot>;

/// `SmallVec::new`: an empty list.
#[verifier::external_body]
fn slot_vec_new() -> (list: ABIArgSlotVec)
    ensures
        slot_vec_items(list) == Seq::<ABIArgSlot>::empty(),
{
    ABIArgSlotVec { inner: SmallVec::new() }
}

/// `SmallVec::push`: the item is appended.
#[verifier::external_body]
fn slot_vec_push(list: &mut ABIArgSlotVec, slot: ABIArgSlot)
    ensures
        slot_vec_items(*final(list)) == slot_vec_items(*old(list)).push(slot),
{
    list.inner.push(slot)
}

/// `SmallVec::len`: the number of items.
#[verifier::external_body]
fn slot_vec_len(list: &ABIArgSlotVec) -> (n: usize)
    ensures
        n == slot_vec_items(*list).len(),
{
    list.inner.len()
}

/// Indexing a `SmallVec`: the item at position `i`.
#[verifier::external_body]
fn slot_vec_get(list: &ABIArgSlotVec, i: usize) -> (slot: ABIArgSlot)
    requires
        i < slot_vec_items(*list).len(),
    ensures
        slot == slot_vec_items(*list)[i as int],
{
    list.inner[i]
}

impl View for ABIArgSlotVec {
    type V = Seq<ABIArgSlot>;

    open spec fn view(&self) -> Seq<ABIArgSlot> {
        slot_vec_items(*self)
    }
}

impl ABIArgSlotVec {
    /// An empty list.
    pub fn new() -> (list: Self)
        ensures
            list@ == Seq::<ABIArgSlot>::empty(),
    {
        slot_vec_new()
    }

    /// A list of one slot.
    pub fn one(slot: ABIArgSlot) -> (list: Self)
        ensures
            list@ == seq![slot],
    {
        let mut list = slot_vec_new();
        slot_vec_push(&mut list, slot);
        list
    }

    /// Appends the slot.
    pub fn push(&mut self, slot: ABIArgSlot)
        ensures
            final(self)@ == old(self)@.push(slot),
    {
        slot_vec_push(self, slot)
    }

    /// The number of items.
    pub fn len(&self) -> (n: usize)
        ensures
            n == self@.len(),
    {
        slot_vec_len(self)
    }

    /// The item at position `i`.
    pub fn get(&self, i: usize) -> (slot: ABIArgSlot)
        requires
            i < self@.len(),
        ensures
            slot == self@[i as int],
    {
        slot_vec_get(self, i)
    }
}

impl Clone for ABIArgSlotVec {
    fn clone(&self) -> (list: Self)
        ensures
            list@ == self@,
    {
        let mut list = ABIArgSlotVec::new();
        let n = self.len();
        let mut i: usize = 0;
        while i < n
            invariant
                n == self@.len(),
                i <= n,
                list@ == self@.take(i as int),
            decreases n - i,
        {
            list.push(self.get(i));
            proof {
                assert(self@.take(i as int).push(self@[i as int]) =~= self@.take(i + 1));
            }
            i += 1;
        }
        proof {
            assert(self@.take(n as int) =~= self@);
        }
        list
    }
}

/// The register arguments of a call.
#[verifier::external_body]
pub struct CallArgList {
    inner: SmallVec<[CallArgPair; 8]>,
}

/// The pairs that a list holds, in order.
pub uninterp spec fn call_arg_list_items(list: CallArgList) -> Seq<CallArgPair>;

/// `SmallVec::new`: an empty list.
#[verifier::external_body]
fn call_arg_list_new() -> (list: CallArgList)
    ensures
        call_arg_list_items(list) == Seq::<CallArgPair>::empty(),
{
    CallArgList { inner: SmallVec::new() }
}

/// `SmallVec::push`: the item is appended.
#[verifier::external_body]
fn call_arg_list_push(list: &mut CallArgList, pair: CallArgPair)
    ensures
        call_arg_list_items(*final(list)) == call_arg_list_items(*old(list)).push(pair),
{
    list.inner.push(pair)
}

/// `SmallVec::len`: the number of items.
#[verifier::external_body]
fn call_arg_list_len(list: &CallArgList) -> (n: usize)
    ensures
        n == call_arg_list_items(*list).len(),
{
    list.inner.len()
}

/// Indexing a `SmallVec`: the item at position `i`.
#[verifier::external_body]
fn call_arg_list_get(list: &CallArgList, i: usize) -> (pair: CallArgPair)
    requires
        i < call_arg_list_items(*list).len(),
    ensures
        pair == call_arg_list_items(*list)[i as int],
{
    list.inner[i]
}

impl View for CallArgList {
    type V = Seq<CallArgPair>;

    open spec fn view(&self) -> Seq<CallArgPair> {
        call_arg_list_items(*self)
    }
}

impl CallArgList {
    /// An empty list.
    pub fn new() -> (list: Self)
        ensures
            list@ == Seq::<CallArgPair>::empty(),
    {
        call_arg_list_new()
    }

    /// Appends the pair.
    pub fn push(&mut self, pair: CallArgPair)
        ensures
            final(self)@ == old(self)@.push(pair),
    {
        call_arg_list_push(self, pair)
    }

    /// The number of items.
    pub fn len(&self) -> (n: usize)
        ensures
            n == self@.len(),
    {
        call_arg_list_len(self)
    }

    /// The item at position `i`.
    pub fn get(&self, i: usize) -> (pair: CallArgPair)
        requires
            i < self@.len(),
        ensures
            pair == self@[i as int],
    {
        call_arg_list_get(self, i)
    }
}

/// The return values of a call and where each arrives.
#[verifier::external_body]
pub struct CallRetList {
    inner: SmallVec<[CallRetPair; 8]>,
}

/// The pairs that a list holds, in order.
pub uninterp spec fn call_ret_list_items(list: CallRetList) -> Seq<CallRetPair>;

/// `SmallVec::new`: an empty list.
#[verifier::external_body]
fn call_ret_list_new() -> (list: CallRetList)
    ensures
        call_ret_list_items(list) == Seq::<CallRetPair>::empty(),
{
    CallRetList { inner: SmallVec::new() }
}

/// `SmallVec::push`: the item is appended.
#[verifier::external_body]
fn call_ret_list_push(list: &mut CallRetList, pair: CallRetPair)
    ensures
        call_ret_list_items(*final(list)) == call_ret_list_items(*old(list)).push(pair),
{
    list.inner.push(pair)
}

/// `SmallVec::len`: the number of items.
#[verifier::external_body]
fn call_ret_list_len(list: &CallRetList) -> (n: usize)
    ensures
        n == call_ret_list_items(*list).len(),
{
    list.inner.len()
}

/// Indexing a `SmallVec`: the item at position `i`.
#[verifier::external_body]
fn call_ret_list_get(list: &CallRetList, i: usize) -> (pair: CallRetPair)
    requires
        i < call_ret_list_items(*list).len(),
    ensures
        pair == call_ret_list_items(*list)[i as int],
{
    list.inner[i]
}

impl View for CallRetList {
    type V = Seq<CallRetPair>;

    open spec fn view(&self) -> Seq<CallRetPair> {
        call_ret_list_items(*self)
    }
}

impl CallRetList {
    /// An empty list.
    pub fn new() -> (list: Self)
        ensures
            list@ == Seq::<CallRetPair>::empty(),
    {
        call_ret_list_new()
    }

    /// Appends the pair.
    pub fn push(&mut self, pair: CallRetPair)
        ensures
            final(self)@ == old(self)@.push(pair),
    {
        call_ret_list_push(self, pair)
    }

    /// The number of items.
    pub fn len(&self) -> (n: usize)
        ensures
            n == self@.len(),
    {
        call_ret_list_len(self)
    }

    /// The item at position `i`.
    pub fn get(&self, i: usize) -> (pair: CallRetPair)
        requires
            i < self@.len(),
        ensures
            pair == self@[i as int],
    {
        call_ret_list_get(self, i)
    }
}

/// The register return values of a function, at most two in the common
/// case.
#[verifier::external_body]
pub struct RetPairList {
    inner: SmallVec<[RetPair; 2]>,
}

/// The pairs that a list holds, in order.
pub uninterp spec fn ret_pair_list_items(list: RetPairList) -> Seq<RetPair>;

/// `SmallVec::new`: an empty list.
#[verifier::external_body]
fn ret_pair_list_new() -> (list: RetPairList)
    ensures
        ret_pair_list_items(list) == Seq::<RetPair>::empty(),
{
    RetPairList { inner: SmallVec::new() }
}

/// `SmallVec::push`: the item is appended.
#[verifier::external_body]
fn ret_pair_list_push(list: &mut RetPairList, pair: RetPair)
    ensures
        ret_pair_list_items(*final(list)) == ret_pair_list_items(*old(list)).push(pair),
{
    list.inner.push(pair)
}

/// `SmallVec::len`: the number of items.
#[verifier::external_body]
fn ret_pair_list_len(list: &RetPairList) -> (n: usize)
    ensures
        n == ret_pair_list_items(*list).len(),
{
    list.inner.len()
}

/// Indexing a `SmallVec`: the item at position `i`.
#[verifier::external_body]
fn ret_pair_list_get(list: &RetPairList, i: usize) -> (pair: RetPair)
    requires
        i < ret_pair_list_items(*list).len(),
    ensures
        pair == ret_pair_list_items(*list)[i as int],
{
    list.inner[i]
}

impl View for RetPairList {
    type V = Seq<RetPair>;

    open spec fn view(&self) -> Seq<RetPair> {
        ret_pair_list_items(*self)
    }
}

impl RetPairList {
    /// An empty list.
    pub fn new() -> (list: Self)
        ensures
            list@ == Seq::<RetPair>::empty(),
    {
        ret_pair_list_new()
    }

    /// Appends the pair.
    pub fn push(&mut self, pair: RetPair)
        ensures
            final(self)@ == old(self)@.push(pair),
    {
        ret_pair_list_push(self, pair)
    }

    /// The number of items.
    pub fn len(&self) -> (n: usize)
        ensures
            n == self@.len(),
    {
        ret_pair_list_len(self)
    }

    /// The item at position `i`.
    pub fn get(&self, i: usize) -> (pair: RetPair)
        requires
            i < self@.len(),
        ensures
            pair == self@[i as int],
    {
        ret_pair_list_get(self, i)
    }
}

} // verus!
