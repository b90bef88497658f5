//! The claims that wait to be paid out.

use crate::pubkey::Pubkey;
use crate::registry::{MapKey, Registry};
use vstd::prelude::*;

verus! {

impl MapKey for Pubkey {
    type Id = Seq<u8>;

    open spec fn id(self) -> Seq<u8> {
        self@
    }

    fn same_key(self, other: Self) -> (res: bool) {
        self.same(&other)
    }
}

/// What one miner has claimed.
#[derive(Clone, Copy, Debug, PartialEq, Eq)]
pub struct ClaimsQueueItem {
    /// The wallet that is to be paid.
    pub receiver_pubkey: Pubkey,
    /// The amount that leaves the miner's balance.
    pub amount: u64,
}

/// A claim with the miner that made it.
#[derive(Clone, Copy, Debug, PartialEq, Eq)]
pub struct Claim {
    pub miner: Pubkey,
    pub item: ClaimsQueueItem,
}

/// The claims that wait, at most one of each miner. Its view is the map from the miners' keys to
/// what they claimed.
pub struct ClaimsQueue {
    pub queue: Registry<Pubkey, ClaimsQueueItem>,
}

impl View for ClaimsQueue {
    type V = Map<Seq<u8>, ClaimsQueueItem>;

    open spec fn view(&self) -> Map<Seq<u8>, ClaimsQueueItem> {
        self.queue.map()
    }
}

impl ClaimsQueue {
    /// No miner waits twice.
    pub open spec fn wf(self) -> bool {
        self.queue.wf()
    }

    /// A queue in which nobody waits.
    pub fn new() -> (res: ClaimsQueue)
        ensures
            res.wf(),
            res@ == Map::<Seq<u8>, ClaimsQueueItem>::empty(),
    {
        ClaimsQueue { queue: Registry::new() }
    }

    /// Whether the miner waits.
    pub fn contains_key(&self, miner: &Pubkey) -> (res: bool)
        requires
            self.wf(),
        ensures
            res == self@.dom().contains(miner@),
    {
        self.queue.contains_key(*miner)
    }

    /// What the miner has claimed, if it waits.
    pub fn get(&self, miner: &Pubkey) -> (res: Option<ClaimsQueueItem>)
        requires
            self.wf(),
        ensures
            res == (if self@.dom().contains(miner@) {
                Some(self@[miner@])
            } else {
                None
            }),
    {
        self.queue.get(*miner)
    }

    /// Lets the miner wait with the claim, in place of any claim that it waited with.
    pub fn insert(&mut self, miner: Pubkey, item: ClaimsQueueItem)
        requires
            old(self).wf(),
        ensures
            final(self).wf(),
            final(self)@ == old(self)@.insert(miner@, item),
    {
        self.queue.insert(miner, item);
    }

    /// Lets the miner wait no longer.
    pub fn remove(&mut self, miner: &Pubkey)
        requires
            old(self).wf(),
        ensures
            final(self).wf(),
            final(self)@ == old(self)@.remove(miner@),
    {
        self.queue.remove(*miner);
    }

    /// Some claim that waits, if any does. Which one is left open.
    pub fn next_claim(&self) -> (res: Option<Claim>)
        requires
            self.wf(),
        ensures
            res is None <==> self@ == Map::<Seq<u8>, ClaimsQueueItem>::empty(),
            res matches Some(claim) ==> self@.dom().contains(claim.miner@)
                && self@[claim.miner@] == claim.item,
    {
        match self.queue.any() {
            Some((miner, item)) => Some(Claim { miner, item }),
            None => None,
        }
    }
}

} // verus!
