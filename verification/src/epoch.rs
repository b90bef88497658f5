//! What the pool gathers while one challenge is being mined.

use crate::registry::{MapKey, Registry};
use vstd::prelude::*;

verus! {

/// The lowest difficulty that the pool accepts.
pub const MIN_DIFF: u32 = 12;

/// The hashpower of a solution of the lowest accepted difficulty.
pub const MIN_HASHPOWER: u64 = 80;

/// The highest hashpower that is credited, that of difficulty 24.
pub const MAX_CALCULATED_HASHPOWER: u64 = 327_680;

/// For how many days a reward has to be held to count as held long.
pub const DIAMOND_HANDS_DAYS: u64 = 7;

/// How many days an NFT distribution spans.
pub const NFT_DISTRIBUTION_DAYS: u64 = 7;

/// A solution of a challenge: a digest and the nonce it was found with.
#[derive(Clone, Copy, Debug, PartialEq, Eq)]
pub struct Solution {
    pub d: [u8; 16],
    pub n: [u8; 8],
}

impl Solution {
    /// A solution of the given digest and nonce.
    pub fn new(digest: [u8; 16], nonce: [u8; 8]) -> (res: Solution)
        ensures
            res.d == digest,
            res.n == nonce,
    {
        Solution { d: digest, n: nonce }
    }
}

/// The best solution of the current challenge so far.
pub struct BestHash {
    pub solution: Option<Solution>,
    pub difficulty: u32,
}

/// One miner's contribution to the current challenge.
#[derive(Clone, Copy, Debug, PartialEq, Eq)]
pub struct InternalMessageSubmission {
    pub miner_id: i32,
    pub supplied_diff: u32,
    pub supplied_nonce: u64,
    pub hashpower: u64,
    pub real_hashpower: u64,
}

/// The random identifier of a client connection, as a 128-bit number.
#[derive(Clone, Copy, Debug, PartialEq, Eq, Structural)]
pub struct ConnectionId {
    pub number: u128,
}

impl MapKey for ConnectionId {
    type Id = u128;

    open spec fn id(self) -> u128 {
        self.number
    }

    fn same_key(self, other: Self) -> (res: bool) {
        self.number == other.number
    }
}

/// What has been submitted for the current challenge.
pub struct EpochHashes {
    pub challenge: [u8; 32],
    pub best_hash: BestHash,
    pub submissions: Registry<ConnectionId, InternalMessageSubmission>,
}

impl EpochHashes {
    /// A challenge for which nothing has been submitted.
    pub fn new(challenge: [u8; 32]) -> (res: EpochHashes)
        ensures
            res.challenge == challenge,
            res.best_hash.solution is None,
            res.best_hash.difficulty == 0,
            res.submissions.wf(),
            res.submissions.map() == Map::<u128, InternalMessageSubmission>::empty(),
    {
        EpochHashes {
            challenge,
            best_hash: BestHash { solution: None, difficulty: 0 },
            submissions: Registry::new(),
        }
    }
}

} // verus!
