//! Pays the claims that wait, one after another.
//!
//! The system alternates between requests to the chain, requests to the database and pauses. Each
//! state says what is to be done next and how long to pause before that; each event says what came
//! of it.

use crate::bitz_utils::{get_bitz_mint, try_get_claim_ix, try_receiver_token_account};
use crate::instruction::Instruction;
use crate::onchain::{
    create_associated_token_account, new_with_payer, set_compute_unit_price, token_program_id,
};
use crate::pubkey::Pubkey;
use crate::queue::{Claim, ClaimsQueue, ClaimsQueueItem};
use crate::signature::Signature;
use vstd::prelude::*;

verus! {

use crate::bitz_utils::receiver_account;
use crate::instruction::InstructionView;
use crate::instruction::{signing, writable};
use crate::onchain::{
    associated_token_id, at, claim_instruction, compute_unit_price_instruction,
    create_account_instruction, eore_id, fits_message, mint_account, proof_account, token_account,
    transaction_message,
};
use vstd::bytes::{spec_u64_from_le_bytes, spec_u64_to_le_bytes};

/// What is kept of a claim for making a token account: 0.02 BITZ.
pub const ACCOUNT_FEE: u64 = 2_000_000_000;

/// The price of a compute unit that a claim transaction offers.
pub const PRIORITY_FEE: u32 = 0;

/// How often a transaction is sent before it is given up.
pub const MAX_ATTEMPTS: u32 = 5;

/// After how many seconds a transaction that was sent counts as expired.
pub const EXPIRY_SECONDS: u64 = 120;

/// The pause after a failed request, in milliseconds.
pub const RETRY_MILLIS: u64 = 2_000;

/// The pause between two looks at the status of a transaction, in milliseconds.
pub const POLL_MILLIS: u64 = 500;

/// The pause between two claims, in milliseconds.
pub const REST_MILLIS: u64 = 10_000;

/// What the balance of a token account was said to be.
#[derive(Clone, Copy, Debug, PartialEq, Eq, Structural)]
pub enum TokenBalance {
    /// The balance could not be fetched.
    Failed,
    /// A balance was fetched that names no amount.
    NoAmount,
    /// A balance was fetched that names an amount.
    Amount,
}

/// What the chain says of a transaction.
#[derive(Clone, Copy, Debug, PartialEq, Eq, Structural)]
pub enum TransactionStatus {
    /// Nothing, or that it is not finalized yet.
    Pending,
    /// It is finalized and failed.
    Failed,
    /// It is finalized and succeeded.
    Succeeded,
}

/// How a claim is paid.
#[derive(Clone, Copy, Debug, PartialEq, Eq)]
pub struct Order {
    /// The claim.
    pub claim: Claim,
    /// Whether the receiver's token account has to be made.
    pub creating: bool,
}

impl Order {
    /// Whether the claim covers the account that has to be made for it.
    pub open spec fn covered(self) -> bool {
        self.creating ==> self.claim.item.amount >= ACCOUNT_FEE
    }

    /// What is paid out: the amount, less the fee where an account has to be made.
    pub open spec fn paid(self) -> int {
        if self.creating {
            self.claim.item.amount - ACCOUNT_FEE
        } else {
            self.claim.item.amount as int
        }
    }

    /// What is paid out.
    pub fn paid_amount(&self) -> (res: u64)
        requires
            self.covered(),
        ensures
            res == self.paid(),
    {
        if self.creating {
            self.claim.item.amount - ACCOUNT_FEE
        } else {
            self.claim.item.amount
        }
    }

    /// The instructions that pay the claim from the account of `wallet`: a price of zero, the
    /// making of the token account where it is missing, and the payment where any is left to pay.
    pub open spec fn instruction_list(self, wallet: Seq<u8>) -> Seq<InstructionView> {
        let receiver = self.claim.item.receiver_pubkey@;
        seq![compute_unit_price_instruction(PRIORITY_FEE as u64)] + (if self.creating {
            seq![create_account_instruction(wallet, receiver, at(mint_account()))]
        } else {
            Seq::<InstructionView>::empty()
        }) + (if self.paid() > 0 {
            seq![claim_instruction(wallet, at(receiver_account(receiver)), self.paid() as u64)]
        } else {
            Seq::<InstructionView>::empty()
        })
    }

    /// The instructions that pay the claim from the account of `wallet`, if the accounts that they
    /// name have addresses.
    pub fn instructions(&self, wallet: &Pubkey) -> (res: Option<Vec<Instruction>>)
        requires
            self.covered(),
        ensures
            res is Some <==> receiver_account(self.claim.item.receiver_pubkey@) is Some && (
            self.paid() > 0 ==> proof_account(wallet@) is Some),
            res matches Some(ixs) ==> ixs@.map_values(|ix: Instruction| ix@)
                == self.instruction_list(wallet@),
    {
        let receiver = self.claim.item.receiver_pubkey;
        match try_receiver_token_account(&receiver) {
            Some(account) => {
                let mut ixs: Vec<Instruction> = Vec::new();
                ixs.push(set_compute_unit_price(PRIORITY_FEE as u64));
                if self.creating {
                    let mint = get_bitz_mint();
                    let token = token_program_id();
                    ixs.push(create_associated_token_account(wallet, &receiver, &mint, &token));
                }
                let paid: u64 = self.paid_amount();
                if paid > 0 {
                    match try_get_claim_ix(*wallet, account, paid) {
                        Some(ix) => {
                            ixs.push(ix);
                        },
                        None => {
                            return None;
                        },
                    }
                }
                assert(ixs@.map_values(|ix: Instruction| ix@) =~= self.instruction_list(wallet@));
                Some(ixs)
            },
            None => None,
        }
    }

    /// What `wallet` has to sign to pay the claim under a blockhash: a transaction of the
    /// instructions, paid by `wallet`. `None` where an account that they name has no address.
    pub fn message(&self, wallet: &Pubkey, blockhash: &[u8; 32]) -> (res: Option<Vec<u8>>)
        requires
            self.covered(),
        ensures
            res is Some <==> receiver_account(self.claim.item.receiver_pubkey@) is Some && (
            self.paid() > 0 ==> proof_account(wallet@) is Some),
            res matches Some(bytes) ==> bytes@ == transaction_message(
                self.instruction_list(wallet@),
                wallet@,
                blockhash@,
            ),
    {
        match self.instructions(wallet) {
            Some(ixs) => {
                proof {
                    self.lemma_fits(wallet@);
                }
                Some(new_with_payer(&ixs, wallet, blockhash))
            },
            None => None,
        }
    }

    proof fn lemma_fits(self, wallet: Seq<u8>)
        ensures
            fits_message(self.instruction_list(wallet)),
    {
        vstd::bytes::lemma_auto_spec_u64_to_from_le_bytes();
    }
}

/// A payment that the chain has confirmed and that goes into the books.
#[derive(Clone, Copy, Debug, PartialEq, Eq)]
pub struct Payment {
    pub order: Order,
    pub signature: Signature,
    pub miner_id: i32,
    pub pool_id: i32,
}

/// By how much the reward of a miner is to be decreased.
#[derive(Clone, Copy, Debug, PartialEq, Eq, Structural)]
pub struct UpdateReward {
    pub miner_id: i32,
    pub balance: u64,
}

/// A transaction that goes into the books.
#[derive(Debug, PartialEq, Eq)]
pub struct InsertTxn {
    pub txn_type: String,
    pub signature: String,
    pub priority_fee: u32,
}

/// A paid claim that goes into the books.
#[derive(Clone, Copy, Debug, PartialEq, Eq, Structural)]
pub struct InsertClaim {
    pub miner_id: i32,
    pub pool_id: i32,
    pub txn_id: i32,
    pub amount: u64,
}

impl Payment {
    /// The amount that is booked: what the miner claimed, whatever of it was paid out.
    pub open spec fn amount(self) -> u64 {
        self.order.claim.item.amount
    }

    /// By how much the miner's reward is to be decreased.
    pub fn update_reward(&self) -> (res: UpdateReward)
        ensures
            res.miner_id == self.miner_id,
            res.balance == self.amount(),
            res.balance == self.order.claim.item.amount,
    {
        UpdateReward { miner_id: self.miner_id, balance: self.order.claim.item.amount }
    }

    /// By how much the pool's claimed total is to be increased.
    pub fn claimed_amount(&self) -> (res: u64)
        ensures
            res == self.amount(),
            res == self.order.claim.item.amount,
    {
        self.order.claim.item.amount
    }

    /// The transaction that is booked.
    pub fn insert_txn(&self) -> (res: InsertTxn)
        ensures
            res.txn_type@ == "claim"@,
            res.signature@ == crate::signature::text_of_signature(self.signature@),
            res.priority_fee == PRIORITY_FEE,
    {
        InsertTxn {
            txn_type: "claim".to_owned(),
            signature: self.signature.text(),
            priority_fee: PRIORITY_FEE,
        }
    }

    /// The claim that is booked, under the number of its transaction.
    pub fn insert_claim(&self, txn_id: i32) -> (res: InsertClaim)
        ensures
            res.miner_id == self.miner_id,
            res.pool_id == self.pool_id,
            res.txn_id == txn_id,
            res.amount == self.amount(),
            res.amount == self.order.claim.item.amount,
    {
        InsertClaim {
            miner_id: self.miner_id,
            pool_id: self.pool_id,
            txn_id,
            amount: self.order.claim.item.amount,
        }
    }
}

/// What is to be done next.
#[derive(Clone, Copy, Debug, PartialEq, Eq)]
pub enum Stage {
    /// Pick a claim that waits.
    Idle,
    /// Ask for the balance of the receiver's token account.
    Probe { claim: Claim },
    /// Fetch the latest blockhash, and start the timer once it is there.
    Blockhash { order: Order },
    /// Send the signed transaction.
    Send { order: Order, attempts: u32 },
    /// Read the timer.
    CheckTimer { order: Order, signature: Signature },
    /// Ask for the status of the transaction.
    PollStatus { order: Order, signature: Signature },
    /// Look the miner up.
    FindMiner { order: Order, signature: Signature },
    /// Look the pool up.
    FindPool { order: Order, signature: Signature, miner_id: i32 },
    /// Decrease the miner's reward.
    DecreaseReward { payment: Payment },
    /// Increase the pool's claimed total.
    UpdatePool { payment: Payment },
    /// Book the transaction.
    AddTxn { payment: Payment },
    /// Look the booked transaction up.
    FindTxn { payment: Payment },
    /// Book the claim.
    AddClaim { payment: Payment, txn_id: i32 },
    /// Take the miner's claim out of the queue, then pause where `rest` says so.
    Dequeue { miner: Pubkey, rest: bool },
    /// Nothing: a lookup failed that has to succeed, and the system is at its end.
    Stopped,
}

/// What came of what was to be done.
#[derive(Clone, Copy, Debug, PartialEq, Eq)]
pub enum Event {
    /// The claim that was picked, if any waits.
    Picked(Option<Claim>),
    /// What the balance was said to be.
    Account(TokenBalance),
    /// Whether the blockhash came.
    Blockhash(bool),
    /// The signature under which the transaction was taken, if it was.
    Sent(Option<Signature>),
    /// How many seconds the timer has run.
    Elapsed(u64),
    /// What the chain says of the transaction.
    Status(TransactionStatus),
    /// The number of the miner, if it was found.
    Miner(Option<i32>),
    /// The number of the pool, if it was found.
    Pool(Option<i32>),
    /// Whether the books took an entry.
    Stored(bool),
    /// The number of the booked transaction, if it was found.
    Txn(Option<i32>),
    /// The claim is out of the queue.
    Dequeued,
}

/// A state of the system: pause for `wait_millis` milliseconds, then do what `stage` says.
#[derive(Clone, Copy, Debug, PartialEq, Eq)]
pub struct ClaimSystem {
    pub wait_millis: u64,
    pub stage: Stage,
}

/// The state in which `stage` follows at once.
pub open spec fn at_once(stage: Stage) -> ClaimSystem {
    ClaimSystem { wait_millis: 0, stage }
}

/// The state in which `stage` follows after a pause.
pub open spec fn after(wait_millis: u64, stage: Stage) -> ClaimSystem {
    ClaimSystem { wait_millis, stage }
}

impl ClaimSystem {
    /// The state after an event. An event that does not answer what was to be done changes
    /// nothing.
    pub open spec fn next(self, event: Event) -> ClaimSystem {
        match (self.stage, event) {
            (Stage::Idle, Event::Picked(Some(claim))) => at_once(Stage::Probe { claim }),
            (Stage::Idle, Event::Picked(None)) => after(REST_MILLIS, Stage::Idle),
            (Stage::Probe { claim }, Event::Account(balance)) => {
                let order = Order { claim, creating: balance != TokenBalance::Amount };
                if order.covered() {
                    at_once(Stage::Blockhash { order })
                } else {
                    at_once(Stage::Dequeue { miner: claim.miner, rest: false })
                }
            },
            (Stage::Blockhash { order }, Event::Blockhash(came)) => if came {
                at_once(Stage::Send { order, attempts: 0 })
            } else {
                at_once(Stage::Dequeue { miner: order.claim.miner, rest: false })
            },
            (Stage::Send { order, attempts }, Event::Sent(Some(signature))) => at_once(
                Stage::CheckTimer { order, signature },
            ),
            (Stage::Send { order, attempts }, Event::Sent(None)) => if attempts + 1
                >= MAX_ATTEMPTS {
                after((RETRY_MILLIS + REST_MILLIS) as u64, Stage::Idle)
            } else {
                after(RETRY_MILLIS, Stage::Send { order, attempts: (attempts + 1) as u32 })
            },
            (Stage::CheckTimer { order, signature }, Event::Elapsed(seconds)) => if seconds
                >= EXPIRY_SECONDS {
                after(REST_MILLIS, Stage::Idle)
            } else {
                at_once(Stage::PollStatus { order, signature })
            },
            (Stage::PollStatus { order, signature }, Event::Status(status)) => match status {
                TransactionStatus::Pending => after(
                    POLL_MILLIS,
                    Stage::CheckTimer { order, signature },
                ),
                TransactionStatus::Failed => after(REST_MILLIS, Stage::Idle),
                TransactionStatus::Succeeded => at_once(Stage::FindMiner { order, signature }),
            },
            (Stage::FindMiner { order, signature }, Event::Miner(Some(miner_id))) => at_once(
                Stage::FindPool { order, signature, miner_id },
            ),
            (Stage::FindMiner { order, signature }, Event::Miner(None)) => at_once(Stage::Stopped),
            (Stage::FindPool { order, signature, miner_id }, Event::Pool(Some(pool_id))) => at_once(
                Stage::DecreaseReward { payment: Payment { order, signature, miner_id, pool_id } },
            ),
            (Stage::FindPool { order, signature, miner_id }, Event::Pool(None)) => at_once(
                Stage::Stopped,
            ),
            (Stage::DecreaseReward { payment }, Event::Stored(done)) => if done {
                at_once(Stage::UpdatePool { payment })
            } else {
                after(RETRY_MILLIS, self.stage)
            },
            (Stage::UpdatePool { payment }, Event::Stored(done)) => if done {
                at_once(Stage::AddTxn { payment })
            } else {
                after(RETRY_MILLIS, self.stage)
            },
            (Stage::AddTxn { payment }, Event::Stored(done)) => if done {
                at_once(Stage::FindTxn { payment })
            } else {
                after(RETRY_MILLIS, self.stage)
            },
            (Stage::FindTxn { payment }, Event::Txn(Some(txn_id))) => at_once(
                Stage::AddClaim { payment, txn_id },
            ),
            (Stage::FindTxn { payment }, Event::Txn(None)) => after(RETRY_MILLIS, self.stage),
            (Stage::AddClaim { payment, txn_id }, Event::Stored(done)) => if done {
                at_once(Stage::Dequeue { miner: payment.order.claim.miner, rest: true })
            } else {
                after(RETRY_MILLIS, self.stage)
            },
            (Stage::Dequeue { miner, rest }, Event::Dequeued) => if rest {
                after(REST_MILLIS, Stage::Idle)
            } else {
                at_once(Stage::Idle)
            },
            _ => self,
        }
    }

    /// What holds in every state that the system reaches.
    pub open spec fn wf(self) -> bool {
        match self.stage {
            Stage::Blockhash { order } => order.covered(),
            Stage::Send { order, attempts } => order.covered() && attempts < MAX_ATTEMPTS,
            Stage::CheckTimer { order, .. } => order.covered(),
            Stage::PollStatus { order, .. } => order.covered(),
            Stage::FindMiner { order, .. } => order.covered(),
            Stage::FindPool { order, .. } => order.covered(),
            Stage::DecreaseReward { payment } => payment.order.covered(),
            Stage::UpdatePool { payment } => payment.order.covered(),
            Stage::AddTxn { payment } => payment.order.covered(),
            Stage::FindTxn { payment } => payment.order.covered(),
            Stage::AddClaim { payment, .. } => payment.order.covered(),
            _ => true,
        }
    }

    /// The state after an event.
    pub fn step(self, event: Event) -> (res: ClaimSystem)
        requires
            self.wf(),
        ensures
            res == self.next(event),
            res.wf(),
    {
        match (self.stage, event) {
            (Stage::Idle, Event::Picked(picked)) => match picked {
                Some(claim) => ClaimSystem { wait_millis: 0, stage: Stage::Probe { claim } },
                None => ClaimSystem { wait_millis: REST_MILLIS, stage: Stage::Idle },
            },
            (Stage::Probe { claim }, Event::Account(balance)) => {
                let creating: bool = balance != TokenBalance::Amount;
                if creating && claim.item.amount < ACCOUNT_FEE {
                    ClaimSystem {
                        wait_millis: 0,
                        stage: Stage::Dequeue { miner: claim.miner, rest: false },
                    }
                } else {
                    ClaimSystem {
                        wait_millis: 0,
                        stage: Stage::Blockhash { order: Order { claim, creating } },
                    }
                }
            },
            (Stage::Blockhash { order }, Event::Blockhash(came)) => if came {
                ClaimSystem { wait_millis: 0, stage: Stage::Send { order, attempts: 0 } }
            } else {
                ClaimSystem {
                    wait_millis: 0,
                    stage: Stage::Dequeue { miner: order.claim.miner, rest: false },
                }
            },
            (Stage::Send { order, attempts }, Event::Sent(taken)) => match taken {
                Some(signature) => ClaimSystem {
                    wait_millis: 0,
                    stage: Stage::CheckTimer { order, signature },
                },
                None => if attempts + 1 >= MAX_ATTEMPTS {
                    ClaimSystem { wait_millis: RETRY_MILLIS + REST_MILLIS, stage: Stage::Idle }
                } else {
                    ClaimSystem {
                        wait_millis: RETRY_MILLIS,
                        stage: Stage::Send { order, attempts: attempts + 1 },
                    }
                },
            },
            (Stage::CheckTimer { order, signature }, Event::Elapsed(seconds)) => if seconds
                >= EXPIRY_SECONDS {
                ClaimSystem { wait_millis: REST_MILLIS, stage: Stage::Idle }
            } else {
                ClaimSystem { wait_millis: 0, stage: Stage::PollStatus { order, signature } }
            },
            (Stage::PollStatus { order, signature }, Event::Status(status)) => match status {
                TransactionStatus::Pending => ClaimSystem {
                    wait_millis: POLL_MILLIS,
                    stage: Stage::CheckTimer { order, signature },
                },
                TransactionStatus::Failed => ClaimSystem {
                    wait_millis: REST_MILLIS,
                    stage: Stage::Idle,
                },
                TransactionStatus::Succeeded => ClaimSystem {
                    wait_millis: 0,
                    stage: Stage::FindMiner { order, signature },
                },
            },
            (Stage::FindMiner { order, signature }, Event::Miner(found)) => match found {
                Some(miner_id) => ClaimSystem {
                    wait_millis: 0,
                    stage: Stage::FindPool { order, signature, miner_id },
                },
                None => ClaimSystem { wait_millis: 0, stage: Stage::Stopped },
            },
            (Stage::FindPool { order, signature, miner_id }, Event::Pool(found)) => match found {
                Some(pool_id) => ClaimSystem {
                    wait_millis: 0,
                    stage: Stage::DecreaseReward {
                        payment: Payment { order, signature, miner_id, pool_id },
                    },
                },
                None => ClaimSystem { wait_millis: 0, stage: Stage::Stopped },
            },
            (Stage::DecreaseReward { payment }, Event::Stored(done)) => if done {
                ClaimSystem { wait_millis: 0, stage: Stage::UpdatePool { payment } }
            } else {
                ClaimSystem { wait_millis: RETRY_MILLIS, stage: self.stage }
            },
            (Stage::UpdatePool { payment }, Event::Stored(done)) => if done {
                ClaimSystem { wait_millis: 0, stage: Stage::AddTxn { payment } }
            } else {
                ClaimSystem { wait_millis: RETRY_MILLIS, stage: self.stage }
            },
            (Stage::AddTxn { payment }, Event::Stored(done)) => if done {
                ClaimSystem { wait_millis: 0, stage: Stage::FindTxn { payment } }
            } else {
                ClaimSystem { wait_millis: RETRY_MILLIS, stage: self.stage }
            },
            (Stage::FindTxn { payment }, Event::Txn(found)) => match found {
                Some(txn_id) => ClaimSystem {
                    wait_millis: 0,
                    stage: Stage::AddClaim { payment, txn_id },
                },
                None => ClaimSystem { wait_millis: RETRY_MILLIS, stage: self.stage },
            },
            (Stage::AddClaim { payment, txn_id: _ }, Event::Stored(done)) => if done {
                ClaimSystem {
                    wait_millis: 0,
                    stage: Stage::Dequeue { miner: payment.order.claim.miner, rest: true },
                }
            } else {
                ClaimSystem { wait_millis: RETRY_MILLIS, stage: self.stage }
            },
            (Stage::Dequeue { miner: _, rest }, Event::Dequeued) => if rest {
                ClaimSystem { wait_millis: REST_MILLIS, stage: Stage::Idle }
            } else {
                ClaimSystem { wait_millis: 0, stage: Stage::Idle }
            },
            _ => self,
        }
    }

    /// The state after a claim was picked from the queue. Which one is left open.
    pub fn pick(self, queue: &ClaimsQueue) -> (res: ClaimSystem)
        requires
            self.wf(),
            queue.wf(),
        ensures
            res.wf(),
            queue@ == Map::<Seq<u8>, ClaimsQueueItem>::empty() ==> res == self.next(
                Event::Picked(None),
            ),
            queue@ != Map::<Seq<u8>, ClaimsQueueItem>::empty() ==> exists|claim: Claim|
                queue@.dom().contains(claim.miner@) && queue@[claim.miner@] == claim.item && res
                    == #[trigger] self.next(Event::Picked(Some(claim))),
    {
        self.step(Event::Picked(queue.next_claim()))
    }

    /// Takes the claim that is to be taken out of the queue out of it. Where none is, nothing
    /// changes.
    pub fn dequeue(self, queue: &mut ClaimsQueue) -> (res: ClaimSystem)
        requires
            self.wf(),
            old(queue).wf(),
        ensures
            res.wf(),
            final(queue).wf(),
            res == self.next(Event::Dequeued),
            final(queue)@ == (match self.stage {
                Stage::Dequeue { miner, .. } => old(queue)@.remove(miner@),
                _ => old(queue)@,
            }),
    {
        if let Stage::Dequeue { miner, rest: _ } = self.stage {
            queue.remove(&miner);
        }
        self.step(Event::Dequeued)
    }

    /// The token account whose balance is to be asked for, if the system is at that and the
    /// account has an address.
    pub fn probed_account(&self) -> (res: Option<Pubkey>)
        ensures
            res is Some <==> (self.stage matches Stage::Probe { claim } && receiver_account(
                claim.item.receiver_pubkey@,
            ) is Some),
            res matches Some(account) ==> (self.stage matches Stage::Probe { claim }
                && crate::onchain::found_at(
                receiver_account(claim.item.receiver_pubkey@),
                account@,
            )),
    {
        match self.stage {
            Stage::Probe { claim } => try_receiver_token_account(&claim.item.receiver_pubkey),
            _ => None,
        }
    }
}

/// The system before it has done anything.
pub fn claim_system() -> (res: ClaimSystem)
    ensures
        res == at_once(Stage::Idle),
        res.wf(),
{
    ClaimSystem { wait_millis: 0, stage: Stage::Idle }
}

/// The state that the system is in after a run of events.
pub open spec fn run(events: Seq<Event>) -> ClaimSystem
    decreases events.len(),
{
    if events.len() == 0 {
        at_once(Stage::Idle)
    } else {
        run(events.drop_last()).next(events.last())
    }
}

/// The claim that is being worked on.
pub open spec fn claim_of(stage: Stage) -> Option<Claim> {
    match stage {
        Stage::Probe { claim } => Some(claim),
        Stage::Blockhash { order } => Some(order.claim),
        Stage::Send { order, .. } => Some(order.claim),
        Stage::CheckTimer { order, .. } => Some(order.claim),
        Stage::PollStatus { order, .. } => Some(order.claim),
        Stage::FindMiner { order, .. } => Some(order.claim),
        Stage::FindPool { order, .. } => Some(order.claim),
        Stage::DecreaseReward { payment } => Some(payment.order.claim),
        Stage::UpdatePool { payment } => Some(payment.order.claim),
        Stage::AddTxn { payment } => Some(payment.order.claim),
        Stage::FindTxn { payment } => Some(payment.order.claim),
        Stage::AddClaim { payment, .. } => Some(payment.order.claim),
        _ => None,
    }
}

/// The order whose transaction was taken, with the signature it was taken under.
pub open spec fn sent_of(stage: Stage) -> Option<(Order, Signature)> {
    match stage {
        Stage::CheckTimer { order, signature } => Some((order, signature)),
        Stage::PollStatus { order, signature } => Some((order, signature)),
        _ => confirmed_of(stage),
    }
}

/// The order whose transaction has succeeded, with the signature it was taken under.
pub open spec fn confirmed_of(stage: Stage) -> Option<(Order, Signature)> {
    match stage {
        Stage::FindMiner { order, signature } => Some((order, signature)),
        Stage::FindPool { order, signature, .. } => Some((order, signature)),
        _ => match booked_of(stage) {
            Some(payment) => Some((payment.order, payment.signature)),
            None => None,
        },
    }
}

/// The payment that goes into the books.
pub open spec fn booked_of(stage: Stage) -> Option<Payment> {
    match stage {
        Stage::DecreaseReward { payment } => Some(payment),
        Stage::UpdatePool { payment } => Some(payment),
        Stage::AddTxn { payment } => Some(payment),
        Stage::FindTxn { payment } => Some(payment),
        Stage::AddClaim { payment, .. } => Some(payment),
        _ => None,
    }
}

/// Every state that the system reaches is well formed: no payment is under way that its claim does
/// not cover, and no transaction has been sent five times in vain.
pub proof fn lemma_run_is_well_formed(events: Seq<Event>)
    ensures
        run(events).wf(),
    decreases events.len(),
{
    if events.len() > 0 {
        lemma_run_is_well_formed(events.drop_last());
    }
}

/// Whatever claim is worked on was picked from the queue, as it stood there.
pub proof fn lemma_claim_was_picked(events: Seq<Event>)
    requires
        claim_of(run(events).stage) is Some,
    ensures
        exists|i: int|
            0 <= i < events.len() && #[trigger] events[i] == Event::Picked(
                claim_of(run(events).stage),
            ) && run(events.take(i)).stage is Idle,
    decreases events.len(),
{
    let claim = claim_of(run(events).stage);
    let before = events.drop_last();
    if claim_of(run(before).stage) == claim {
        lemma_claim_was_picked(before);
        let i = choose|i: int|
            0 <= i < before.len() && #[trigger] before[i] == Event::Picked(claim) && run(
                before.take(i),
            ).stage is Idle;
        assert(before.take(i) =~= events.take(i));
        assert(events[i] == before[i]);
    } else {
        assert(events.last() == Event::Picked(claim));
        assert(before =~= events.take(events.len() - 1));
        assert(events[events.len() - 1] == Event::Picked(claim));
    }
}

/// A transaction is confirmed and booked only for an order that was sent and taken by the chain
/// under the very signature that is asked about and booked.
pub proof fn lemma_signature_was_given(events: Seq<Event>)
    requires
        sent_of(run(events).stage) is Some,
    ensures
        exists|i: int|
            0 <= i < events.len() && #[trigger] events[i] == Event::Sent(
                Some(sent_of(run(events).stage).unwrap().1),
            ) && (run(events.take(i)).stage matches Stage::Send { order, .. } && order == sent_of(
                run(events).stage,
            ).unwrap().0),
    decreases events.len(),
{
    let sent = sent_of(run(events).stage).unwrap();
    let before = events.drop_last();
    if sent_of(run(before).stage) == Some(sent) {
        lemma_signature_was_given(before);
        let i = choose|i: int|
            0 <= i < before.len() && #[trigger] before[i] == Event::Sent(Some(sent.1)) && (run(
                before.take(i),
            ).stage matches Stage::Send { order, .. } && order == sent.0);
        assert(before.take(i) =~= events.take(i));
        assert(events[i] == before[i]);
    } else {
        assert(before =~= events.take(events.len() - 1));
        assert(events[events.len() - 1] == Event::Sent(Some(sent.1)));
    }
}

/// Nothing is looked up or booked for an order before the chain has said that its transaction is
/// finalized and succeeded.
pub proof fn lemma_booked_after_success(events: Seq<Event>)
    requires
        confirmed_of(run(events).stage) is Some,
    ensures
        exists|i: int|
            0 <= i < events.len() && #[trigger] events[i] == Event::Status(
                TransactionStatus::Succeeded,
            ) && (run(events.take(i)).stage matches Stage::PollStatus { order, signature } && Some(
                (order, signature),
            ) == confirmed_of(run(events).stage)),
    decreases events.len(),
{
    let confirmed = confirmed_of(run(events).stage);
    let before = events.drop_last();
    if confirmed_of(run(before).stage) == confirmed {
        lemma_booked_after_success(before);
        let i = choose|i: int|
            0 <= i < before.len() && #[trigger] before[i] == Event::Status(
                TransactionStatus::Succeeded,
            ) && (run(before.take(i)).stage matches Stage::PollStatus { order, signature } && Some(
                (order, signature),
            ) == confirmed);
        assert(before.take(i) =~= events.take(i));
        assert(events[i] == before[i]);
    } else {
        assert(before =~= events.take(events.len() - 1));
        assert(events[events.len() - 1] == Event::Status(TransactionStatus::Succeeded));
    }
}

/// The amount that an instruction claims, read from its data: eight bytes, lowest byte first,
/// behind the byte 0. Any other instruction claims nothing.
pub open spec fn claimed_by(ix: InstructionView) -> int {
    if ix.program_id == eore_id() && ix.data.len() == 9 && ix.data[0] == 0 {
        spec_u64_from_le_bytes(ix.data.subrange(1, 9)) as int
    } else {
        0
    }
}

/// What a transaction of some instructions claims in all.
pub open spec fn claimed_in(ixs: Seq<InstructionView>) -> int
    decreases ixs.len(),
{
    if ixs.len() == 0 {
        0
    } else {
        claimed_in(ixs.drop_last()) + claimed_by(ixs.last())
    }
}

/// Whether an instruction makes a token account.
pub open spec fn makes_account(ix: InstructionView) -> bool {
    ix.program_id == associated_token_id() && ix.data == seq![0u8]
}

/// How many token accounts a transaction of some instructions makes.
pub open spec fn accounts_made(ixs: Seq<InstructionView>) -> int
    decreases ixs.len(),
{
    if ixs.len() == 0 {
        0
    } else {
        accounts_made(ixs.drop_last()) + (if makes_account(ixs.last()) {
            1int
        } else {
            0int
        })
    }
}

proof fn lemma_claim_data(wallet: Seq<u8>, account: Seq<u8>, amount: u64)
    ensures
        claimed_by(claim_instruction(wallet, account, amount)) == amount,
        !makes_account(claim_instruction(wallet, account, amount)),
{
    vstd::bytes::lemma_auto_spec_u64_to_from_le_bytes();
    let data = claim_instruction(wallet, account, amount).data;
    assert(data.subrange(1, 9) =~= spec_u64_to_le_bytes(amount));
    assert(data.len() == 9);
}

proof fn lemma_other_data(wallet: Seq<u8>, receiver: Seq<u8>, mint: Seq<u8>, price: u64)
    ensures
        claimed_by(compute_unit_price_instruction(price)) == 0,
        !makes_account(compute_unit_price_instruction(price)),
        claimed_by(create_account_instruction(wallet, receiver, mint)) == 0,
        makes_account(create_account_instruction(wallet, receiver, mint)),
{
    vstd::bytes::lemma_auto_spec_u64_to_from_le_bytes();
    assert(compute_unit_price_instruction(price).data.len() == 9);
    assert(compute_unit_price_instruction(price).data[0] == 3);
    assert(create_account_instruction(wallet, receiver, mint).data.len() == 1);
}

/// A claim can be paid unless an account has to be made for it and it is less than the fee for
/// that.
pub proof fn lemma_covered(order: Order)
    ensures
        !order.covered() <==> order.creating && order.claim.item.amount < 2_000_000_000,
{
}

/// The transaction for a claim, written out: it offers a price of zero, makes the receiver's token
/// account where that is missing, and claims for that account the whole amount, less the fee
/// exactly where the account is made. What is left to claim is not claimed where it is nothing.
pub proof fn lemma_transaction(order: Order, wallet: Seq<u8>)
    requires
        order.covered(),
    ensures
        ({
            let receiver = order.claim.item.receiver_pubkey@;
            let mint = at(mint_account());
            let account = at(token_account(receiver, mint));
            let amount = order.claim.item.amount;
            let price = compute_unit_price_instruction(0);
            let making = create_account_instruction(wallet, receiver, mint);
            let list = order.instruction_list(wallet);
            &&& !order.creating && amount == 0 ==> list == seq![price]
            &&& !order.creating && amount > 0 ==> list == seq![
                price,
                claim_instruction(wallet, account, amount),
            ]
            &&& order.creating && amount == 2_000_000_000 ==> list == seq![price, making]
            &&& order.creating && amount > 2_000_000_000 ==> list == seq![
                price,
                making,
                claim_instruction(wallet, account, (amount - 2_000_000_000) as u64),
            ]
        }),
{
}

/// What the transaction for a claim claims, read from the data of its instructions, and the fee
/// for the account that it makes, if it makes one, are together the amount that was claimed. It
/// makes an account exactly where one is missing, and no more than one.
pub proof fn lemma_transaction_pays(order: Order, wallet: Seq<u8>)
    requires
        order.covered(),
    ensures
        ({
            let list = order.instruction_list(wallet);
            &&& accounts_made(list) == (if order.creating {
                1int
            } else {
                0int
            })
            &&& claimed_in(list) + 2_000_000_000 * accounts_made(list) == order.claim.item.amount
        }),
{
    lemma_transaction(order, wallet);
    let receiver = order.claim.item.receiver_pubkey@;
    let mint = at(mint_account());
    let account = at(token_account(receiver, mint));
    let amount = order.claim.item.amount;
    let price = compute_unit_price_instruction(0);
    let making = create_account_instruction(wallet, receiver, mint);
    let whole = claim_instruction(wallet, account, amount);
    let rest = claim_instruction(wallet, account, (amount - 2_000_000_000) as u64);
    lemma_other_data(wallet, receiver, mint, 0);
    lemma_claim_data(wallet, account, amount);
    lemma_claim_data(wallet, account, (amount - 2_000_000_000) as u64);
    reveal_with_fuel(claimed_in, 4);
    reveal_with_fuel(accounts_made, 4);
    assert(seq![price].drop_last() =~= Seq::<InstructionView>::empty());
    assert(seq![price, whole].drop_last() =~= seq![price]);
    assert(seq![price, making].drop_last() =~= seq![price]);
    assert(seq![price, making, rest].drop_last() =~= seq![price, making]);
    assert(claimed_in(seq![price]) == 0 && accounts_made(seq![price]) == 0);
    assert(claimed_in(seq![price, making]) == 0 && accounts_made(seq![price, making]) == 1);
    assert(claimed_in(seq![price, whole]) == amount && accounts_made(seq![price, whole]) == 0);
    if order.creating && amount > 2_000_000_000 {
        assert(claimed_in(seq![price, making, rest]) == amount - 2_000_000_000);
        assert(accounts_made(seq![price, making, rest]) == 1);
    }
}

/// Whatever a transaction for a claim claims goes to the token account of the receiver and is
/// signed by the wallet; so it is with the account that it makes.
pub proof fn lemma_receiver_is_paid(order: Order, wallet: Seq<u8>, i: int)
    requires
        order.covered(),
        0 <= i < order.instruction_list(wallet).len(),
    ensures
        ({
            let receiver = order.claim.item.receiver_pubkey@;
            let account = at(token_account(receiver, at(mint_account())));
            let ix = order.instruction_list(wallet)[i];
            &&& claimed_by(ix) != 0 || makes_account(ix) ==> {
                &&& ix.accounts[0] == signing(wallet)
                &&& ix.accounts[1] == writable(account)
            }
            &&& makes_account(ix) ==> ix.accounts[2].pubkey == receiver
        }),
{
    lemma_transaction(order, wallet);
    let receiver = order.claim.item.receiver_pubkey@;
    let account = at(token_account(receiver, at(mint_account())));
    let amount = order.claim.item.amount;
    lemma_other_data(wallet, receiver, at(mint_account()), 0);
    lemma_claim_data(wallet, account, amount);
    lemma_claim_data(wallet, account, (amount - 2_000_000_000) as u64);
}

/// What is paid out and what is kept for the token account make up the amount that is booked: no
/// more and no less leaves the miner's balance than the miner claimed, and the transaction, whoever
/// pays for it, claims just what is paid out.
pub proof fn lemma_nothing_lost(payment: Payment)
    requires
        payment.order.covered(),
    ensures
        payment.order.paid() >= 0,
        payment.order.paid() + (if payment.order.creating {
            ACCOUNT_FEE as int
        } else {
            0
        }) == payment.amount(),
        payment.amount() == payment.order.claim.item.amount,
        forall|wallet: Seq<u8>| #[trigger]
            claimed_in(payment.order.instruction_list(wallet)) == payment.amount() - (
            if accounts_made(payment.order.instruction_list(wallet)) > 0 {
                2_000_000_000int
            } else {
                0int
            }),
        forall|wallet: Seq<u8>| #[trigger]
            claimed_in(payment.order.instruction_list(wallet)) == payment.order.paid(),
{
    assert forall|wallet: Seq<u8>| #[trigger]
        claimed_in(payment.order.instruction_list(wallet)) == payment.amount() - (
        if accounts_made(payment.order.instruction_list(wallet)) > 0 {
            2_000_000_000int
        } else {
            0int
        }) && claimed_in(payment.order.instruction_list(wallet)) == payment.order.paid() by {
        lemma_transaction_pays(payment.order, wallet);
    }
}

/// A claim leaves the queue in three cases only: it does not cover the account that has to be made
/// for it, no blockhash could be had, or its payment is in the books.
pub proof fn lemma_why_dequeued(state: ClaimSystem, event: Event, miner: Pubkey, rest: bool)
    requires
        state.stage !is Dequeue,
        state.next(event).stage == (Stage::Dequeue { miner, rest }),
    ensures
        ({
            ||| (state.stage matches Stage::Probe { claim } && claim.miner == miner && !rest
                && claim.item.amount < ACCOUNT_FEE && (event matches Event::Account(balance)
                && balance != TokenBalance::Amount))
            ||| (state.stage matches Stage::Blockhash { order } && order.claim.miner == miner
                && !rest && event == Event::Blockhash(false))
            ||| (state.stage matches Stage::AddClaim { payment, .. } && payment.order.claim.miner
                == miner && rest && event == Event::Stored(true))
        }),
{
}

/// A transaction that the chain does not take is sent five times; after that the claim is left in
/// the queue and the system rests.
pub proof fn lemma_five_attempts(order: Order)
    ensures
        ({
            let failed = Event::Sent(None);
            let first = at_once(Stage::Send { order, attempts: 0 });
            let second = first.next(failed);
            let third = second.next(failed);
            let fourth = third.next(failed);
            let fifth = fourth.next(failed);
            &&& second == after(RETRY_MILLIS, Stage::Send { order, attempts: 1 })
            &&& third == after(RETRY_MILLIS, Stage::Send { order, attempts: 2 })
            &&& fourth == after(RETRY_MILLIS, Stage::Send { order, attempts: 3 })
            &&& fifth == after(RETRY_MILLIS, Stage::Send { order, attempts: 4 })
            &&& fifth.next(failed) == after(12_000, Stage::Idle)
        }),
{
}

/// An entry that the books do not take is tried again after a pause, as often as it takes.
pub proof fn lemma_entries_are_retried(state: ClaimSystem, event: Event)
    requires
        booked_of(state.stage) is Some,
        event == (if state.stage is FindTxn {
            Event::Txn(None)
        } else {
            Event::Stored(false)
        }),
    ensures
        state.next(event) == after(RETRY_MILLIS, state.stage),
{
}

/// A claim that is covered, whose transaction is taken and succeeds before it expires and for
/// which every lookup and entry works, is paid and then booked: the miner's reward is decreased,
/// the pool's total increased, and the transaction and the claim are entered, each once and in
/// this order, before the claim leaves the queue.
pub proof fn lemma_claim_is_paid(
    claim: Claim,
    balance: TokenBalance,
    signature: Signature,
    seconds: u64,
    miner_id: i32,
    pool_id: i32,
    txn_id: i32,
)
    requires
        balance == TokenBalance::Amount || claim.item.amount >= ACCOUNT_FEE,
        seconds < EXPIRY_SECONDS,
    ensures
        ({
            let order = Order { claim, creating: balance != TokenBalance::Amount };
            let payment = Payment { order, signature, miner_id, pool_id };
            let picked = at_once(Stage::Idle).next(Event::Picked(Some(claim)));
            let probed = picked.next(Event::Account(balance));
            let sending = probed.next(Event::Blockhash(true));
            let sent = sending.next(Event::Sent(Some(signature)));
            let timed = sent.next(Event::Elapsed(seconds));
            let succeeded = timed.next(Event::Status(TransactionStatus::Succeeded));
            let miner_found = succeeded.next(Event::Miner(Some(miner_id)));
            let pool_found = miner_found.next(Event::Pool(Some(pool_id)));
            let decreased = pool_found.next(Event::Stored(true));
            let increased = decreased.next(Event::Stored(true));
            let txn_booked = increased.next(Event::Stored(true));
            let txn_found = txn_booked.next(Event::Txn(Some(txn_id)));
            let done = txn_found.next(Event::Stored(true));
            &&& sending.stage == (Stage::Send { order, attempts: 0 })
            &&& pool_found.stage == (Stage::DecreaseReward { payment })
            &&& decreased.stage == (Stage::UpdatePool { payment })
            &&& increased.stage == (Stage::AddTxn { payment })
            &&& txn_found.stage == (Stage::AddClaim { payment, txn_id })
            &&& done == at_once(Stage::Dequeue { miner: claim.miner, rest: true })
            &&& done.next(Event::Dequeued) == after(REST_MILLIS, Stage::Idle)
        }),
{
}

/// What has gone through the system in a run of events, in amounts claimed.
pub struct Books {
    /// For payments that the chain said have succeeded.
    pub confirmed: int,
    /// Taken from the rewards of miners.
    pub decreased: int,
    /// Added to the claimed total of the pool.
    pub pooled: int,
    /// Booked as claims.
    pub claimed: int,
}

/// The books after one more event.
pub open spec fn entered(books: Books, stage: Stage, event: Event) -> Books {
    match (stage, event) {
        (
            Stage::PollStatus { order, .. },
            Event::Status(TransactionStatus::Succeeded),
        ) => Books { confirmed: books.confirmed + order.claim.item.amount, ..books },
        (Stage::DecreaseReward { payment }, Event::Stored(true)) => Books {
            decreased: books.decreased + payment.amount(),
            ..books
        },
        (Stage::UpdatePool { payment }, Event::Stored(true)) => Books {
            pooled: books.pooled + payment.amount(),
            ..books
        },
        (Stage::AddClaim { payment, .. }, Event::Stored(true)) => Books {
            claimed: books.claimed + payment.amount(),
            ..books
        },
        _ => books,
    }
}

/// The books after a run of events.
pub open spec fn books(events: Seq<Event>) -> Books
    decreases events.len(),
{
    if events.len() == 0 {
        Books { confirmed: 0, decreased: 0, pooled: 0, claimed: 0 }
    } else {
        entered(books(events.drop_last()), run(events.drop_last()).stage, events.last())
    }
}

/// By how much the sums differ at a stage: by the payment that is being booked, in those that it
/// has not reached yet.
pub open spec fn books_agree(books: Books, stage: Stage) -> bool {
    match stage {
        Stage::FindMiner { order, .. } | Stage::FindPool { order, .. } => books.confirmed
            == books.decreased + order.claim.item.amount && books.decreased == books.pooled
            == books.claimed,
        Stage::DecreaseReward { payment } => books.confirmed == books.decreased + payment.amount()
            && books.decreased == books.pooled == books.claimed,
        Stage::UpdatePool { payment } => books.confirmed == books.decreased == books.pooled
            + payment.amount() && books.pooled == books.claimed,
        Stage::AddTxn { payment } | Stage::FindTxn { payment } | Stage::AddClaim {
            payment,
            ..
        } => books.confirmed == books.decreased == books.pooled == books.claimed
            + payment.amount(),
        Stage::Stopped => books.confirmed >= books.decreased == books.pooled == books.claimed,
        _ => books.confirmed == books.decreased == books.pooled == books.claimed,
    }
}

/// The books agree: whenever no payment is being booked, what was taken from the rewards of the
/// miners, what was added to the pool's claimed total and what was booked as claims are each the
/// sum of the claims whose payments have succeeded. They differ for good only where a lookup
/// failed and the system stopped.
pub proof fn lemma_books_agree(events: Seq<Event>)
    ensures
        books_agree(books(events), run(events).stage),
    decreases events.len(),
{
    if events.len() > 0 {
        lemma_books_agree(events.drop_last());
    }
}

/// Whether an event is of the kind that the stage waits for.
pub open spec fn answers(stage: Stage, event: Event) -> bool {
    ||| stage is Idle && event is Picked
    ||| stage is Probe && event is Account
    ||| stage is Blockhash && event is Blockhash
    ||| stage is Send && event is Sent
    ||| stage is CheckTimer && event is Elapsed
    ||| stage is PollStatus && event is Status
    ||| stage is FindMiner && event is Miner
    ||| stage is FindPool && event is Pool
    ||| (stage is DecreaseReward || stage is UpdatePool || stage is AddTxn || stage is AddClaim)
        && event is Stored
    ||| stage is FindTxn && event is Txn
    ||| stage is Dequeue && event is Dequeued
}

/// An event that nothing was asked for changes nothing, and a system that has stopped stays so.
pub proof fn lemma_only_answers_count(state: ClaimSystem, event: Event)
    requires
        !answers(state.stage, event) || state.stage is Stopped,
    ensures
        state.next(event) == state,
{
}

/// A claim that is picked is looked into at once; where none waits, ten seconds pass.
pub proof fn lemma_pick_or_rest(state: ClaimSystem, claim: Claim)
    requires
        state.stage is Idle,
    ensures
        state.next(Event::Picked(Some(claim))).stage == (Stage::Probe { claim }),
        state.next(Event::Picked(Some(claim))).wait_millis == 0,
        state.next(Event::Picked(None)).stage is Idle,
        state.next(Event::Picked(None)).wait_millis == 10_000,
{
}

/// A token account has to be made unless its balance names an amount. A claim that is too small
/// for that is dropped; every other claim goes on as it was picked.
pub proof fn lemma_account_is_made_if_missing(state: ClaimSystem, claim: Claim)
    requires
        state.stage == (Stage::Probe { claim }),
    ensures
        state.next(Event::Account(TokenBalance::Amount)).stage == (Stage::Blockhash {
            order: Order { claim, creating: false },
        }),
        forall|balance: TokenBalance|
            balance != TokenBalance::Amount ==> #[trigger] state.next(Event::Account(balance)).stage
                == (if claim.item.amount >= 2_000_000_000 {
                Stage::Blockhash { order: Order { claim, creating: true } }
            } else {
                Stage::Dequeue { miner: claim.miner, rest: false }
            }),
        forall|balance: TokenBalance|
            (#[trigger] state.next(Event::Account(balance))).wait_millis == 0,
{
}

/// With a blockhash the transaction is sent for the first time; without one the claim is dropped.
pub proof fn lemma_blockhash_or_drop(state: ClaimSystem, order: Order)
    requires
        state.stage == (Stage::Blockhash { order }),
    ensures
        state.next(Event::Blockhash(true)).stage == (Stage::Send { order, attempts: 0 }),
        state.next(Event::Blockhash(true)).wait_millis == 0,
        state.next(Event::Blockhash(false)).stage == (Stage::Dequeue {
            miner: order.claim.miner,
            rest: false,
        }),
        state.next(Event::Blockhash(false)).wait_millis == 0,
{
}

/// A transaction that is taken is followed under the signature it was taken under, however often
/// it was sent before. One that is not is sent again after two seconds, up to the fifth time; then
/// the system turns to the queue again after twelve.
pub proof fn lemma_sent_or_retried(
    state: ClaimSystem,
    order: Order,
    attempts: u32,
    signature: Signature,
)
    requires
        state.stage == (Stage::Send { order, attempts }),
        state.wf(),
    ensures
        attempts <= 4,
        state.next(Event::Sent(Some(signature))).stage == (Stage::CheckTimer { order, signature }),
        state.next(Event::Sent(Some(signature))).wait_millis == 0,
        attempts < 4 ==> state.next(Event::Sent(None)).stage == (Stage::Send {
            order,
            attempts: (attempts + 1) as u32,
        }) && state.next(Event::Sent(None)).wait_millis == 2_000,
        attempts == 4 ==> state.next(Event::Sent(None)).stage is Idle && state.next(
            Event::Sent(None),
        ).wait_millis == 12_000,
{
}

/// A transaction that was taken is given up once two minutes have passed and not before; the claim
/// stays in the queue.
pub proof fn lemma_followed_for_two_minutes(
    state: ClaimSystem,
    order: Order,
    signature: Signature,
    seconds: u64,
)
    requires
        state.stage == (Stage::CheckTimer { order, signature }),
    ensures
        ({
            let next = state.next(Event::Elapsed(seconds));
            if seconds < 120 {
                next.stage == (Stage::PollStatus { order, signature }) && next.wait_millis == 0
            } else {
                next.stage is Idle && next.wait_millis == 10_000
            }
        }),
{
}

/// A transaction that is not final is asked about again after half a second; one that failed
/// leaves the claim in the queue for another time; one that succeeded is booked.
pub proof fn lemma_final_or_asked_again(state: ClaimSystem, order: Order, signature: Signature)
    requires
        state.stage == (Stage::PollStatus { order, signature }),
    ensures
        ({
            let pending = state.next(Event::Status(TransactionStatus::Pending));
            let failed = state.next(Event::Status(TransactionStatus::Failed));
            let succeeded = state.next(Event::Status(TransactionStatus::Succeeded));
            &&& pending.stage == (Stage::CheckTimer { order, signature })
            &&& pending.wait_millis == 500
            &&& failed.stage is Idle && failed.wait_millis == 10_000
            &&& succeeded.stage == (Stage::FindMiner { order, signature })
            &&& succeeded.wait_millis == 0
        }),
{
}

/// The state after the chain was asked once for each of the times, each time to no avail.
pub open spec fn polled(state: ClaimSystem, times: Seq<u64>) -> ClaimSystem
    decreases times.len(),
{
    if times.len() == 0 {
        state
    } else {
        polled(state, times.drop_last()).next(Event::Elapsed(times.last())).next(
            Event::Status(TransactionStatus::Pending),
        )
    }
}

/// However often the chain was asked within two minutes, a transaction that then succeeds is
/// booked for the order that it was sent for, under its signature.
pub proof fn lemma_patience(
    state: ClaimSystem,
    order: Order,
    signature: Signature,
    times: Seq<u64>,
    last: u64,
)
    requires
        state.stage == (Stage::CheckTimer { order, signature }),
        forall|i: int| 0 <= i < times.len() ==> #[trigger] times[i] < 120,
        last < 120,
    ensures
        polled(state, times).stage == (Stage::CheckTimer { order, signature }),
        polled(state, times).next(Event::Elapsed(last)).next(
            Event::Status(TransactionStatus::Succeeded),
        ).stage == (Stage::FindMiner { order, signature }),
    decreases times.len(),
{
    if times.len() > 0 {
        let less = times.drop_last();
        assert forall|i: int| 0 <= i < less.len() implies #[trigger] less[i] < 120 by {
            assert(less[i] == times[i]);
        }
        lemma_patience(state, order, signature, less, last);
        assert(times.last() == times[times.len() - 1]);
    }
}

/// The numbers of the miner and of the pool go into the books as they were found; where one of them
/// is not found, the system stops.
pub proof fn lemma_lookups(
    state: ClaimSystem,
    order: Order,
    signature: Signature,
    miner_id: i32,
    pool_id: i32,
)
    ensures
        state.stage == (Stage::FindMiner { order, signature }) ==> {
            &&& state.next(Event::Miner(Some(miner_id))).stage == (Stage::FindPool {
                order,
                signature,
                miner_id,
            })
            &&& state.next(Event::Miner(Some(miner_id))).wait_millis == 0
            &&& state.next(Event::Miner(None)).stage is Stopped
        },
        state.stage == (Stage::FindPool { order, signature, miner_id }) ==> {
            &&& state.next(Event::Pool(Some(pool_id))).stage == (Stage::DecreaseReward {
                payment: Payment { order, signature, miner_id, pool_id },
            })
            &&& state.next(Event::Pool(Some(pool_id))).wait_millis == 0
            &&& state.next(Event::Pool(None)).stage is Stopped
        },
{
}

/// The state after an event came some times over.
pub open spec fn again(state: ClaimSystem, event: Event, times: nat) -> ClaimSystem
    decreases times,
{
    if times == 0 {
        state
    } else {
        again(state, event, (times - 1) as nat).next(event)
    }
}

/// Whatever payment is booked, and however often the books did not take an entry before: once they
/// take it, the next entry follows at once, of the same payment. The last one is followed by the
/// claim leaving the queue.
pub proof fn lemma_books_are_filled(
    state: ClaimSystem,
    payment: Payment,
    txn_id: i32,
    times: nat,
)
    requires
        booked_of(state.stage) == Some(payment),
        state.stage matches Stage::AddClaim { txn_id: number, .. } ==> number == txn_id,
    ensures
        ({
            let tried = if state.stage is FindTxn {
                again(state, Event::Txn(None), times)
            } else {
                again(state, Event::Stored(false), times)
            };
            let taken = tried.next(Event::Stored(true));
            &&& tried.stage == state.stage
            &&& state.stage is DecreaseReward ==> taken == at_once(Stage::UpdatePool { payment })
            &&& state.stage is UpdatePool ==> taken == at_once(Stage::AddTxn { payment })
            &&& state.stage is AddTxn ==> taken == at_once(Stage::FindTxn { payment })
            &&& state.stage is FindTxn ==> tried.next(Event::Txn(Some(txn_id))) == at_once(
                Stage::AddClaim { payment, txn_id },
            )
            &&& state.stage is AddClaim ==> taken == at_once(
                Stage::Dequeue { miner: payment.order.claim.miner, rest: true },
            )
        }),
    decreases times,
{
    if times > 0 {
        lemma_books_are_filled(state, payment, txn_id, (times - 1) as nat);
    }
}

/// After a claim has left the queue the system turns to the next one: at once where the claim was
/// dropped, after ten seconds where it was paid.
pub proof fn lemma_next_claim(state: ClaimSystem, miner: Pubkey, rest: bool)
    requires
        state.stage == (Stage::Dequeue { miner, rest }),
    ensures
        state.next(Event::Dequeued).stage is Idle,
        rest ==> state.next(Event::Dequeued).wait_millis == 10_000,
        !rest ==> state.next(Event::Dequeued).wait_millis == 0,
{
}

/// To pause for no time is to go on at once, and a pause keeps what follows it.
pub proof fn lemma_pauses(stage: Stage, millis: u64)
    ensures
        at_once(stage).stage == stage && at_once(stage).wait_millis == 0,
        after(millis, stage).stage == stage && after(millis, stage).wait_millis == millis,
{
}

} // verus!
