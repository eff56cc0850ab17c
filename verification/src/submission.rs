//! The steps of one signed send: take the chain's lock, submit, give the lock
//! back, wait for confirmation a bounded number of times, report.

use crate::chain::ChainError;
use vstd::prelude::*;

verus! {

/// How long a send waits for its confirmation.
#[derive(Clone, Copy, Debug, PartialEq, Eq)]
pub struct WaitPolicy {
    /// The number of confirmations that make a transaction final.
    pub confirmations: usize,
    /// How often the send looks again for the receipt after the first look.
    pub max_polls: u32,
}

/// Where a send stands.
#[derive(Clone, Copy, Debug, PartialEq, Eq)]
pub enum SendState {
    /// Nothing was done yet.
    Idle,
    /// The chain's lock was asked for.
    Locking,
    /// The lock is held and the transaction is with the provider.
    Submitting,
    /// The provider accepted the transaction; its confirmation is awaited,
    /// and the send may look for the receipt this many times more.
    Confirming { polls_left: u32 },
    /// The send has reported its result.
    Finished,
}

/// What happened outside since the last step.
#[derive(Clone, Copy, Debug, PartialEq, Eq)]
pub enum SendEvent {
    /// The caller asks for the send.
    Requested,
    /// The chain's lock was taken, with the sequence number to use.
    LockGranted { nonce: u64 },
    /// The provider took the transaction into its pending pool.
    Accepted,
    /// The provider refused the transaction or could not be reached.
    Rejected,
    /// The transaction has the confirmations asked for.
    Confirmed { hash: [u8; 32] },
    /// The transaction is known but not yet confirmed.
    Pending,
    /// The provider knows no receipt and no such transaction.
    NoReceipt,
    /// The provider could not be reached during the wait.
    WaitFailed,
}

/// What to do outside next.
#[derive(Clone, Copy, Debug, PartialEq, Eq)]
pub enum SendAction {
    /// Nothing: the event does not belong to this state.
    Nothing,
    /// Take the chain's lock.
    AcquireLock,
    /// Sign the transaction with this sequence number and submit it.
    Submit { nonce: u64 },
    /// Give the lock back as used, then look for the receipt with this many
    /// confirmations.
    ReleaseAndWait { confirmations: usize },
    /// Wait, then look for the receipt again.
    WaitAgain { confirmations: usize },
    /// Give the lock back as unused and report the failure.
    ReleaseAndFail { error: ChainError },
    /// Report the confirmed transaction.
    Succeed { hash: [u8; 32] },
    /// Report the failure.
    Fail { error: ChainError },
}

/// Whether the chain's lock is held in a state.
pub open spec fn holds_lock(state: SendState) -> bool {
    state is Submitting
}

/// Whether an action gives the chain's lock back.
pub open spec fn releases_lock(action: SendAction) -> bool {
    action is ReleaseAndWait || action is ReleaseAndFail
}

/// Whether an action reports the result of the send.
pub open spec fn reports(action: SendAction) -> bool {
    action is ReleaseAndFail || action is Succeed || action is Fail
}

/// Whether an action looks for the receipt.
pub open spec fn waits(action: SendAction) -> bool {
    action is ReleaseAndWait || action is WaitAgain
}

/// Whether a state can occur in a send under a policy.
pub open spec fn reachable(state: SendState, policy: WaitPolicy) -> bool {
    state matches SendState::Confirming { polls_left } ==> polls_left <= policy.max_polls
}

/// How many steps a send can still take: no more than `max_polls + 4` from
/// the start.
pub open spec fn steps_left(state: SendState) -> nat {
    match state {
        SendState::Idle => 0x1_0000_0003,
        SendState::Locking => 0x1_0000_0002,
        SendState::Submitting => 0x1_0000_0001,
        SendState::Confirming { polls_left } => (polls_left + 1) as nat,
        SendState::Finished => 0,
    }
}

/// The state after an event, and what to do next.
pub open spec fn stepped(state: SendState, event: SendEvent, policy: WaitPolicy) -> (
    SendState,
    SendAction,
) {
    match (state, event) {
        (SendState::Idle, SendEvent::Requested) => (SendState::Locking, SendAction::AcquireLock),
        (SendState::Locking, SendEvent::LockGranted { nonce }) => (
            SendState::Submitting,
            SendAction::Submit { nonce },
        ),
        (SendState::Submitting, SendEvent::Accepted) => (
            SendState::Confirming { polls_left: policy.max_polls },
            SendAction::ReleaseAndWait { confirmations: policy.confirmations },
        ),
        (SendState::Submitting, SendEvent::Rejected) => (
            SendState::Finished,
            SendAction::ReleaseAndFail { error: ChainError::SubmissionError },
        ),
        (SendState::Confirming { polls_left }, SendEvent::Confirmed { hash }) => (
            SendState::Finished,
            SendAction::Succeed { hash },
        ),
        (SendState::Confirming { polls_left }, SendEvent::Pending) => if polls_left > 0 {
            (
                SendState::Confirming { polls_left: (polls_left - 1) as u32 },
                SendAction::WaitAgain { confirmations: policy.confirmations },
            )
        } else {
            (SendState::Finished, SendAction::Fail { error: ChainError::NoReceiptError })
        },
        (SendState::Confirming { polls_left }, SendEvent::NoReceipt) => (
            SendState::Finished,
            SendAction::Fail { error: ChainError::NoReceiptError },
        ),
        (SendState::Confirming { polls_left }, SendEvent::WaitFailed) => (
            SendState::Finished,
            SendAction::Fail { error: ChainError::SubmissionError },
        ),
        _ => (state, SendAction::Nothing),
    }
}

/// The lock is held for the submission and for nothing else: it is taken only
/// by the grant, every step that leaves the submission gives it back, and no
/// other step gives it back.
pub proof fn lemma_lock_is_scoped(state: SendState, event: SendEvent, policy: WaitPolicy)
    ensures
        holds_lock(stepped(state, event, policy).0) && !holds_lock(state) ==> state is Locking
            && event is LockGranted,
        holds_lock(state) && !holds_lock(stepped(state, event, policy).0) ==> releases_lock(
            stepped(state, event, policy).1,
        ),
        releases_lock(stepped(state, event, policy).1) ==> holds_lock(state) && !holds_lock(
            stepped(state, event, policy).0,
        ),
        holds_lock(state) && holds_lock(stepped(state, event, policy).0) ==> stepped(
            state,
            event,
            policy,
        ).1 is Nothing,
        waits(stepped(state, event, policy).1) ==> !holds_lock(stepped(state, event, policy).0),
{
}

/// A send reports once: the step that reports ends in `Finished`, every step
/// into `Finished` reports, and a finished send does nothing more.
pub proof fn lemma_reports_once(state: SendState, event: SendEvent, policy: WaitPolicy)
    ensures
        reports(stepped(state, event, policy).1) <==> !(state is Finished) && stepped(
            state,
            event,
            policy,
        ).0 is Finished,
        state is Finished ==> stepped(state, event, policy) == (
            SendState::Finished,
            SendAction::Nothing,
        ),
{
}

/// A transaction goes to the provider only under the lock, with the sequence
/// number that came with the lock.
pub proof fn lemma_submits_under_lock(state: SendState, event: SendEvent, policy: WaitPolicy)
    ensures
        stepped(state, event, policy).1 is Submit ==> holds_lock(stepped(state, event, policy).0)
            && event is LockGranted && stepped(state, event, policy).1->Submit_nonce
            == event->LockGranted_nonce,
{
}

/// The wait is bounded: every step that does anything brings the send nearer
/// to its end, so a send looks for its receipt `max_polls + 1` times at most
/// and then reports.
pub proof fn lemma_send_ends(state: SendState, event: SendEvent, policy: WaitPolicy)
    requires
        reachable(state, policy),
    ensures
        reachable(stepped(state, event, policy).0, policy),
        !(stepped(state, event, policy).1 is Nothing) ==> steps_left(
            stepped(state, event, policy).0,
        ) < steps_left(state),
        stepped(state, event, policy).1 is Nothing ==> stepped(state, event, policy).0 == state,
        steps_left(state) == 0 <==> state is Finished,
        state is Confirming ==> steps_left(state) <= policy.max_polls + 1,
{
}

/// What a look for the receipt found.
#[derive(Clone, Copy, Debug, PartialEq, Eq)]
pub enum ReceiptLook {
    /// The provider could not be reached.
    Unreachable,
    /// The provider knows no receipt and no such transaction.
    Unknown,
    /// The transaction is known and not yet in a block.
    InPool,
    /// The transaction is in the block with this number.
    Included { hash: [u8; 32], block: u64 },
}

/// The number of confirmations of a transaction in block `block` when the
/// chain's newest block is `head`: the blocks from its own to the newest.
pub open spec fn confirmations_at(block: u64, head: u64) -> nat {
    if head >= block {
        (head - block + 1) as nat
    } else {
        0
    }
}

/// What a look for the receipt means for the send.
pub open spec fn look_event(look: ReceiptLook, head: u64, confirmations: usize) -> SendEvent {
    match look {
        ReceiptLook::Unreachable => SendEvent::WaitFailed,
        ReceiptLook::Unknown => SendEvent::NoReceipt,
        ReceiptLook::InPool => SendEvent::Pending,
        ReceiptLook::Included { hash, block } => if confirmations_at(block, head)
            >= confirmations {
            SendEvent::Confirmed { hash }
        } else {
            SendEvent::Pending
        },
    }
}

/// What a look for the receipt means for the send: a transaction is confirmed
/// when the blocks from its own to the newest are as many as asked for.
pub fn receipt_event(look: ReceiptLook, head: u64, confirmations: usize) -> (event: SendEvent)
    ensures
        event == look_event(look, head, confirmations),
{
    match look {
        ReceiptLook::Unreachable => SendEvent::WaitFailed,
        ReceiptLook::Unknown => SendEvent::NoReceipt,
        ReceiptLook::InPool => SendEvent::Pending,
        ReceiptLook::Included { hash, block } => {
            let enough = if head >= block {
                let depth = head - block;
                (depth as u128) + 1 >= confirmations as u128
            } else {
                confirmations == 0
            };
            if enough {
                SendEvent::Confirmed { hash }
            } else {
                SendEvent::Pending
            }
        },
    }
}

/// The next step of a send under a policy.
pub fn send_step(state: SendState, event: SendEvent, policy: WaitPolicy) -> (next: (
    SendState,
    SendAction,
))
    ensures
        next == stepped(state, event, policy),
{
    match state {
        SendState::Idle => match event {
            SendEvent::Requested => (SendState::Locking, SendAction::AcquireLock),
            _ => (state, SendAction::Nothing),
        },
        SendState::Locking => match event {
            SendEvent::LockGranted { nonce } => (
                SendState::Submitting,
                SendAction::Submit { nonce },
            ),
            _ => (state, SendAction::Nothing),
        },
        SendState::Submitting => match event {
            SendEvent::Accepted => (
                SendState::Confirming { polls_left: policy.max_polls },
                SendAction::ReleaseAndWait { confirmations: policy.confirmations },
            ),
            SendEvent::Rejected => (
                SendState::Finished,
                SendAction::ReleaseAndFail { error: ChainError::SubmissionError },
            ),
            _ => (state, SendAction::Nothing),
        },
        SendState::Confirming { polls_left } => match event {
            SendEvent::Confirmed { hash } => (SendState::Finished, SendAction::Succeed { hash }),
            SendEvent::Pending => if polls_left > 0 {
                (
                    SendState::Confirming { polls_left: polls_left - 1 },
                    SendAction::WaitAgain { confirmations: policy.confirmations },
                )
            } else {
                (SendState::Finished, SendAction::Fail { error: ChainError::NoReceiptError })
            },
            SendEvent::NoReceipt => (
                SendState::Finished,
                SendAction::Fail { error: ChainError::NoReceiptError },
            ),
            SendEvent::WaitFailed => (
                SendState::Finished,
                SendAction::Fail { error: ChainError::SubmissionError },
            ),
            _ => (state, SendAction::Nothing),
        },
        SendState::Finished => (state, SendAction::Nothing),
    }
}

} // verus!
