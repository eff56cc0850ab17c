//! One lock and one transaction sequence number for every chain identity.

use std::collections::HashMap;
use vstd::prelude::*;

verus! {

/// The lock of one chain identity, and the sequence number that its next
/// transaction takes.
#[derive(Clone, Copy, Debug, PartialEq, Eq, Structural)]
pub struct LockState {
    pub held: bool,
    pub next_nonce: u64,
}

/// The locks of all chain identities, each under its chain id.
pub struct NonceLocks {
    locks: HashMap<u64, LockState>,
}

/// Whether the lock can be taken: it is free, and a sequence number is left.
pub open spec fn free(state: LockState) -> bool {
    !state.held && state.next_nonce < u64::MAX
}

/// What registering a chain does: a chain that is not known yet gets a free
/// lock that starts at `start`; a known one stays as it is.
pub open spec fn registered(locks: Map<u64, LockState>, chain_id: u64, start: u64) -> Map<
    u64,
    LockState,
> {
    if locks.contains_key(chain_id) {
        locks
    } else {
        locks.insert(chain_id, LockState { held: false, next_nonce: start })
    }
}

/// What taking the lock of a chain does, and what it returns: the sequence
/// number for the transaction, or `None` where the chain is not known, its
/// lock is held or its numbers are used up.
pub open spec fn acquired(locks: Map<u64, LockState>, chain_id: u64) -> (
    Option<u64>,
    Map<u64, LockState>,
) {
    if locks.contains_key(chain_id) && free(locks[chain_id]) {
        (
            Some(locks[chain_id].next_nonce),
            locks.insert(
                chain_id,
                LockState { held: true, next_nonce: locks[chain_id].next_nonce },
            ),
        )
    } else {
        (None, locks)
    }
}

/// What giving the lock of a chain back does. Where the provider accepted the
/// transaction the sequence number is used, and the next one is one higher;
/// where it did not the number is free again.
pub open spec fn released(locks: Map<u64, LockState>, chain_id: u64, accepted: bool) -> Map<
    u64,
    LockState,
> {
    if locks.contains_key(chain_id) && locks[chain_id].held {
        let next = locks[chain_id].next_nonce;
        locks.insert(
            chain_id,
            LockState {
                held: false,
                next_nonce: if accepted && next < u64::MAX {
                    (next + 1) as u64
                } else {
                    next
                },
            },
        )
    } else {
        locks
    }
}

/// The locks after `count` transactions of one chain were submitted one after
/// the other and accepted.
pub open spec fn after_submissions(locks: Map<u64, LockState>, chain_id: u64, count: nat) -> Map<
    u64,
    LockState,
>
    decreases count,
{
    if count == 0 {
        locks
    } else {
        released(
            acquired(after_submissions(locks, chain_id, (count - 1) as nat), chain_id).1,
            chain_id,
            true,
        )
    }
}

/// The sequence number that the submission after `count` accepted ones takes.
pub open spec fn nth_nonce(locks: Map<u64, LockState>, chain_id: u64, count: nat) -> Option<u64> {
    acquired(after_submissions(locks, chain_id, count), chain_id).0
}

/// While the lock of a chain is held nobody else gets it: a second taker is
/// turned away and changes nothing.
pub proof fn lemma_lock_excludes(locks: Map<u64, LockState>, chain_id: u64)
    requires
        acquired(locks, chain_id).0 is Some,
    ensures
        acquired(acquired(locks, chain_id).1, chain_id).0 is None,
        acquired(acquired(locks, chain_id).1, chain_id).1 == acquired(locks, chain_id).1,
{
}

/// The lock of one chain does not touch another: taking and giving back the
/// lock of `chain_id` leaves what is known of `other` as it was.
pub proof fn lemma_locks_are_per_chain(
    locks: Map<u64, LockState>,
    chain_id: u64,
    other: u64,
    accepted: bool,
)
    requires
        chain_id != other,
    ensures
        acquired(locks, chain_id).1.contains_key(other) == locks.contains_key(other),
        released(locks, chain_id, accepted).contains_key(other) == locks.contains_key(other),
        locks.contains_key(other) ==> acquired(locks, chain_id).1[other] == locks[other]
            && released(locks, chain_id, accepted)[other] == locks[other],
{
}

/// A number that was not used is given out again: after a refused
/// transaction the next taker gets the same sequence number.
pub proof fn lemma_refused_keeps_nonce(locks: Map<u64, LockState>, chain_id: u64)
    requires
        acquired(locks, chain_id).0 is Some,
    ensures
        acquired(released(acquired(locks, chain_id).1, chain_id, false), chain_id).0 == acquired(
            locks,
            chain_id,
        ).0,
{
}

/// After `count` accepted submissions the lock is free again and the next
/// number is `count` higher than at the start.
pub proof fn lemma_after_submissions(locks: Map<u64, LockState>, chain_id: u64, count: nat)
    requires
        locks.contains_key(chain_id),
        !locks[chain_id].held,
        locks[chain_id].next_nonce + count <= u64::MAX,
    ensures
        after_submissions(locks, chain_id, count).contains_key(chain_id),
        after_submissions(locks, chain_id, count)[chain_id] == (LockState {
            held: false,
            next_nonce: (locks[chain_id].next_nonce + count) as u64,
        }),
    decreases count,
{
    if count > 0 {
        lemma_after_submissions(locks, chain_id, (count - 1) as nat);
    }
}

/// Transactions submitted one after the other from one identity take
/// sequence numbers without a gap: the submission after `count` accepted ones
/// takes the number that is `count` above the first.
pub proof fn lemma_nonces_gapless(locks: Map<u64, LockState>, chain_id: u64, count: nat)
    requires
        locks.contains_key(chain_id),
        !locks[chain_id].held,
        locks[chain_id].next_nonce + count < u64::MAX,
    ensures
        nth_nonce(locks, chain_id, count) == Some((locks[chain_id].next_nonce + count) as u64),
{
    lemma_after_submissions(locks, chain_id, count);
}

/// No two of those transactions take the same number, and a later one takes
/// a higher number than an earlier one.
pub proof fn lemma_nonces_increase(
    locks: Map<u64, LockState>,
    chain_id: u64,
    earlier: nat,
    later: nat,
)
    requires
        locks.contains_key(chain_id),
        !locks[chain_id].held,
        earlier < later,
        locks[chain_id].next_nonce + later < u64::MAX,
    ensures
        nth_nonce(locks, chain_id, earlier) is Some,
        nth_nonce(locks, chain_id, later) is Some,
        nth_nonce(locks, chain_id, earlier)->Some_0 < nth_nonce(locks, chain_id, later)->Some_0,
        nth_nonce(locks, chain_id, later)->Some_0 - nth_nonce(locks, chain_id, earlier)->Some_0
            == later - earlier,
{
    lemma_nonces_gapless(locks, chain_id, earlier);
    lemma_nonces_gapless(locks, chain_id, later);
}

impl View for NonceLocks {
    type V = Map<u64, LockState>;

    closed spec fn view(&self) -> Map<u64, LockState> {
        self.locks@
    }
}

impl NonceLocks {
    /// No lock at all.
    pub fn new() -> (locks: Self)
        ensures
            locks@ == Map::<u64, LockState>::empty(),
    {
        NonceLocks { locks: HashMap::new() }
    }

    /// What is known of a chain.
    pub fn state(&self, chain_id: u64) -> (state: Option<LockState>)
        ensures
            state == if self@.contains_key(chain_id) {
                Some(self@[chain_id])
            } else {
                None
            },
    {
        broadcast use vstd::std_specs::hash::group_hash_axioms;

        match self.locks.get(&chain_id) {
            Some(state) => Some(*state),
            None => None,
        }
    }

    /// Makes the lock of a chain, free and starting at `start`, unless the
    /// chain has one.
    pub fn register(&mut self, chain_id: u64, start: u64)
        ensures
            final(self)@ == registered(old(self)@, chain_id, start),
    {
        broadcast use vstd::std_specs::hash::group_hash_axioms;

        if !self.locks.contains_key(&chain_id) {
            self.locks.insert(chain_id, LockState { held: false, next_nonce: start });
        }
    }

    /// Takes the lock of a chain for one submission.
    pub fn acquire(&mut self, chain_id: u64) -> (nonce: Option<u64>)
        ensures
            (nonce, final(self)@) == acquired(old(self)@, chain_id),
    {
        broadcast use vstd::std_specs::hash::group_hash_axioms;

        match self.state(chain_id) {
            Some(state) => {
                if state.held || state.next_nonce == u64::MAX {
                    None
                } else {
                    self.locks.insert(
                        chain_id,
                        LockState { held: true, next_nonce: state.next_nonce },
                    );
                    Some(state.next_nonce)
                }
            },
            None => None,
        }
    }

    /// Gives the lock of a chain back when the provider has accepted or
    /// refused the transaction.
    pub fn release(&mut self, chain_id: u64, accepted: bool)
        ensures
            final(self)@ == released(old(self)@, chain_id, accepted),
    {
        broadcast use vstd::std_specs::hash::group_hash_axioms;

        match self.state(chain_id) {
            Some(state) => {
                if state.held {
                    let next_nonce = if accepted && state.next_nonce < u64::MAX {
                        state.next_nonce + 1
                    } else {
                        state.next_nonce
                    };
                    self.locks.insert(chain_id, LockState { held: false, next_nonce });
                }
            },
            None => {},
        }
    }
}

} // verus!
