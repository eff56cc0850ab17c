//! The reply correlator: which outbound messages still expect a reply, and
//! for which request.

use vstd::prelude::*;

verus! {

/// The promise that one outbound message will be answered.
#[derive(Clone, Debug, PartialEq, Eq)]
pub struct ExpectedReply {
    pub message_id: String,
    pub request_id: u128,
    pub resolved: bool,
}

/// What is known of one outbound message: the request it belongs to, and
/// whether its reply has come.
pub struct ReplyState {
    pub request_id: u128,
    pub resolved: bool,
}

/// Why an expectation could not be recorded.
#[derive(Clone, Copy, Debug, PartialEq, Eq, Structural)]
pub enum CorrelationError {
    /// An expectation with this message id is there already.
    DuplicateMessageId,
}

/// The expected replies, each under the id of its outbound message.
pub struct ReplyCorrelator {
    replies: Vec<ExpectedReply>,
    known: Ghost<Map<Seq<char>, ReplyState>>,
}

/// What recording an expectation does to the known replies, and what it
/// returns.
pub open spec fn recorded(
    known: Map<Seq<char>, ReplyState>,
    message_id: Seq<char>,
    request_id: u128,
) -> (Result<(), CorrelationError>, Map<Seq<char>, ReplyState>) {
    if known.contains_key(message_id) {
        (Err(CorrelationError::DuplicateMessageId), known)
    } else {
        (Ok(()), known.insert(message_id, ReplyState { request_id, resolved: false }))
    }
}

/// Whether a reply to `message_id` is still awaited.
pub open spec fn awaited(known: Map<Seq<char>, ReplyState>, message_id: Seq<char>) -> bool {
    known.contains_key(message_id) && !known[message_id].resolved
}

/// What resolving a reference does to the known replies, and what it returns:
/// the request of an awaited reply, which is thereby resolved, and `None` for
/// any other reference.
pub open spec fn resolved(
    known: Map<Seq<char>, ReplyState>,
    in_reply_to: Option<Seq<char>>,
) -> (Option<u128>, Map<Seq<char>, ReplyState>) {
    match in_reply_to {
        Some(message_id) => if awaited(known, message_id) {
            (
                Some(known[message_id].request_id),
                known.insert(
                    message_id,
                    ReplyState { request_id: known[message_id].request_id, resolved: true },
                ),
            )
        } else {
            (None, known)
        },
        None => (None, known),
    }
}

/// A reference is resolved at most once: of two calls in a row with the same
/// reference, the first gives the request exactly where a reply was awaited,
/// and the second gives nothing.
pub proof fn lemma_resolve_at_most_once(
    known: Map<Seq<char>, ReplyState>,
    in_reply_to: Option<Seq<char>>,
)
    ensures
        resolved(known, in_reply_to).0 is Some <==> in_reply_to is Some && awaited(
            known,
            in_reply_to->Some_0,
        ),
        resolved(resolved(known, in_reply_to).1, in_reply_to).0 is None,
        resolved(resolved(known, in_reply_to).1, in_reply_to).1 == resolved(known, in_reply_to).1,
{
}

/// Resolving one reference leaves every other message as it was.
pub proof fn lemma_resolve_leaves_others(
    known: Map<Seq<char>, ReplyState>,
    in_reply_to: Option<Seq<char>>,
    other: Seq<char>,
)
    requires
        in_reply_to != Some(other),
    ensures
        resolved(known, in_reply_to).1.contains_key(other) == known.contains_key(other),
        known.contains_key(other) ==> resolved(known, in_reply_to).1[other] == known[other],
{
}

/// A recorded expectation is awaited until it is resolved, and resolving it
/// gives the request it was recorded for.
pub proof fn lemma_recorded_then_resolved(
    known: Map<Seq<char>, ReplyState>,
    message_id: Seq<char>,
    request_id: u128,
)
    requires
        !known.contains_key(message_id),
    ensures
        recorded(known, message_id, request_id).0 is Ok,
        resolved(recorded(known, message_id, request_id).1, Some(message_id)).0 == Some(
            request_id,
        ),
{
}

/// What is known of an entry's message is what the entry holds.
spec fn holds_state(known: Map<Seq<char>, ReplyState>, entry: ExpectedReply) -> bool {
    known.contains_key(entry.message_id@) && known[entry.message_id@] == (ReplyState {
        request_id: entry.request_id,
        resolved: entry.resolved,
    })
}

/// Whether some entry has the given message id.
spec fn has_entry(replies: Seq<ExpectedReply>, message_id: Seq<char>) -> bool {
    exists|i: int| 0 <= i < replies.len() && (#[trigger] replies[i]).message_id@ == message_id
}

impl View for ReplyCorrelator {
    type V = Map<Seq<char>, ReplyState>;

    closed spec fn view(&self) -> Map<Seq<char>, ReplyState> {
        self.known@
    }
}

impl ReplyCorrelator {
    /// Every message id occurs once, and what is known of it is what its
    /// entry holds.
    pub closed spec fn well_formed(&self) -> bool {
        &&& forall|i: int, j: int|
            0 <= i < j < self.replies@.len() ==> (#[trigger] self.replies@[i]).message_id@ != (
            #[trigger] self.replies@[j]).message_id@
        &&& forall|i: int|
            0 <= i < self.replies@.len() ==> holds_state(self.known@, #[trigger] self.replies@[i])
        &&& forall|k: Seq<char>| #[trigger]
            self.known@.contains_key(k) ==> has_entry(self.replies@, k)
    }

    /// A correlator that expects no reply.
    pub fn new() -> (correlator: Self)
        ensures
            correlator.well_formed(),
            correlator@ == Map::<Seq<char>, ReplyState>::empty(),
    {
        ReplyCorrelator { replies: Vec::new(), known: Ghost(Map::empty()) }
    }

    /// Where the entry of a message id stands, if there is one.
    fn position(&self, message_id: &String) -> (found: Option<usize>)
        requires
            self.well_formed(),
        ensures
            match found {
                Some(i) => i < self.replies@.len() && self.replies@[i as int].message_id@
                    == message_id@,
                None => !self@.contains_key(message_id@),
            },
    {
        let mut i: usize = 0;
        while i < self.replies.len()
            invariant
                i <= self.replies@.len(),
                forall|j: int| 0 <= j < i ==> self.replies@[j].message_id@ != message_id@,
            decreases self.replies@.len() - i,
        {
            if self.replies[i].message_id == *message_id {
                return Some(i);
            }
            i += 1;
        }
        assert(!has_entry(self.replies@, message_id@));
        None
    }

    /// Records that a reply to `message_id` is expected for `request_id`.
    pub fn record_expectation(&mut self, message_id: &str, request_id: u128) -> (outcome: Result<
        (),
        CorrelationError,
    >)
        requires
            old(self).well_formed(),
        ensures
            final(self).well_formed(),
            (outcome, final(self)@) == recorded(old(self)@, message_id@, request_id),
    {
        let message_id = String::from_str(message_id);
        match self.position(&message_id) {
            Some(_) => Err(CorrelationError::DuplicateMessageId),
            None => {
                let ghost key = message_id@;
                let entry = ExpectedReply { message_id, request_id, resolved: false };
                self.replies.push(entry);
                proof {
                    self.known@ = self.known@.insert(
                        key,
                        ReplyState { request_id, resolved: false },
                    );
                    let before = old(self).replies@;
                    let after = self.replies@;
                    assert forall|i: int| 0 <= i < after.len() implies holds_state(
                        self.known@,
                        #[trigger] after[i],
                    ) by {
                        if i < before.len() {
                            assert(holds_state(old(self).known@, before[i]));
                        }
                    }
                    assert forall|i: int, j: int| 0 <= i < j < after.len() implies (
                    #[trigger] after[i]).message_id@ != (#[trigger] after[j]).message_id@ by {
                        assert(holds_state(old(self).known@, before[i]));
                    }
                    assert forall|k: Seq<char>| #[trigger]
                        self.known@.contains_key(k) implies has_entry(after, k) by {
                        if k == key {
                            assert(after[before.len() as int].message_id@ == k);
                        } else {
                            assert(has_entry(before, k));
                            let w = choose|w: int|
                                0 <= w < before.len() && (#[trigger] before[w]).message_id@ == k;
                            assert(after[w].message_id@ == k);
                        }
                    }
                }
                Ok(())
            },
        }
    }

    /// Whether a reply to `message_id` is still awaited.
    pub fn is_awaited(&self, message_id: &str) -> (yes: bool)
        requires
            self.well_formed(),
        ensures
            yes == awaited(self@, message_id@),
    {
        match self.position(&String::from_str(message_id)) {
            Some(i) => !self.replies[i].resolved,
            None => false,
        }
    }

    /// Resolves the reference of an inbound message: the request of an awaited
    /// reply, which is resolved by this call, and `None` for a message that
    /// refers to nothing, to an unknown message or to one already resolved.
    pub fn resolve(&mut self, in_reply_to: Option<&str>) -> (request_id: Option<u128>)
        requires
            old(self).well_formed(),
        ensures
            final(self).well_formed(),
            (request_id, final(self)@) == resolved(
                old(self)@,
                match in_reply_to {
                    Some(id) => Some(id@),
                    None => None,
                },
            ),
    {
        let message_id = match in_reply_to {
            Some(id) => String::from_str(id),
            None => {
                return None;
            },
        };
        match self.position(&message_id) {
            Some(i) => {
                if self.replies[i].resolved {
                    return None;
                }
                let request_id = self.replies[i].request_id;
                let ghost key = message_id@;
                let entry = ExpectedReply { message_id, request_id, resolved: true };
                self.replies.set(i, entry);
                proof {
                    self.known@ = self.known@.insert(
                        key,
                        ReplyState { request_id, resolved: true },
                    );
                    let before = old(self).replies@;
                    let after = self.replies@;
                    assert(holds_state(old(self).known@, before[i as int]));
                    assert forall|n: int| 0 <= n < after.len() implies holds_state(
                        self.known@,
                        #[trigger] after[n],
                    ) by {
                        if n != i {
                            assert(holds_state(old(self).known@, before[n]));
                            assert(before[n].message_id@ != before[i as int].message_id@);
                        }
                    }
                    assert forall|m: int, n: int| 0 <= m < n < after.len() implies (
                    #[trigger] after[m]).message_id@ != (#[trigger] after[n]).message_id@ by {
                        assert(before[m].message_id@ != before[n].message_id@);
                    }
                    assert forall|k: Seq<char>| #[trigger]
                        self.known@.contains_key(k) implies has_entry(after, k) by {
                        if k == key {
                            assert(after[i as int].message_id@ == k);
                        } else {
                            assert(has_entry(before, k));
                            let w = choose|w: int|
                                0 <= w < before.len() && (#[trigger] before[w]).message_id@ == k;
                            assert(after[w].message_id@ == k);
                        }
                    }
                }
                Some(request_id)
            },
            None => None,
        }
    }
}

} // verus!
