//! The lifecycle of one inbound command, from receipt to its terminal state.

use crate::call::ChainCallSpec;
use crate::correlator::{recorded, ReplyCorrelator, ReplyState};
use vstd::prelude::*;

verus! {

/// Where a request stands.
#[derive(Clone, Copy, Debug, PartialEq, Eq, Structural)]
pub enum RequestStatus {
    /// The command was parsed; nothing was sent yet.
    Received,
    /// An email that expects a reply went out.
    EmailSent,
    /// The reply to that email came in.
    Replied,
    /// The action of the request succeeded.
    Completed,
    /// The action of the request failed.
    Errored,
}

/// Why a request did not change its status.
#[derive(Clone, Copy, Debug, PartialEq, Eq, Structural)]
pub enum LifecycleError {
    /// The request is past the point where a reply is awaited.
    DuplicateReply,
    /// The email went out, but the expected reply could not be recorded.
    PartialDispatchError,
    /// The email did not go out.
    DispatchFailed,
    /// The request is completed or errored; its status is final.
    TerminalState,
    /// The status cannot follow the present one.
    InvalidTransition,
}

/// The record of one inbound command.
#[derive(Debug)]
pub struct Request {
    id: u128,
    status: RequestStatus,
    chain_call_spec: Option<ChainCallSpec>,
}

/// Whether a status is final.
pub open spec fn is_terminal(status: RequestStatus) -> bool {
    status == RequestStatus::Completed || status == RequestStatus::Errored
}

/// Whether a request may go from one status to another.
pub open spec fn may_follow(from: RequestStatus, to: RequestStatus) -> bool {
    match from {
        RequestStatus::Received => to == RequestStatus::EmailSent || is_terminal(to),
        RequestStatus::EmailSent => to == RequestStatus::Replied,
        RequestStatus::Replied => is_terminal(to),
        RequestStatus::Completed => false,
        RequestStatus::Errored => false,
    }
}

/// What a write of `to` does to a request in status `from`: the status after
/// it, and the outcome.
pub open spec fn written(from: RequestStatus, to: RequestStatus) -> (
    RequestStatus,
    Result<(), LifecycleError>,
) {
    if may_follow(from, to) {
        (to, Ok(()))
    } else if is_terminal(from) {
        (from, Err(LifecycleError::TerminalState))
    } else {
        (from, Err(LifecycleError::InvalidTransition))
    }
}

/// What the dispatch of the request's email does: `sent` says whether the
/// email gateway acknowledged the email, `recorded` whether the expected reply
/// was written.
pub open spec fn dispatched(from: RequestStatus, sent: bool, recorded: bool) -> (
    RequestStatus,
    Result<(), LifecycleError>,
) {
    if from != RequestStatus::Received {
        written(from, RequestStatus::EmailSent)
    } else if !sent {
        (from, Err(LifecycleError::DispatchFailed))
    } else if !recorded {
        (from, Err(LifecycleError::PartialDispatchError))
    } else {
        (RequestStatus::EmailSent, Ok(()))
    }
}

/// What the dispatch of the request's email and the recording of its expected
/// reply do together: the status after them, the expected replies after them,
/// and the outcome. The request goes on and the reply is expected only where
/// the email went out under a message id that was not known; in every other
/// case nothing changes.
pub open spec fn dispatch_recorded(
    from: RequestStatus,
    known: Map<Seq<char>, ReplyState>,
    request_id: u128,
    sent: bool,
    message_id: Option<Seq<char>>,
) -> (RequestStatus, Map<Seq<char>, ReplyState>, Result<(), LifecycleError>) {
    let expected = sent && message_id is Some && recorded(
        known,
        message_id->Some_0,
        request_id,
    ).0 is Ok;
    let (status, outcome) = dispatched(from, sent, expected);
    if outcome is Ok {
        (status, recorded(known, message_id->Some_0, request_id).1, outcome)
    } else {
        (status, known, outcome)
    }
}

/// A dispatch that is refused leaves the request and the expected replies as
/// they were: a half-done dispatch does not advance the request.
pub proof fn lemma_refused_dispatch_changes_nothing(
    from: RequestStatus,
    known: Map<Seq<char>, ReplyState>,
    request_id: u128,
    sent: bool,
    message_id: Option<Seq<char>>,
)
    requires
        dispatch_recorded(from, known, request_id, sent, message_id).2 is Err,
    ensures
        dispatch_recorded(from, known, request_id, sent, message_id).0 == from,
        dispatch_recorded(from, known, request_id, sent, message_id).1 == known,
{
}

/// What a matching reply does to a request.
pub open spec fn replied(from: RequestStatus) -> (RequestStatus, Result<(), LifecycleError>) {
    match from {
        RequestStatus::EmailSent => (RequestStatus::Replied, Ok(())),
        RequestStatus::Received => (from, Err(LifecycleError::InvalidTransition)),
        _ => (from, Err(LifecycleError::DuplicateReply)),
    }
}

/// What the end of the request's action does to it.
pub open spec fn finished(from: RequestStatus, succeeded: bool) -> (
    RequestStatus,
    Result<(), LifecycleError>,
) {
    written(
        from,
        if succeeded {
            RequestStatus::Completed
        } else {
            RequestStatus::Errored
        },
    )
}

/// A final status stays: no write, dispatch, reply or end of an action changes
/// a completed or errored request, and each of them is refused.
pub proof fn lemma_terminal_is_final(
    from: RequestStatus,
    to: RequestStatus,
    sent: bool,
    recorded: bool,
    succeeded: bool,
)
    requires
        is_terminal(from),
    ensures
        written(from, to) == (from, Err::<(), LifecycleError>(LifecycleError::TerminalState)),
        dispatched(from, sent, recorded) == (
            from,
            Err::<(), LifecycleError>(LifecycleError::TerminalState),
        ),
        replied(from) == (from, Err::<(), LifecycleError>(LifecycleError::DuplicateReply)),
        finished(from, succeeded) == (
            from,
            Err::<(), LifecycleError>(LifecycleError::TerminalState),
        ),
{
}

/// A refused step changes nothing, and an accepted one follows the
/// transitions of the lifecycle.
pub proof fn lemma_steps_follow_lifecycle(
    from: RequestStatus,
    to: RequestStatus,
    sent: bool,
    recorded: bool,
    succeeded: bool,
)
    ensures
        written(from, to).1 is Err ==> written(from, to).0 == from,
        written(from, to).1 is Ok ==> may_follow(from, written(from, to).0),
        dispatched(from, sent, recorded).1 is Err ==> dispatched(from, sent, recorded).0 == from,
        dispatched(from, sent, recorded).1 is Ok ==> from == RequestStatus::Received && sent
            && recorded && dispatched(from, sent, recorded).0 == RequestStatus::EmailSent,
        replied(from).1 is Err ==> replied(from).0 == from,
        replied(from).1 is Ok ==> from == RequestStatus::EmailSent && replied(from).0
            == RequestStatus::Replied,
        finished(from, succeeded).1 is Err ==> finished(from, succeeded).0 == from,
        finished(from, succeeded).1 is Ok ==> may_follow(from, finished(from, succeeded).0),
{
}

/// A second matching reply is a duplicate: after one accepted reply, the next
/// is refused and changes nothing.
pub proof fn lemma_second_reply_is_duplicate(from: RequestStatus)
    requires
        replied(from).1 is Ok,
    ensures
        replied(replied(from).0) == (
            RequestStatus::Replied,
            Err::<(), LifecycleError>(LifecycleError::DuplicateReply),
        ),
{
}

/// The text under which a status is stored.
pub open spec fn status_text(status: RequestStatus) -> Seq<char> {
    match status {
        RequestStatus::Received => "Received"@,
        RequestStatus::EmailSent => "EmailSent"@,
        RequestStatus::Replied => "Replied"@,
        RequestStatus::Completed => "Completed"@,
        RequestStatus::Errored => "Errored"@,
    }
}

/// The status that a stored text stands for, where it stands for one.
pub open spec fn text_status(text: Seq<char>) -> Option<RequestStatus> {
    if text == "Received"@ {
        Some(RequestStatus::Received)
    } else if text == "EmailSent"@ {
        Some(RequestStatus::EmailSent)
    } else if text == "Replied"@ {
        Some(RequestStatus::Replied)
    } else if text == "Completed"@ {
        Some(RequestStatus::Completed)
    } else if text == "Errored"@ {
        Some(RequestStatus::Errored)
    } else {
        None
    }
}

/// The five texts are five different texts.
proof fn lemma_status_texts_differ()
    ensures
        "Received"@ != "EmailSent"@,
        "Received"@ != "Replied"@,
        "Received"@ != "Completed"@,
        "Received"@ != "Errored"@,
        "EmailSent"@ != "Replied"@,
        "EmailSent"@ != "Completed"@,
        "EmailSent"@ != "Errored"@,
        "Replied"@ != "Completed"@,
        "Replied"@ != "Errored"@,
        "Completed"@ != "Errored"@,
{
    reveal_strlit("Received");
    reveal_strlit("EmailSent");
    reveal_strlit("Replied");
    reveal_strlit("Completed");
    reveal_strlit("Errored");
    assert("Received"@[2] == 'c');
    assert("EmailSent"@[0] == 'E' && "EmailSent"@[1] == 'm');
    assert("Replied"@[2] == 'p');
    assert("Completed"@[0] == 'C');
    assert("Errored"@[0] == 'E' && "Errored"@[1] == 'r');
}

/// A status that is stored is read back as it was.
pub proof fn lemma_status_text_round_trip(status: RequestStatus)
    ensures
        text_status(status_text(status)) == Some(status),
{
    lemma_status_texts_differ();
}

impl RequestStatus {
    /// The text under which this status is stored.
    pub fn as_text(&self) -> (text: &'static str)
        ensures
            text@ == status_text(*self),
    {
        match self {
            RequestStatus::Received => "Received",
            RequestStatus::EmailSent => "EmailSent",
            RequestStatus::Replied => "Replied",
            RequestStatus::Completed => "Completed",
            RequestStatus::Errored => "Errored",
        }
    }

    /// The status that a stored text stands for, or `None` for any other
    /// text.
    pub fn from_text(text: &str) -> (status: Option<RequestStatus>)
        ensures
            status == text_status(text@),
    {
        let given = String::from_str(text);
        if given == String::from_str("Received") {
            Some(RequestStatus::Received)
        } else if given == String::from_str("EmailSent") {
            Some(RequestStatus::EmailSent)
        } else if given == String::from_str("Replied") {
            Some(RequestStatus::Replied)
        } else if given == String::from_str("Completed") {
            Some(RequestStatus::Completed)
        } else if given == String::from_str("Errored") {
            Some(RequestStatus::Errored)
        } else {
            None
        }
    }

    /// Whether this status is final.
    pub fn is_terminal(&self) -> (yes: bool)
        ensures
            yes == is_terminal(*self),
    {
        match self {
            RequestStatus::Completed => true,
            RequestStatus::Errored => true,
            _ => false,
        }
    }

    /// Whether `to` may follow this status.
    pub fn may_be_followed_by(&self, to: RequestStatus) -> (yes: bool)
        ensures
            yes == may_follow(*self, to),
    {
        match self {
            RequestStatus::Received => match to {
                RequestStatus::EmailSent => true,
                RequestStatus::Completed => true,
                RequestStatus::Errored => true,
                _ => false,
            },
            RequestStatus::EmailSent => match to {
                RequestStatus::Replied => true,
                _ => false,
            },
            RequestStatus::Replied => to.is_terminal(),
            RequestStatus::Completed => false,
            RequestStatus::Errored => false,
        }
    }
}

impl Request {
    /// The request's identifier.
    pub closed spec fn spec_id(&self) -> u128 {
        self.id
    }

    /// The request's status.
    pub closed spec fn spec_status(&self) -> RequestStatus {
        self.status
    }

    /// What the request calls on the chain, if anything.
    pub closed spec fn spec_chain_call_spec(&self) -> Option<ChainCallSpec> {
        self.chain_call_spec
    }

    /// A request as it is when its command has just been parsed.
    pub fn new(id: u128, chain_call_spec: Option<ChainCallSpec>) -> (request: Self)
        ensures
            request.spec_id() == id,
            request.spec_status() == RequestStatus::Received,
            request.spec_chain_call_spec() == chain_call_spec,
    {
        Request { id, status: RequestStatus::Received, chain_call_spec }
    }

    /// The request's identifier.
    pub fn id(&self) -> (id: u128)
        ensures
            id == self.spec_id(),
    {
        self.id
    }

    /// The request's status.
    pub fn status(&self) -> (status: RequestStatus)
        ensures
            status == self.spec_status(),
    {
        self.status
    }

    /// What the request calls on the chain, if anything.
    pub fn chain_call_spec(&self) -> (spec: &Option<ChainCallSpec>)
        ensures
            *spec == self.spec_chain_call_spec(),
    {
        &self.chain_call_spec
    }

    /// Writes a status, where the lifecycle allows it.
    pub fn update_status(&mut self, to: RequestStatus) -> (outcome: Result<(), LifecycleError>)
        ensures
            final(self).spec_id() == old(self).spec_id(),
            final(self).spec_chain_call_spec() == old(self).spec_chain_call_spec(),
            (final(self).spec_status(), outcome) == written(old(self).spec_status(), to),
    {
        if self.status.may_be_followed_by(to) {
            self.status = to;
            Ok(())
        } else if self.status.is_terminal() {
            Err(LifecycleError::TerminalState)
        } else {
            Err(LifecycleError::InvalidTransition)
        }
    }

    /// Takes note of the dispatch of the request's email. The request goes to
    /// `EmailSent` only where the email went out and the expected reply was
    /// recorded; it stays as it is otherwise.
    pub fn on_dispatch(&mut self, sent: bool, recorded: bool) -> (outcome: Result<
        (),
        LifecycleError,
    >)
        ensures
            final(self).spec_id() == old(self).spec_id(),
            final(self).spec_chain_call_spec() == old(self).spec_chain_call_spec(),
            (final(self).spec_status(), outcome) == dispatched(
                old(self).spec_status(),
                sent,
                recorded,
            ),
    {
        match self.status {
            RequestStatus::Received => {
                if !sent {
                    Err(LifecycleError::DispatchFailed)
                } else if !recorded {
                    Err(LifecycleError::PartialDispatchError)
                } else {
                    self.status = RequestStatus::EmailSent;
                    Ok(())
                }
            },
            _ => self.update_status(RequestStatus::EmailSent),
        }
    }

    /// Takes note of the dispatch of the request's email and records the
    /// expected reply, as one step: either both happen or neither does.
    ///
    /// `sent` says whether the email gateway acknowledged the email,
    /// `message_id` which id it gave to the email.
    pub fn record_dispatch(
        &mut self,
        correlator: &mut ReplyCorrelator,
        sent: bool,
        message_id: Option<&str>,
    ) -> (outcome: Result<(), LifecycleError>)
        requires
            old(correlator).well_formed(),
        ensures
            final(correlator).well_formed(),
            final(self).spec_id() == old(self).spec_id(),
            final(self).spec_chain_call_spec() == old(self).spec_chain_call_spec(),
            (final(self).spec_status(), final(correlator)@, outcome) == dispatch_recorded(
                old(self).spec_status(),
                old(correlator)@,
                old(self).spec_id(),
                sent,
                match message_id {
                    Some(id) => Some(id@),
                    None => None,
                },
            ),
    {
        match self.status {
            RequestStatus::Received => {},
            _ => {
                return self.on_dispatch(sent, false);
            },
        }
        if !sent {
            return self.on_dispatch(false, false);
        }
        let recorded = match message_id {
            Some(id) => correlator.record_expectation(id, self.id).is_ok(),
            None => false,
        };
        self.on_dispatch(true, recorded)
    }

    /// Takes note of a reply that the correlator matched to this request.
    pub fn on_reply(&mut self) -> (outcome: Result<(), LifecycleError>)
        ensures
            final(self).spec_id() == old(self).spec_id(),
            final(self).spec_chain_call_spec() == old(self).spec_chain_call_spec(),
            (final(self).spec_status(), outcome) == replied(old(self).spec_status()),
    {
        match self.status {
            RequestStatus::EmailSent => {
                self.status = RequestStatus::Replied;
                Ok(())
            },
            RequestStatus::Received => Err(LifecycleError::InvalidTransition),
            _ => Err(LifecycleError::DuplicateReply),
        }
    }

    /// Takes note of the end of the request's action.
    pub fn on_finish(&mut self, succeeded: bool) -> (outcome: Result<(), LifecycleError>)
        ensures
            final(self).spec_id() == old(self).spec_id(),
            final(self).spec_chain_call_spec() == old(self).spec_chain_call_spec(),
            (final(self).spec_status(), outcome) == finished(old(self).spec_status(), succeeded),
    {
        if succeeded {
            self.update_status(RequestStatus::Completed)
        } else {
            self.update_status(RequestStatus::Errored)
        }
    }
}

} // verus!
