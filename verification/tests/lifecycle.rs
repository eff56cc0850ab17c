use relayer::correlator::{CorrelationError, ReplyCorrelator};
use relayer::mail::{check_is_valid_request, EmailHeaders};
use relayer::request::{LifecycleError, Request, RequestStatus};

const R1: u128 = 0x0123_4567_89ab_cdef_0123_4567_89ab_cdef;

fn headers(entries: &[(&str, &[&str])]) -> EmailHeaders {
    EmailHeaders {
        entries: entries
            .iter()
            .map(|(n, v)| (n.to_string(), v.iter().map(|s| s.to_string()).collect()))
            .collect(),
    }
}

#[test]
fn reply_is_resolved_once() {
    let mut correlator = ReplyCorrelator::new();
    assert_eq!(correlator.record_expectation("M1", 1), Ok(()));
    assert_eq!(correlator.resolve(Some("M1")), Some(1));
    assert_eq!(correlator.resolve(Some("M1")), None);
}

#[test]
fn recover_account_scenario() {
    let mut correlator = ReplyCorrelator::new();
    let mut request = Request::new(R1, None);
    assert_eq!(request.id(), R1);
    assert_eq!(request.status(), RequestStatus::Received);
    assert_eq!(request.record_dispatch(&mut correlator, true, Some("M1")), Ok(()));
    assert_eq!(request.status(), RequestStatus::EmailSent);
    assert!(correlator.is_awaited("M1"));

    let first = correlator.resolve(Some("M1"));
    assert_eq!(first, Some(R1));
    assert_eq!(request.on_reply(), Ok(()));
    assert_eq!(request.status(), RequestStatus::Replied);

    assert_eq!(correlator.resolve(Some("M1")), None);
    assert!(!correlator.is_awaited("M1"));
    assert_eq!(request.on_reply(), Err(LifecycleError::DuplicateReply));
    assert_eq!(request.status(), RequestStatus::Replied);
}

#[test]
fn unknown_or_missing_reference_resolves_to_nothing() {
    let mut correlator = ReplyCorrelator::new();
    correlator.record_expectation("M1", 1).unwrap();
    assert_eq!(correlator.resolve(None), None);
    assert_eq!(correlator.resolve(Some("M2")), None);
    assert_eq!(correlator.resolve(Some("m1")), None);
    assert_eq!(correlator.resolve(Some("")), None);
    assert!(correlator.is_awaited("M1"));
    assert!(!correlator.is_awaited("M2"));
    assert_eq!(correlator.resolve(Some("M1")), Some(1));
}

#[test]
fn message_id_is_recorded_once() {
    let mut correlator = ReplyCorrelator::new();
    assert_eq!(correlator.record_expectation("M1", 1), Ok(()));
    assert_eq!(
        correlator.record_expectation("M1", 2),
        Err(CorrelationError::DuplicateMessageId)
    );
    assert_eq!(correlator.resolve(Some("M1")), Some(1));
    assert_eq!(
        correlator.record_expectation("M1", 3),
        Err(CorrelationError::DuplicateMessageId)
    );
    assert_eq!(correlator.resolve(Some("M1")), None);
}

#[test]
fn replies_are_resolved_apart() {
    let mut correlator = ReplyCorrelator::new();
    correlator.record_expectation("M1", 1).unwrap();
    correlator.record_expectation("M2", 2).unwrap();
    correlator.record_expectation("M3", 1).unwrap();
    assert_eq!(correlator.resolve(Some("M2")), Some(2));
    assert_eq!(correlator.resolve(Some("M1")), Some(1));
    assert_eq!(correlator.resolve(Some("M2")), None);
    assert_eq!(correlator.resolve(Some("M3")), Some(1));
}

#[test]
fn completed_request_rejects_reply() {
    let mut request = Request::new(7, None);
    assert_eq!(request.on_finish(true), Ok(()));
    assert_eq!(request.status(), RequestStatus::Completed);
    assert_eq!(request.on_reply(), Err(LifecycleError::DuplicateReply));
    assert_eq!(request.status(), RequestStatus::Completed);
}

#[test]
fn terminal_status_is_final() {
    for succeeded in [true, false] {
        let terminal =
            if succeeded { RequestStatus::Completed } else { RequestStatus::Errored };
        let all = [
            RequestStatus::Received,
            RequestStatus::EmailSent,
            RequestStatus::Replied,
            RequestStatus::Completed,
            RequestStatus::Errored,
        ];
        for to in all {
            let mut request = Request::new(7, None);
            request.on_finish(succeeded).unwrap();
            assert_eq!(request.update_status(to), Err(LifecycleError::TerminalState));
            assert_eq!(request.status(), terminal);
        }
        let mut request = Request::new(7, None);
        request.on_finish(succeeded).unwrap();
        assert_eq!(request.on_dispatch(true, true), Err(LifecycleError::TerminalState));
        assert_eq!(request.on_finish(true), Err(LifecycleError::TerminalState));
        assert_eq!(request.on_finish(false), Err(LifecycleError::TerminalState));
        assert_eq!(request.on_reply(), Err(LifecycleError::DuplicateReply));
        assert_eq!(request.status(), terminal);
        assert!(terminal.is_terminal());
    }
}

#[test]
fn lifecycle_allows_its_transitions_only() {
    let all = [
        RequestStatus::Received,
        RequestStatus::EmailSent,
        RequestStatus::Replied,
        RequestStatus::Completed,
        RequestStatus::Errored,
    ];
    let allowed = [
        (RequestStatus::Received, RequestStatus::EmailSent),
        (RequestStatus::Received, RequestStatus::Completed),
        (RequestStatus::Received, RequestStatus::Errored),
        (RequestStatus::EmailSent, RequestStatus::Replied),
        (RequestStatus::Replied, RequestStatus::Completed),
        (RequestStatus::Replied, RequestStatus::Errored),
    ];
    for from in all {
        for to in all {
            assert_eq!(from.may_be_followed_by(to), allowed.contains(&(from, to)));
        }
    }
    assert!(!RequestStatus::Received.is_terminal());
    assert!(!RequestStatus::EmailSent.is_terminal());
    assert!(!RequestStatus::Replied.is_terminal());
}

#[test]
fn status_write_follows_the_lifecycle() {
    let mut request = Request::new(1, None);
    assert_eq!(
        request.update_status(RequestStatus::Replied),
        Err(LifecycleError::InvalidTransition)
    );
    assert_eq!(request.status(), RequestStatus::Received);
    assert_eq!(request.update_status(RequestStatus::EmailSent), Ok(()));
    assert_eq!(
        request.update_status(RequestStatus::Completed),
        Err(LifecycleError::InvalidTransition)
    );
    assert_eq!(request.update_status(RequestStatus::Replied), Ok(()));
    assert_eq!(request.update_status(RequestStatus::Errored), Ok(()));
    assert_eq!(request.status(), RequestStatus::Errored);
}

#[test]
fn direct_action_ends_a_received_request() {
    let mut done = Request::new(1, None);
    assert_eq!(done.on_finish(true), Ok(()));
    assert_eq!(done.status(), RequestStatus::Completed);
    let mut failed = Request::new(2, None);
    assert_eq!(failed.on_finish(false), Ok(()));
    assert_eq!(failed.status(), RequestStatus::Errored);
    let mut waiting = Request::new(3, None);
    waiting.on_dispatch(true, true).unwrap();
    assert_eq!(waiting.on_finish(true), Err(LifecycleError::InvalidTransition));
    assert_eq!(waiting.status(), RequestStatus::EmailSent);
}

#[test]
fn half_done_dispatch_leaves_the_request_received() {
    let mut request = Request::new(1, None);
    assert_eq!(request.on_dispatch(true, false), Err(LifecycleError::PartialDispatchError));
    assert_eq!(request.status(), RequestStatus::Received);
    assert_eq!(request.on_dispatch(false, false), Err(LifecycleError::DispatchFailed));
    assert_eq!(request.on_dispatch(false, true), Err(LifecycleError::DispatchFailed));
    assert_eq!(request.status(), RequestStatus::Received);
    assert_eq!(request.on_dispatch(true, true), Ok(()));
    assert_eq!(request.status(), RequestStatus::EmailSent);
    assert_eq!(request.on_dispatch(true, true), Err(LifecycleError::InvalidTransition));
}

#[test]
fn reply_before_the_email_is_refused() {
    let mut request = Request::new(1, None);
    assert_eq!(request.on_reply(), Err(LifecycleError::InvalidTransition));
    assert_eq!(request.status(), RequestStatus::Received);
}

#[test]
fn dispatch_and_expectation_go_together() {
    let mut correlator = ReplyCorrelator::new();
    correlator.record_expectation("M0", 99).unwrap();

    let mut unsent = Request::new(1, None);
    assert_eq!(
        unsent.record_dispatch(&mut correlator, false, Some("M1")),
        Err(LifecycleError::DispatchFailed)
    );
    assert_eq!(unsent.status(), RequestStatus::Received);
    assert!(!correlator.is_awaited("M1"));

    let mut nameless = Request::new(2, None);
    assert_eq!(
        nameless.record_dispatch(&mut correlator, true, None),
        Err(LifecycleError::PartialDispatchError)
    );
    assert_eq!(nameless.status(), RequestStatus::Received);

    let mut clash = Request::new(3, None);
    assert_eq!(
        clash.record_dispatch(&mut correlator, true, Some("M0")),
        Err(LifecycleError::PartialDispatchError)
    );
    assert_eq!(clash.status(), RequestStatus::Received);
    assert_eq!(correlator.resolve(Some("M0")), Some(99));

    let mut good = Request::new(4, None);
    assert_eq!(good.record_dispatch(&mut correlator, true, Some("M4")), Ok(()));
    assert_eq!(good.status(), RequestStatus::EmailSent);
    assert_eq!(
        good.record_dispatch(&mut correlator, true, Some("M5")),
        Err(LifecycleError::InvalidTransition)
    );
    assert!(!correlator.is_awaited("M5"));
    assert_eq!(correlator.resolve(Some("M4")), Some(4));
}

#[test]
fn headers_are_found_by_name() {
    let h = headers(&[("Subject", &["hi"]), ("In-Reply-To", &["M1", "M2"]), ("Subject", &["x"])]);
    assert_eq!(h.position("Subject"), Some(0));
    assert_eq!(h.position("In-Reply-To"), Some(1));
    assert_eq!(h.position("in-reply-to"), None);
    assert_eq!(h.get_header("Subject"), Some(&vec!["hi".to_string()]));
    assert_eq!(h.get_header("To"), None);
    assert_eq!(h.in_reply_to(), Some("M1".to_string()));
    assert_eq!(headers(&[("In-Reply-To", &[])]).in_reply_to(), None);
    assert_eq!(headers(&[("In-Reply-To", &[]), ("In-Reply-To", &["M9"])]).in_reply_to(), None);
    assert_eq!(headers(&[]).in_reply_to(), None);
}

#[test]
fn email_that_is_no_reply_is_valid() {
    let mut correlator = ReplyCorrelator::new();
    correlator.record_expectation("M1", 1).unwrap();
    assert!(check_is_valid_request(&headers(&[("Subject", &["hi"])]), &mut correlator));
    assert!(check_is_valid_request(&headers(&[]), &mut correlator));
    assert!(correlator.is_awaited("M1"));
}

#[test]
fn reply_is_valid_once() {
    let mut correlator = ReplyCorrelator::new();
    correlator.record_expectation("M1", 1).unwrap();
    let reply = headers(&[("In-Reply-To", &["M1"])]);
    assert!(check_is_valid_request(&reply, &mut correlator));
    assert!(!check_is_valid_request(&reply, &mut correlator));
    let stranger = headers(&[("In-Reply-To", &["M7"])]);
    assert!(!check_is_valid_request(&stranger, &mut correlator));
}

#[test]
fn status_is_stored_as_text_and_read_back() {
    let all = [
        (RequestStatus::Received, "Received"),
        (RequestStatus::EmailSent, "EmailSent"),
        (RequestStatus::Replied, "Replied"),
        (RequestStatus::Completed, "Completed"),
        (RequestStatus::Errored, "Errored"),
    ];
    for (status, text) in all {
        assert_eq!(status.as_text(), text);
        assert_eq!(RequestStatus::from_text(text), Some(status));
    }
    assert_eq!(RequestStatus::from_text("received"), None);
    assert_eq!(RequestStatus::from_text(""), None);
    assert_eq!(RequestStatus::from_text("Completed "), None);
}
