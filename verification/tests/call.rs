use mempool_proxy::call::{CallEvent, CallState, OutOfTurn};
use mempool_proxy::proxy::MempoolProxy;
use std::sync::Arc;

type State = CallState<u32, String>;
type Event = CallEvent<u32, String>;

fn error(message: &str) -> String {
    message.to_string()
}

#[test]
fn new_call_is_pending() {
    let call: State = CallState::new();
    assert_eq!(call, CallState::Pending);
    assert!(!call.is_over());
}

#[test]
fn accepted_call_is_submitted() {
    let call: State = CallState::new();
    let call = call.step(CallEvent::Accepted).unwrap();
    assert_eq!(call, CallState::Submitted);
    assert!(!call.is_over());
}

#[test]
fn synchronous_rejection_surfaces() {
    let call: State = CallState::new();
    let call = call.step(CallEvent::Refused(error("channel closed"))).unwrap();
    assert_eq!(call, CallState::LocalFailed(error("channel closed")));
    assert!(call.is_over());
    assert_eq!(call.into_outcome(), Ok(Err(error("channel closed"))));
}

#[test]
fn asynchronous_failure_surfaces() {
    let call: State = CallState::new();
    let call = call.step(CallEvent::Accepted).unwrap();
    let call = call.step(CallEvent::Failed(error("deadline exceeded"))).unwrap();
    assert_eq!(call, CallState::TransportFailed(error("deadline exceeded")));
    assert!(call.is_over());
    assert_eq!(call.into_outcome(), Ok(Err(error("deadline exceeded"))));
}

#[test]
fn completed_call_resolves_to_its_value() {
    let call: State = CallState::new();
    let call = call.step(CallEvent::Accepted).unwrap();
    let call = call.step(CallEvent::Completed(17)).unwrap();
    assert_eq!(call, CallState::Resolved(17));
    assert!(call.is_over());
    assert_eq!(call.into_outcome(), Ok(Ok(17)));
}

#[test]
fn call_that_is_not_over_has_no_outcome() {
    let pending: State = CallState::Pending;
    assert_eq!(pending.into_outcome(), Err(CallState::Pending));
    let submitted: State = CallState::Submitted;
    assert_eq!(submitted.into_outcome(), Err(CallState::Submitted));
}

#[test]
fn pending_call_cannot_complete_or_fail() {
    let call: State = CallState::new();
    assert_eq!(
        call.step(CallEvent::Completed(1)),
        Err(OutOfTurn { state: CallState::Pending, event: CallEvent::Completed(1) })
    );
    let call: State = CallState::new();
    assert_eq!(
        call.step(CallEvent::Failed(error("late"))),
        Err(OutOfTurn { state: CallState::Pending, event: CallEvent::Failed(error("late")) })
    );
}

#[test]
fn submitted_call_cannot_be_submitted_again() {
    let call: State = CallState::Submitted;
    assert_eq!(
        call.step(CallEvent::Accepted),
        Err(OutOfTurn { state: CallState::Submitted, event: CallEvent::Accepted })
    );
    let call: State = CallState::Submitted;
    assert_eq!(
        call.step(CallEvent::Refused(error("no"))),
        Err(OutOfTurn { state: CallState::Submitted, event: CallEvent::Refused(error("no")) })
    );
}

fn events() -> Vec<Event> {
    vec![
        CallEvent::Accepted,
        CallEvent::Refused(error("r")),
        CallEvent::Completed(5),
        CallEvent::Failed(error("f")),
    ]
}

#[test]
fn nothing_happens_to_a_call_that_is_over() {
    for event in events() {
        let call: State = CallState::Resolved(3);
        assert!(matches!(call.step(event), Err(OutOfTurn { state: CallState::Resolved(3), .. })));
    }
    for event in events() {
        let call: State = CallState::TransportFailed(error("t"));
        assert!(matches!(
            call.step(event),
            Err(OutOfTurn { state: CallState::TransportFailed(_), .. })
        ));
    }
    for event in events() {
        let call: State = CallState::LocalFailed(error("l"));
        assert!(matches!(
            call.step(event),
            Err(OutOfTurn { state: CallState::LocalFailed(_), .. })
        ));
    }
}

#[test]
fn event_out_of_turn_comes_back_unchanged() {
    let call: State = CallState::TransportFailed(error("first"));
    let refused = call.step(CallEvent::Failed(error("second"))).unwrap_err();
    assert_eq!(refused.state, CallState::TransportFailed(error("first")));
    assert_eq!(refused.event, CallEvent::Failed(error("second")));
}

#[test]
fn proxy_holds_the_client_it_was_given() {
    let client = Arc::new(String::from("mempool"));
    let proxy = MempoolProxy::new(Arc::clone(&client));
    assert!(Arc::ptr_eq(proxy.mempool(), &client));
    assert_eq!(Arc::strong_count(&client), 2);
}
