use wasi_http_bridge::completion::CompletionState;
use wasi_http_bridge::completion::GuestTermination;
use wasi_http_bridge::completion::ResponseOutparam;
use wasi_http_bridge::completion::finish_request;
use wasi_http_bridge::completion::resolve_signal;
use wasi_http_bridge::errors::BridgeError;
use wasi_http_bridge::errors::ErrorCode;
use wasi_http_bridge::http_model::ResponseMeta;

fn meta(status: u16) -> ResponseMeta {
    ResponseMeta { status, headers: Vec::new() }
}

#[test]
fn outparam_first_write_wins() {
    let mut out = ResponseOutparam::new();
    assert!(out.set(Ok(meta(200))));
    assert!(!out.set(Ok(meta(500))));
    match out.into_signal() {
        Some(Ok(m)) => assert_eq!(m.status, 200),
        _ => panic!("first delivery lost"),
    }
}

#[test]
fn outparam_second_error_write_ignored() {
    let mut out = ResponseOutparam::new();
    assert!(out.set(Err(ErrorCode::InternalFault)));
    assert!(!out.set(Ok(meta(200))));
    match out.into_signal() {
        Some(Err(code)) => assert_eq!(code, ErrorCode::InternalFault),
        _ => panic!("first delivery lost"),
    }
}

#[test]
fn unset_outparam_signals_nothing() {
    let out = ResponseOutparam::new();
    assert!(out.into_signal().is_none());
}

#[test]
fn delivered_metadata_resolves_exactly() {
    let mut out = ResponseOutparam::new();
    out.set(Ok(ResponseMeta {
        status: 204,
        headers: vec![wasi_http_bridge::http_model::Header {
            name: String::from("x-marker"),
            value: String::from("v"),
        }],
    }));
    match resolve_signal(out.into_signal()) {
        CompletionState::MetadataDelivered(m) => {
            assert_eq!(m.status, 204);
            assert_eq!(m.headers.len(), 1);
            assert_eq!(m.headers[0].name, "x-marker");
            assert_eq!(m.headers[0].value, "v");
        }
        _ => panic!("metadata not delivered"),
    }
}

#[test]
fn guest_error_code_resolves_to_failure() {
    match resolve_signal(Some(Err(ErrorCode::RequestDenied))) {
        CompletionState::GuestFailed(code) => assert_eq!(code, ErrorCode::RequestDenied),
        _ => panic!("failure not surfaced"),
    }
}

#[test]
fn closed_signal_resolves_to_abandoned() {
    assert!(matches!(resolve_signal(None), CompletionState::GuestAbandoned));
}

#[test]
fn outcome_relays_delivery_on_normal_termination() {
    let outcome = finish_request(Some(Ok(meta(200))), GuestTermination::Completed);
    assert_eq!(outcome.map(|m| m.status), Ok(200));
}

#[test]
fn outcome_is_abandoned_without_delivery() {
    let outcome = finish_request(None, GuestTermination::Completed);
    assert_eq!(outcome.map(|m| m.status), Err(BridgeError::GuestAbandoned));
}

#[test]
fn outcome_surfaces_guest_error_code() {
    let outcome = finish_request(Some(Err(ErrorCode::RequestDenied)), GuestTermination::Completed);
    assert_eq!(outcome.map(|m| m.status), Err(BridgeError::GuestFailed(ErrorCode::RequestDenied)));
}

#[test]
fn trap_outranks_delivery() {
    let outcome = finish_request(Some(Ok(meta(200))), GuestTermination::Trapped);
    assert_eq!(outcome.map(|m| m.status), Err(BridgeError::GuestExecutionFault));
}

#[test]
fn trap_without_delivery_is_execution_fault() {
    let outcome = finish_request(None, GuestTermination::Trapped);
    assert_eq!(outcome.map(|m| m.status), Err(BridgeError::GuestExecutionFault));
}

#[test]
fn exactly_one_outcome_for_every_observation() {
    for termination in [GuestTermination::Completed, GuestTermination::Trapped] {
        for kind in 0..5 {
            let signal = match kind {
                0 => None,
                1 => Some(Err(ErrorCode::RequestDenied)),
                2 => Some(Err(ErrorCode::ForbiddenHeader)),
                3 => Some(Err(ErrorCode::InternalFault)),
                _ => Some(Ok(meta(200))),
            };
            let outcome = finish_request(signal, termination);
            assert!(outcome.is_ok() != outcome.is_err());
        }
    }
}
