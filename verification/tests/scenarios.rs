use wasi_http_bridge::adapter::adapt_response;
use wasi_http_bridge::bridge::RequestLifecycle;
use wasi_http_bridge::bridge::prepare;
use wasi_http_bridge::completion::GuestTermination;
use wasi_http_bridge::completion::ResponseOutparam;
use wasi_http_bridge::errors::BridgeError;
use wasi_http_bridge::errors::ErrorCode;
use wasi_http_bridge::guest_echo::sample_guest_handle;
use wasi_http_bridge::http_model::Header;
use wasi_http_bridge::http_model::RequestParts;
use wasi_http_bridge::http_model::collect_chunks;
use wasi_http_bridge::policy::CapabilityTable;
use wasi_http_bridge::policy::DirPerms;
use wasi_http_bridge::policy::OutboundDecision;

fn table() -> CapabilityTable {
    CapabilityTable {
        fs_root: String::from("."),
        fs_perms: DirPerms::ReadOnly,
        capture_limit: 4096,
        rejected_authority: Some(String::from("blocked.example:8080")),
        forbidden_headers: vec![String::from("custom-forbidden-header")],
        has_interceptor: false,
    }
}

fn get_test_path(headers: Vec<Header>) -> RequestParts {
    RequestParts {
        method: String::from("GET"),
        authority: Some(String::from("example.com:8080")),
        path_with_query: Some(String::from("/test-path")),
        headers,
    }
}

#[test]
fn echo_scenario_end_to_end() {
    let request = get_test_path(vec![]);
    let (context, guest_request) =
        prepare(table(), request, true).expect("clean request must prepare");

    // The guest task: it delivers through the outparam, then streams.
    let mut outparam = ResponseOutparam::new();
    let body_chunks = sample_guest_handle(
        &guest_request,
        &mut outparam,
        String::from("sample file contents\n"),
    );

    // The host task: first await point is the signal, second the task end.
    let mut lifecycle = RequestLifecycle::dispatch();
    lifecycle.observe_signal(outparam.into_signal());
    lifecycle.observe_termination(GuestTermination::Completed);
    let (outcome, captured) = lifecycle.finish(context);

    let meta = outcome.expect("echo guest delivers a response");
    assert_eq!(meta.status, 200);
    let response = adapt_response(meta, body_chunks);
    assert_eq!(response.status, 200);
    let body = collect_chunks(&response.body_chunks);
    assert!(body.contains("Hello, you pinged /test-path!"));
    assert_eq!(body, "Hello, you pinged /test-path!\nsample file contents\n");
    assert_eq!(captured.stdout, "");
    assert_eq!(captured.stderr, "");
}

#[test]
fn forbidden_inbound_header_with_blocked_outbound_call() {
    // The forbidden-header denylist applies to outbound calls, not to
    // inbound delivery: the same header on the inbound request does not
    // stop the request from being served.
    let request = get_test_path(vec![Header {
        name: String::from("custom-forbidden-header"),
        value: String::from("yes"),
    }]);
    let capability_table = table();
    let (context, guest_request) =
        prepare(capability_table, request, true).expect("inbound delivery is unaffected");

    // The guest attempts an outbound call to the blocked authority: denied,
    // never dispatched.
    let outbound = RequestParts {
        method: String::from("GET"),
        authority: Some(String::from("blocked.example:8080")),
        path_with_query: Some(String::from("/")),
        headers: vec![],
    };
    let decision = context.table().check_outbound(&outbound);
    assert_eq!(decision, OutboundDecision::Deny(ErrorCode::RequestDenied));

    // The inbound response handling is unaffected by the denied call.
    let mut outparam = ResponseOutparam::new();
    let body_chunks =
        sample_guest_handle(&guest_request, &mut outparam, String::from("file\n"));
    let mut lifecycle = RequestLifecycle::dispatch();
    lifecycle.observe_signal(outparam.into_signal());
    lifecycle.observe_termination(GuestTermination::Completed);
    let (outcome, _captured) = lifecycle.finish(context);
    let meta = outcome.expect("response still delivered");
    assert_eq!(meta.status, 200);
    let body = collect_chunks(&body_chunks);
    assert!(body.contains("Hello, you pinged /test-path!"));
}

#[test]
fn outbound_call_carrying_forbidden_header_is_rejected() {
    // The other interpretation: the forbidden header on the outbound call
    // itself is rejected before transmission.
    let outbound = RequestParts {
        method: String::from("GET"),
        authority: Some(String::from("example.com:80")),
        path_with_query: Some(String::from("/")),
        headers: vec![Header {
            name: String::from("custom-forbidden-header"),
            value: String::from("yes"),
        }],
    };
    let decision = table().check_outbound(&outbound);
    assert_eq!(decision, OutboundDecision::Deny(ErrorCode::ForbiddenHeader));
}

#[test]
fn abandoned_guest_is_reported_not_hung() {
    let request = get_test_path(vec![]);
    let (context, _guest_request) = prepare(table(), request, true).expect("prepares");

    // The guest terminates without ever setting the outparam, though it
    // already streamed body data.
    let outparam = ResponseOutparam::new();
    let _streamed_before_abandonment = vec![String::from("partial body")];

    let mut lifecycle = RequestLifecycle::dispatch();
    lifecycle.observe_signal(outparam.into_signal());
    lifecycle.observe_termination(GuestTermination::Completed);
    let (outcome, _captured) = lifecycle.finish(context);
    assert_eq!(outcome.map(|m| m.status), Err(BridgeError::GuestAbandoned));
}

#[test]
fn trapped_guest_is_an_execution_fault() {
    let request = get_test_path(vec![]);
    let (context, _guest_request) = prepare(table(), request, true).expect("prepares");
    let outparam = ResponseOutparam::new();
    let mut lifecycle = RequestLifecycle::dispatch();
    lifecycle.observe_signal(outparam.into_signal());
    lifecycle.observe_termination(GuestTermination::Trapped);
    let (outcome, _captured) = lifecycle.finish(context);
    assert_eq!(outcome.map(|m| m.status), Err(BridgeError::GuestExecutionFault));
}

#[test]
fn unopenable_root_is_a_configuration_error() {
    let request = get_test_path(vec![]);
    match prepare(table(), request, false) {
        Err(BridgeError::Configuration) => {}
        _ => panic!("configuration error expected"),
    }
}

#[test]
fn malformed_header_stops_adaptation() {
    let request = get_test_path(vec![Header {
        name: String::from("bad header name"),
        value: String::from("v"),
    }]);
    match prepare(table(), request, true) {
        Err(BridgeError::MalformedHeader) => {}
        _ => panic!("malformed header expected"),
    }
}

#[test]
fn guest_without_path_echoes_the_note() {
    let request = RequestParts {
        method: String::from("GET"),
        authority: None,
        path_with_query: None,
        headers: vec![],
    };
    let (_context, guest_request) = prepare(table(), request, true).expect("prepares");
    let mut outparam = ResponseOutparam::new();
    let body_chunks = sample_guest_handle(&guest_request, &mut outparam, String::new());
    let body = collect_chunks(&body_chunks);
    assert_eq!(body, "Hello, you pinged no request query path!\n");
}
