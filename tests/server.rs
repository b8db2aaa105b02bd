use coldfusion_ls::config::Config;
use coldfusion_ls::dispatch::Dispatcher;
use coldfusion_ls::protocol::{
    Message, Notification, Outcome, Request, RequestId, Response, INTERNAL_ERROR, INVALID_PARAMS,
    INVALID_REQUEST,
};
use coldfusion_ls::server::{Decoding, FailureKind, HandlerResult, ServerState, Step};

type State = ServerState<(), String>;

fn state() -> State {
    let config: Config<(), String> = Config::new("/ws".to_string(), (), vec![]);
    ServerState::new(config)
}

fn routes() -> (Dispatcher, Dispatcher) {
    let mut requests = Dispatcher::new();
    requests.register("textDocument/completion".to_string());
    let mut notifications = Dispatcher::new();
    notifications.register("$/cancelRequest".to_string());
    notifications.register("textDocument/didOpen".to_string());
    (requests, notifications)
}

fn request(id: i32, method: &str, params: &str) -> Message<String> {
    Message::Request(Request { id: RequestId::Int(id), method: method.to_string(), params: params.to_string() })
}

fn notification(method: &str) -> Message<String> {
    Message::Notification(Notification { method: method.to_string(), params: String::new() })
}

fn error_of(resp: &Response<String>) -> (i32, String) {
    match &resp.outcome {
        Outcome::Error(e) => (e.code, e.message.clone()),
        _ => panic!("expected an error response"),
    }
}

#[test]
fn completion_session_end_to_end() {
    let mut s = state();
    let (rq, nt) = routes();

    let step = s.handle(request(1, "textDocument/completion", "{\"pos\":1}"), 10, &rq, &nt);
    let (handler, id) = match step {
        Step::RunRequest { handler, id, params } => {
            assert_eq!(params, "{\"pos\":1}");
            (handler, id)
        }
        _ => panic!("completion was not dispatched"),
    };
    assert_eq!(handler, 0);
    assert!(s.is_pending(&RequestId::Int(1)));
    let resp = s.finish_request(id, HandlerResult::Done("[items]".to_string()));
    assert!(matches!(resp.id, RequestId::Int(1)));
    assert!(matches!(resp.outcome, Outcome::Value(ref v) if v == "[items]"));
    assert!(!s.is_pending(&RequestId::Int(1)));

    let step = s.handle(request(1, "textDocument/completion", "{}"), 11, &rq, &nt);
    let id = match step {
        Step::RunRequest { id, .. } => id,
        _ => panic!("completion was not dispatched"),
    };
    let resp = s.finish_request(
        id,
        HandlerResult::Undecodable { diagnostic: "missing field `position`".to_string(), params: "{}".to_string() },
    );
    assert!(matches!(resp.id, RequestId::Int(1)));
    match &resp.outcome {
        Outcome::Error(e) => {
            assert_eq!(e.code, INVALID_PARAMS);
            assert_eq!(e.code, -32602);
            assert_eq!(e.message, "missing field `position`");
            assert_eq!(e.data.as_deref(), Some("{}"));
        }
        _ => panic!("expected InvalidParams"),
    }

    let step = s.handle(request(2, "shutdown", ""), 12, &rq, &nt);
    let id = match step {
        Step::RunShutdown { id, .. } => id,
        _ => panic!("shutdown was not handed to decoding"),
    };
    assert!(!s.is_shutdown_requested());
    let resp = s.finish_shutdown(id, Decoding::<String>::Decoded);
    assert!(matches!(resp.id, RequestId::Int(2)));
    assert!(matches!(resp.outcome, Outcome::Null));
    assert!(s.is_shutdown_requested());
    assert!(!s.is_pending(&RequestId::Int(2)));

    let step = s.handle(request(3, "textDocument/completion", "{\"pos\":1}"), 13, &rq, &nt);
    match step {
        Step::Reply(resp) => {
            assert!(matches!(resp.id, RequestId::Int(3)));
            assert_eq!(error_of(&resp), (INVALID_REQUEST, "Shutdown already requested".to_string()));
            assert_eq!(INVALID_REQUEST, -32600);
        }
        _ => panic!("request after shutdown was not rejected"),
    }
    assert!(!s.is_pending(&RequestId::Int(3)));

    assert!(matches!(s.handle(notification("exit"), 14, &rq, &nt), Step::Exit));
}

#[test]
fn exit_is_never_dispatched() {
    let mut s = state();
    let mut rq = Dispatcher::new();
    rq.register("textDocument/completion".to_string());
    let mut nt = Dispatcher::new();
    nt.register("exit".to_string());
    assert!(matches!(s.handle(notification("exit"), 0, &rq, &nt), Step::Exit));
    assert!(!s.is_shutdown_requested());
}

#[test]
fn notifications_go_to_first_registration() {
    let mut s = state();
    let (rq, mut nt) = routes();
    nt.register("textDocument/didOpen".to_string());
    match s.handle(notification("textDocument/didOpen"), 0, &rq, &nt) {
        Step::RunNotification { handler, .. } => assert_eq!(handler, 1),
        _ => panic!("didOpen was not dispatched"),
    }
}

#[test]
fn unknown_messages_are_finished_quietly() {
    let mut s = state();
    let (rq, nt) = routes();
    assert!(matches!(s.handle(notification("workspace/unknown"), 0, &rq, &nt), Step::Done));
    assert!(matches!(s.handle(request(7, "workspace/unknown", ""), 0, &rq, &nt), Step::Done));
    assert!(!s.is_pending(&RequestId::Int(7)));
    let response = Message::Response(Response { id: RequestId::Int(9), outcome: Outcome::<String>::Null });
    assert!(matches!(s.handle(response, 0, &rq, &nt), Step::Done));
}

#[test]
fn cancel_removes_entry_or_does_nothing() {
    let mut s = state();
    let (rq, nt) = routes();
    let _ = s.handle(request(4, "textDocument/completion", ""), 0, &rq, &nt);
    let text_id = RequestId::Text("4".to_string());
    let _ = s.handle(
        Message::Request(Request { id: text_id.duplicate(), method: "textDocument/completion".to_string(), params: String::new() }),
        0,
        &rq,
        &nt,
    );
    assert!(s.is_pending(&RequestId::Int(4)));
    assert!(s.is_pending(&text_id));
    s.cancel(&RequestId::Int(4));
    assert!(!s.is_pending(&RequestId::Int(4)));
    assert!(s.is_pending(&text_id));
    s.cancel(&RequestId::Int(4));
    assert!(!s.is_pending(&RequestId::Int(4)));
    assert!(s.is_pending(&text_id));
}

#[test]
fn duplicate_id_keeps_one_entry() {
    let mut s = state();
    let (rq, nt) = routes();
    let _ = s.handle(request(5, "textDocument/completion", ""), 0, &rq, &nt);
    let _ = s.handle(request(5, "textDocument/completion", ""), 1, &rq, &nt);
    let resp = s.finish_request(RequestId::Int(5), HandlerResult::Done(String::new()));
    assert!(matches!(resp.id, RequestId::Int(5)));
    assert!(!s.is_pending(&RequestId::Int(5)));
}

#[test]
fn handler_failures_map_to_codes() {
    let mut s = state();
    let r = s.finish_request(
        RequestId::Int(1),
        HandlerResult::<String>::Failed { kind: FailureKind::BadRequest, message: "bad".to_string() },
    );
    assert_eq!(error_of(&r), (-32600, "bad".to_string()));
    let r = s.finish_request(
        RequestId::Int(2),
        HandlerResult::<String>::Failed { kind: FailureKind::Internal, message: "boom".to_string() },
    );
    assert_eq!(error_of(&r), (INTERNAL_ERROR, "boom".to_string()));
    assert_eq!(INTERNAL_ERROR, -32603);
}

#[test]
fn ids_of_different_kinds_differ() {
    assert!(!RequestId::Int(1).same_as(&RequestId::Text("1".to_string())));
    assert!(RequestId::Text("a".to_string()).same_as(&RequestId::Text("a".to_string())));
    assert!(!RequestId::Int(1).same_as(&RequestId::Int(2)));
}

fn shut_down(s: &mut State, id: i32) {
    let (rq, nt) = routes();
    match s.handle(request(id, "shutdown", ""), 0, &rq, &nt) {
        Step::RunShutdown { id, .. } => {
            let resp = s.finish_shutdown(id, Decoding::<String>::Decoded);
            assert!(matches!(resp.outcome, Outcome::Null));
        }
        _ => panic!("shutdown was not handed to decoding"),
    }
}

#[test]
fn shutdown_twice_is_answered_normally() {
    let mut s = state();
    shut_down(&mut s, 1);
    shut_down(&mut s, 2);
    assert!(s.is_shutdown_requested());
}

#[test]
fn undecodable_shutdown_is_invalid_params() {
    let mut s = state();
    let (rq, nt) = routes();
    let id = match s.handle(request(8, "shutdown", "[1]"), 0, &rq, &nt) {
        Step::RunShutdown { id, params } => {
            assert_eq!(params, "[1]");
            id
        }
        _ => panic!("shutdown was not handed to decoding"),
    };
    let resp = s.finish_shutdown(
        id,
        Decoding::Undecodable { diagnostic: "expected unit".to_string(), params: "[1]".to_string() },
    );
    assert!(matches!(resp.id, RequestId::Int(8)));
    match &resp.outcome {
        Outcome::Error(e) => {
            assert_eq!(e.code, -32602);
            assert_eq!(e.message, "expected unit");
            assert_eq!(e.data.as_deref(), Some("[1]"));
        }
        _ => panic!("expected InvalidParams"),
    }
    assert!(!s.is_shutdown_requested());
    assert!(!s.is_pending(&RequestId::Int(8)));
    match s.handle(request(9, "textDocument/completion", ""), 0, &rq, &nt) {
        Step::RunRequest { .. } => {}
        _ => panic!("completion was not dispatched"),
    }
}

#[test]
fn any_request_rejected_after_shutdown() {
    let mut s = state();
    shut_down(&mut s, 1);
    let (rq, nt) = routes();
    let _ = s.handle(notification("textDocument/didOpen"), 0, &rq, &nt);
    for (id, method) in [(2, "textDocument/completion"), (3, "workspace/unknown")] {
        match s.handle(request(id, method, "{}"), 0, &rq, &nt) {
            Step::Reply(resp) => {
                assert_eq!(error_of(&resp), (-32600, "Shutdown already requested".to_string()))
            }
            _ => panic!("request after shutdown was not rejected"),
        }
    }
}
