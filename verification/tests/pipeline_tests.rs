use onion_pipeline::http::{Request, Response};
use onion_pipeline::middleware::{Action, Event, Handler, Middleware, PipelineError};
use onion_pipeline::pipeline::{build_batch, build_sequential, BatchBuilder, Pipeline};

fn forward(id: u64) -> Middleware {
    Middleware { id, action: Action::Forward }
}

fn response(status: u16, body: &str) -> Response {
    Response { status, headers: Vec::new(), body: body.to_string() }
}

fn request(method: &str, path: &str, body: &str) -> Request {
    Request {
        method: method.to_string(),
        path: path.to_string(),
        headers: Vec::new(),
        body: body.to_string(),
    }
}

fn before_ids(log: &[Event]) -> Vec<u64> {
    log.iter()
        .filter_map(|e| match e {
            Event::Before(id) => Some(*id),
            _ => None,
        })
        .collect()
}

#[test]
fn sequential_layering_hello_world() {
    let p = build_sequential(
        vec![forward(1), forward(2), forward(3)],
        Handler::Respond(response(200, "Hello, World!")),
    );
    let (outcome, log) = p.dispatch(request("GET", "/", ""));
    assert_eq!(
        log,
        vec![
            Event::Before(3),
            Event::Before(2),
            Event::Before(1),
            Event::Exec,
            Event::After(1),
            Event::After(2),
            Event::After(3),
        ]
    );
    let r = outcome.unwrap();
    assert_eq!(r.status, 200);
    assert_eq!(r.body, "Hello, World!");
}

#[test]
fn batch_layering_mirrors_the_declared_order() {
    let p = build_batch(
        vec![forward(1), forward(2), forward(3)],
        Handler::Respond(response(200, "Hello, World!")),
    );
    let (outcome, log) = p.dispatch(request("GET", "/", ""));
    assert_eq!(
        log,
        vec![
            Event::Before(1),
            Event::Before(2),
            Event::Before(3),
            Event::Exec,
            Event::After(3),
            Event::After(2),
            Event::After(1),
        ]
    );
    assert_eq!(outcome.unwrap().body, "Hello, World!");
}

#[test]
fn strategies_nest_in_opposite_orders() {
    let a = build_sequential(
        vec![forward(1), forward(2), forward(3), forward(4)],
        Handler::Respond(response(200, "ok")),
    );
    let b = build_batch(
        vec![forward(1), forward(2), forward(3), forward(4)],
        Handler::Respond(response(200, "ok")),
    );
    let (_, log_a) = a.dispatch(request("GET", "/", ""));
    let (_, log_b) = b.dispatch(request("GET", "/", ""));
    let mut b_before = before_ids(&log_b);
    b_before.reverse();
    assert_eq!(before_ids(&log_a), b_before);
}

#[test]
fn batch_builder_matches_whole_list_form() {
    let mut builder = BatchBuilder::new();
    builder.add(forward(1));
    builder.add(forward(2));
    builder.add(forward(3));
    let p = builder.build(Handler::Respond(response(200, "ok")));
    let q = build_batch(
        vec![forward(1), forward(2), forward(3)],
        Handler::Respond(response(200, "ok")),
    );
    let (_, log_p) = p.dispatch(request("GET", "/", ""));
    let (_, log_q) = q.dispatch(request("GET", "/", ""));
    assert_eq!(log_p, log_q);
}

#[test]
fn apply_outermost_matches_whole_list_form() {
    let mut p = Pipeline::new(Handler::Respond(response(200, "ok")));
    p.apply_outermost(forward(1));
    p.apply_outermost(forward(2));
    p.apply_outermost(forward(3));
    let q = build_sequential(
        vec![forward(1), forward(2), forward(3)],
        Handler::Respond(response(200, "ok")),
    );
    let (_, log_p) = p.dispatch(request("GET", "/", ""));
    let (_, log_q) = q.dispatch(request("GET", "/", ""));
    assert_eq!(log_p, log_q);
}

#[test]
fn short_circuit_skips_handler_and_inner_layers() {
    let p = build_batch(
        vec![
            forward(1),
            Middleware { id: 2, action: Action::ShortCircuit(response(403, "denied")) },
            forward(3),
        ],
        Handler::Respond(response(200, "never")),
    );
    let (outcome, log) = p.dispatch(request("GET", "/admin", ""));
    assert_eq!(log, vec![Event::Before(1), Event::Before(2), Event::After(1)]);
    assert!(!log.contains(&Event::Exec));
    assert!(!log.contains(&Event::Before(3)));
    assert!(!log.contains(&Event::After(3)));
    let r = outcome.unwrap();
    assert_eq!(r.status, 403);
    assert_eq!(r.body, "denied");
}

#[test]
fn handler_runs_exactly_once_whatever_the_depth_or_strategy() {
    for n in [0u64, 1, 5] {
        let list: Vec<Middleware> = (1..=n).map(forward).collect();
        let a = build_sequential(
            (1..=n).map(forward).collect(),
            Handler::Respond(response(200, "ok")),
        );
        let b = build_batch(list, Handler::Respond(response(200, "ok")));
        for p in [a, b] {
            let (_, log) = p.dispatch(request("GET", "/", ""));
            let execs = log.iter().filter(|e| matches!(e, Event::Exec)).count();
            assert_eq!(execs, 1);
        }
    }
}

#[test]
fn response_returns_unchanged_through_forwarding_layers() {
    let mut handler_response = response(201, "created");
    handler_response.headers.push(("content-type".to_string(), "text/plain".to_string()));
    let p = build_batch(vec![forward(1), forward(2)], Handler::Respond(handler_response));
    let (outcome, log) = p.dispatch(request("POST", "/items", "payload"));
    let r = outcome.unwrap();
    assert_eq!(r.status, 201);
    assert_eq!(r.body, "created");
    assert_eq!(r.headers, vec![("content-type".to_string(), "text/plain".to_string())]);
    // nothing runs after the outermost layer returns
    assert_eq!(log.last(), Some(&Event::After(1)));
}

#[test]
fn status_override_is_a_deliberate_transformation() {
    let p = build_batch(
        vec![Middleware { id: 1, action: Action::SetResponseStatus(503) }],
        Handler::Respond(response(200, "still here")),
    );
    let (outcome, log) = p.dispatch(request("GET", "/", ""));
    assert_eq!(log, vec![Event::Before(1), Event::Exec, Event::After(1)]);
    let r = outcome.unwrap();
    assert_eq!(r.status, 503);
    assert_eq!(r.body, "still here");
}

#[test]
fn handler_failure_propagates_and_skips_after_phases() {
    let p = build_batch(vec![forward(1), forward(2)], Handler::Fail(7));
    let (outcome, log) = p.dispatch(request("GET", "/", ""));
    match outcome {
        Err(PipelineError::HandlerFailure(code)) => assert_eq!(code, 7),
        Ok(_) => panic!("expected the handler failure to propagate"),
    }
    assert_eq!(log, vec![Event::Before(1), Event::Before(2), Event::Exec]);
}

#[test]
fn recovery_substitutes_a_response_for_an_inner_failure() {
    let p = build_batch(
        vec![
            forward(1),
            Middleware { id: 2, action: Action::Recover(response(502, "fallback")) },
        ],
        Handler::Fail(9),
    );
    let (outcome, log) = p.dispatch(request("GET", "/", ""));
    assert_eq!(
        log,
        vec![Event::Before(1), Event::Before(2), Event::Exec, Event::After(2), Event::After(1)]
    );
    let r = outcome.unwrap();
    assert_eq!(r.status, 502);
    assert_eq!(r.body, "fallback");
}

#[test]
fn request_header_added_on_the_way_in_reaches_the_handler() {
    let mut req = request("GET", "/echo", "ping");
    req.headers.push(("host".to_string(), "localhost".to_string()));
    let p = build_batch(
        vec![Middleware {
            id: 1,
            action: Action::AddRequestHeader("x-trace".to_string(), "abc".to_string()),
        }],
        Handler::Echo(200),
    );
    let (outcome, log) = p.dispatch(req);
    assert_eq!(log, vec![Event::Before(1), Event::Exec, Event::After(1)]);
    let r = outcome.unwrap();
    assert_eq!(r.status, 200);
    assert_eq!(r.body, "ping");
    assert_eq!(
        r.headers,
        vec![
            ("host".to_string(), "localhost".to_string()),
            ("x-trace".to_string(), "abc".to_string()),
        ]
    );
}

#[test]
fn empty_chain_runs_the_handler_alone() {
    let p = Pipeline::new(Handler::Respond(response(200, "bare")));
    let (outcome, log) = p.dispatch(request("GET", "/", ""));
    assert_eq!(log, vec![Event::Exec]);
    assert_eq!(outcome.unwrap().body, "bare");
}

#[test]
fn short_circuit_at_the_outermost_layer_logs_only_its_before_phase() {
    let p = build_sequential(
        vec![forward(1), Middleware { id: 2, action: Action::ShortCircuit(response(404, "gone")) }],
        Handler::Respond(response(200, "never")),
    );
    // sequential layering: middleware 2 was declared last, so it is outermost
    let (outcome, log) = p.dispatch(request("GET", "/", ""));
    assert_eq!(log, vec![Event::Before(2)]);
    let r = outcome.unwrap();
    assert_eq!(r.status, 404);
    assert_eq!(r.body, "gone");
}
