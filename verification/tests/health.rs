use health_server::http::{health_check, Method, Request};
use health_server::server::{bootstrap, build_routes, DispatchOutcome};

fn request(method: Method, path: &str) -> Request {
    Request { method, path: path.to_string(), headers: Vec::new(), body: Vec::new() }
}

#[test]
fn handler_returns_success_with_empty_body() {
    let resp = health_check();
    assert_eq!(resp.status, 200);
    assert!(resp.body.is_empty());
}

#[test]
fn route_table_has_exactly_one_entry() {
    let handle = build_routes();
    assert_eq!(handle.routes.len(), 1);
    assert!(matches!(handle.routes[0].method, Method::Get));
    assert_eq!(handle.routes[0].path, "/health_check");
}

#[test]
fn get_health_check_is_handled_with_success() {
    let handle = build_routes();
    let out = handle.dispatch(&request(Method::Get, "/health_check"));
    match out {
        DispatchOutcome::Handled(resp) => {
            assert_eq!(resp.status, 200);
            assert!(resp.body.is_empty());
        }
        DispatchOutcome::Unmatched => panic!("health-check request was not handled"),
    }
}

#[test]
fn headers_and_body_do_not_change_the_response() {
    let handle = build_routes();
    let req = Request {
        method: Method::Get,
        path: "/health_check".to_string(),
        headers: vec![
            ("User-Agent".to_string(), "probe/1.0".to_string()),
            ("Accept".to_string(), "*/*".to_string()),
        ],
        body: vec![1, 2, 3, 4],
    };
    match handle.dispatch(&req) {
        DispatchOutcome::Handled(resp) => {
            assert_eq!(resp.status, 200);
            assert!(resp.body.is_empty());
        }
        DispatchOutcome::Unmatched => panic!("health-check request was not handled"),
    }
}

#[test]
fn post_health_check_is_unmatched() {
    let handle = build_routes();
    let out = handle.dispatch(&request(Method::Post, "/health_check"));
    assert!(matches!(out, DispatchOutcome::Unmatched));
}

#[test]
fn get_other_path_is_unmatched() {
    let handle = build_routes();
    let out = handle.dispatch(&request(Method::Get, "/other_path"));
    assert!(matches!(out, DispatchOutcome::Unmatched));
}

#[test]
fn repeated_requests_all_get_the_same_success_response() {
    let handle = build_routes();
    let mut reqs = Vec::new();
    for _ in 0..5 {
        reqs.push(request(Method::Get, "/health_check"));
    }
    let outs = handle.handle_all(&reqs);
    assert_eq!(outs.len(), 5);
    for out in outs {
        match out {
            DispatchOutcome::Handled(resp) => {
                assert_eq!(resp.status, 200);
                assert!(resp.body.is_empty());
            }
            DispatchOutcome::Unmatched => panic!("health-check request was not handled"),
        }
    }
}

#[test]
fn mixed_batch_keeps_one_outcome_per_request() {
    let handle = build_routes();
    let reqs = vec![
        request(Method::Get, "/health_check"),
        request(Method::Post, "/health_check"),
        request(Method::Get, "/other_path"),
        request(Method::Get, "/health_check"),
    ];
    let outs = handle.handle_all(&reqs);
    assert_eq!(outs.len(), 4);
    assert!(matches!(outs[0], DispatchOutcome::Handled(_)));
    assert!(matches!(outs[1], DispatchOutcome::Unmatched));
    assert!(matches!(outs[2], DispatchOutcome::Unmatched));
    assert!(matches!(outs[3], DispatchOutcome::Handled(_)));
}

#[test]
fn bootstrap_succeeds_when_attachment_succeeds() {
    match bootstrap(Ok(())) {
        Ok(handle) => {
            assert_eq!(handle.routes.len(), 1);
            assert_eq!(handle.routes[0].path, "/health_check");
        }
        Err(e) => panic!("construction failed: {}", e),
    }
}

#[test]
fn bootstrap_surfaces_the_attachment_error() {
    let out = bootstrap(Err("address already in use".to_string()));
    match out {
        Ok(_) => panic!("construction produced a handle from a failed attachment"),
        Err(e) => assert_eq!(e, "address already in use"),
    }
}
