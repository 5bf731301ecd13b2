use http_tokio_router::node::get;
use http_tokio_router::node::scope;
use http_tokio_router::router::default_error_response;
use http_tokio_router::router::default_not_found_response;
use http_tokio_router::Dispatch;
use http_tokio_router::HttpError;
use http_tokio_router::Request;
use http_tokio_router::ResolveContext;
use http_tokio_router::Resolver;
use http_tokio_router::Router;

fn matched(d: Dispatch) -> (u64, http_tokio_router::RequestParams, Vec<u64>) {
    match d {
        Dispatch::Matched {
            handler,
            params,
            layers,
        } => (handler, params, layers),
        Dispatch::NotFound => panic!("expected a match"),
    }
}

#[test]
fn literal_route_resolves_exactly() {
    let router = Router::new().at("GET:/health", Resolver::Handler(1));
    let (handler, params, _) = matched(router.dispatch(&Request::new("GET", "/health")));
    assert_eq!(handler, 1);
    assert!(params.inner.is_empty());
}

#[test]
fn literal_route_wrong_method_falls_to_not_found() {
    let router = Router::new().at("GET:/health", Resolver::Handler(1));
    assert!(matches!(
        router.dispatch(&Request::new("POST", "/health")),
        Dispatch::NotFound
    ));
}

#[test]
fn dynamic_segment_captures_value() {
    let router = Router::new().at("GET:/users/{id}", Resolver::Handler(7));
    let (handler, params, _) = matched(router.dispatch(&Request::new("GET", "/users/42")));
    assert_eq!(handler, 7);
    assert_eq!(params.get("id"), Some("42".to_string()));
    assert_eq!(params.param("id").unwrap(), "42");
    assert_eq!(params.inner.len(), 1);
}

#[test]
fn wildcard_captures_remaining_path() {
    let router = Router::new().at("GET:/files/*", Resolver::Handler(9));
    let (handler, params, _) = matched(router.dispatch(&Request::new("GET", "/files/a/b/c")));
    assert_eq!(handler, 9);
    assert_eq!(params.get("*"), Some("a/b/c".to_string()));
}

#[test]
fn wildcard_matches_empty_remainder() {
    let router = Router::new().at("GET:/files/*", Resolver::Handler(9));
    let (_, params, _) = matched(router.dispatch(&Request::new("GET", "/files")));
    assert_eq!(params.get("*"), Some("".to_string()));
}

#[test]
fn all_method_route_matches_every_method() {
    let router = Router::new().at("/ping", Resolver::Handler(3));
    for method in ["GET", "POST", "PUT", "PATCH", "DELETE", "OPTIONS"] {
        let (handler, _, _) = matched(router.dispatch(&Request::new(method, "/ping")));
        assert_eq!(handler, 3);
    }
}

#[test]
fn scoped_tree_gates_method_and_path() {
    let router = Router::new().add(Resolver::Node(scope("/api").at("/users", Resolver::Node(get(11)))));
    let (handler, _, _) = matched(router.dispatch(&Request::new("GET", "/api/users")));
    assert_eq!(handler, 11);
    assert!(matches!(
        router.dispatch(&Request::new("POST", "/api/users")),
        Dispatch::NotFound
    ));
    assert!(matches!(
        router.dispatch(&Request::new("GET", "/api/nope")),
        Dispatch::NotFound
    ));
}

#[test]
fn failed_deep_match_leaves_context_untouched() {
    let node = scope("/api").at("/users", Resolver::Node(get(1)));
    let req = Request::new("POST", "/api/users");
    let mut ctx = ResolveContext::new(&req);
    let before_segments = ctx.path_segments.clone();
    let before_params = ctx.params.clone();
    let before_layers = ctx.layers.clone();
    assert!(node.resolve(&mut ctx).is_none());
    assert_eq!(ctx.path_segments, before_segments);
    assert_eq!(ctx.params, before_params);
    assert_eq!(ctx.layers, before_layers);
}

#[test]
fn nested_captures_accumulate() {
    let inner = scope("/{y}").add(Resolver::Handler(5));
    let router = Router::new().at("/a/{x}", Resolver::Node(inner));
    let (handler, params, _) = matched(router.dispatch(&Request::new("GET", "/a/1/2")));
    assert_eq!(handler, 5);
    assert_eq!(params.get("x"), Some("1".to_string()));
    assert_eq!(params.get("y"), Some("2".to_string()));
}

#[test]
fn first_matching_child_wins() {
    let router = Router::new()
        .at("GET:/users/me", Resolver::Handler(1))
        .at("GET:/users/{id}", Resolver::Handler(2));
    let (handler, _, _) = matched(router.dispatch(&Request::new("GET", "/users/me")));
    assert_eq!(handler, 1);
    let (handler, params, _) = matched(router.dispatch(&Request::new("GET", "/users/7")));
    assert_eq!(handler, 2);
    assert_eq!(params.get("id"), Some("7".to_string()));
}

#[test]
fn layers_accumulate_outer_to_inner() {
    let inner = scope("/x").wrap(2).add(Resolver::Handler(4));
    let router = Router::new().wrap(1).add(Resolver::Node(inner));
    let (handler, _, layers) = matched(router.dispatch(&Request::new("GET", "/x")));
    assert_eq!(handler, 4);
    assert_eq!(layers, vec![1, 2]);
}

#[test]
fn trailing_and_doubled_slashes_in_request_path_are_ignored() {
    let router = Router::new().at("GET:/users/{id}", Resolver::Handler(7));
    let (_, params, _) = matched(router.dispatch(&Request::new("GET", "/users//42/")));
    assert_eq!(params.get("id"), Some("42".to_string()));
}

#[test]
fn try_at_rejects_malformed_pattern_and_keeps_router() {
    let router = Router::new().at("GET:/ok", Resolver::Handler(1));
    let (router, err) = match router.try_at("broken", Resolver::Handler(2)) {
        Ok(_) => panic!("malformed pattern accepted"),
        Err(pair) => pair,
    };
    assert_eq!(err.message(), "path must start with '/'");
    let (handler, _, _) = matched(router.dispatch(&Request::new("GET", "/ok")));
    assert_eq!(handler, 1);
}

#[test]
fn try_at_registers_the_route_on_a_well_formed_pattern() {
    let router = match Router::new().try_at("GET:/users/{id}", Resolver::Handler(7)) {
        Ok(router) => router,
        Err(_) => panic!("well-formed pattern refused"),
    };
    let (handler, params, _) = matched(router.dispatch(&Request::new("GET", "/users/42")));
    assert_eq!(handler, 7);
    assert_eq!(params.get("id"), Some("42".to_string()));
}

#[test]
fn default_not_found_is_404_with_fixed_body() {
    let r = default_not_found_response();
    assert_eq!(r.status, 404);
    assert_eq!(r.body, "404 Not Found");
}

#[test]
fn default_error_response_carries_status_and_message() {
    let r = default_error_response(HttpError::new("missing user", 400));
    assert_eq!(r.status, 400);
    assert_eq!(r.body, "missing user");
}

#[test]
fn http_error_builders() {
    let e = HttpError::new("boom", 503);
    assert_eq!(e.status, 503);
    assert_eq!(e.message, "boom");
    let e = HttpError::err("io failure");
    assert_eq!(e.status, 500);
    let e = e.status(502).message("bad gateway".to_string());
    assert_eq!(e.status, 502);
    assert_eq!(e.message, "bad gateway");
    let e: HttpError = HttpError::from("plain".to_string());
    assert_eq!(e.status, 500);
    assert_eq!(e.message, "plain");
}

#[test]
fn missing_parameter_yields_status_500_error() {
    let router = Router::new().at("GET:/users/{id}", Resolver::Handler(7));
    let (_, params, _) = matched(router.dispatch(&Request::new("GET", "/users/42")));
    let err = params.param("name").unwrap_err();
    assert_eq!(err.status, 500);
    assert_eq!(
        err.message,
        "invalid/missing request path parameter \"name\""
    );
}
