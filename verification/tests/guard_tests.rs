use http_tokio_router::PatternGuard;
use http_tokio_router::Request;
use http_tokio_router::ResolveContext;

#[test]
fn guard_commits_captures_on_match() {
    let guard = PatternGuard::new("GET:/users/{id}");
    let req = Request::new("GET", "/users/42");
    let mut ctx = ResolveContext::new(&req);
    assert!(guard.check(&mut ctx));
    assert!(ctx.path_segments.is_empty());
    assert_eq!(
        ctx.params,
        vec![("id".to_string(), "42".to_string())]
    );
}

#[test]
fn guard_leaves_context_alone_on_method_mismatch() {
    let guard = PatternGuard::new("GET:/users/{id}");
    let req = Request::new("POST", "/users/42");
    let mut ctx = ResolveContext::new(&req);
    assert!(!guard.check(&mut ctx));
    assert_eq!(ctx.path_segments, vec!["users".to_string(), "42".to_string()]);
    assert!(ctx.params.is_empty());
}

#[test]
fn guard_leaves_context_alone_on_path_mismatch() {
    let guard = PatternGuard::new("/a/b");
    let req = Request::new("GET", "/a/c");
    let mut ctx = ResolveContext::new(&req);
    assert!(!guard.check(&mut ctx));
    assert_eq!(ctx.path_segments, vec!["a".to_string(), "c".to_string()]);
    assert!(ctx.params.is_empty());
}

#[test]
fn guard_consumes_matched_prefix_only() {
    let guard = PatternGuard::new("/a");
    let req = Request::new("GET", "/a/rest");
    let mut ctx = ResolveContext::new(&req);
    assert!(guard.check(&mut ctx));
    assert_eq!(ctx.path_segments, vec!["rest".to_string()]);
}

#[test]
fn guard_wildcard_captures_rest() {
    let guard = PatternGuard::new("/files/*");
    let req = Request::new("GET", "/files/a/b");
    let mut ctx = ResolveContext::new(&req);
    assert!(guard.check(&mut ctx));
    assert!(ctx.path_segments.is_empty());
    assert_eq!(
        ctx.params,
        vec![("*".to_string(), "a/b".to_string())]
    );
}

#[test]
fn guard_fails_when_segments_run_out() {
    let guard = PatternGuard::new("/a/b");
    let req = Request::new("GET", "/a");
    let mut ctx = ResolveContext::new(&req);
    assert!(!guard.check(&mut ctx));
    assert_eq!(ctx.path_segments, vec!["a".to_string()]);
}

#[test]
fn guard_with_empty_pattern_always_passes() {
    let guard = PatternGuard::new("ALL:/");
    let req = Request::new("DELETE", "/whatever");
    let mut ctx = ResolveContext::new(&req);
    assert!(guard.check(&mut ctx));
    assert_eq!(ctx.path_segments, vec!["whatever".to_string()]);
    assert!(ctx.params.is_empty());
}

#[test]
fn try_new_rejects_malformed_pattern() {
    assert!(PatternGuard::try_new("users").is_none());
    assert!(PatternGuard::try_new("/users/{id}").is_some());
}
