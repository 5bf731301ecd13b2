use http_tokio_router::pattern::Pattern;
use http_tokio_router::pattern::is_valid_chunk;
use http_tokio_router::pattern::parse_path;
use http_tokio_router::PatternError;

#[test]
fn parse_uppercases_method_and_canonicalizes_path() {
    let p = Pattern::parse("get:/a//b/").unwrap();
    assert_eq!(p.method, "GET");
    assert_eq!(p.full_path, "/a/b");
    assert_eq!(p.chunks, vec!["a".to_string(), "b".to_string()]);
    assert_eq!(p.to_string(), "GET:/a/b");
}

#[test]
fn parse_without_method_defaults_to_all() {
    let p = Pattern::parse("/users/{id}").unwrap();
    assert_eq!(p.method, "ALL");
    assert_eq!(p.to_string(), "ALL:/users/{id}");
    assert_eq!(p.chunks, vec!["users".to_string(), "{id}".to_string()]);
}

#[test]
fn parse_star_shortcut() {
    let p = Pattern::parse("*").unwrap();
    assert_eq!(p.method, "ALL");
    assert_eq!(p.full_path, "*");
    assert_eq!(p.chunks, vec!["*".to_string()]);
    assert_eq!(p.to_string(), "ALL:*");

    let p = Pattern::parse("post:*").unwrap();
    assert_eq!(p.method, "POST");
    assert_eq!(p.full_path, "*");
}

#[test]
fn parse_then_format_is_idempotent() {
    for s in ["get:/a//b/", "/users/{id}", "*", "delete:/x/-/_y", "GET:/files/*"] {
        let once = Pattern::parse(s).unwrap().to_string();
        let twice = Pattern::parse(&once).unwrap().to_string();
        assert_eq!(once, twice);
    }
}

#[test]
fn parse_root_pattern() {
    let p = Pattern::parse("ALL:/").unwrap();
    assert_eq!(p.method, "ALL");
    assert_eq!(p.full_path, "/");
    assert!(p.chunks.is_empty());
    assert_eq!(p.to_string(), "ALL:/");
}

#[test]
fn parse_rejects_path_without_leading_slash() {
    assert!(matches!(
        Pattern::parse("users"),
        Err(PatternError::PathMustStartWithSlash)
    ));
    assert!(matches!(
        Pattern::parse("GET:users"),
        Err(PatternError::PathMustStartWithSlash)
    ));
    assert!(matches!(
        Pattern::parse(""),
        Err(PatternError::PathMustStartWithSlash)
    ));
}

#[test]
fn parse_rejects_wildcard_before_end() {
    assert!(matches!(
        Pattern::parse("/a/*/b"),
        Err(PatternError::WildcardPosition)
    ));
}

#[test]
fn parse_accepts_wildcard_as_last_chunk() {
    let p = Pattern::parse("/files/*").unwrap();
    assert_eq!(p.chunks, vec!["files".to_string(), "*".to_string()]);
}

#[test]
fn parse_rejects_invalid_characters() {
    assert!(matches!(
        Pattern::parse("/a b"),
        Err(PatternError::InvalidChars)
    ));
    assert!(matches!(
        Pattern::parse("/a/b?c"),
        Err(PatternError::InvalidChars)
    ));
}

#[test]
fn parse_rejects_braces_inside_dynamic_name() {
    assert!(matches!(
        Pattern::parse("/a/{b{c}"),
        Err(PatternError::InvalidDynamic)
    ));
    assert!(matches!(
        Pattern::parse("/a/{b}c}"),
        Err(PatternError::InvalidDynamic)
    ));
}

#[test]
fn parse_path_splits_and_validates() {
    assert_eq!(
        parse_path("a//b/").unwrap(),
        vec!["a".to_string(), "b".to_string()]
    );
    assert_eq!(parse_path("").unwrap(), Vec::<String>::new());
    assert!(matches!(
        parse_path("a/*/b"),
        Err(PatternError::WildcardPosition)
    ));
}

#[test]
fn valid_chunk_characters() {
    assert!(is_valid_chunk("abc123"));
    assert!(is_valid_chunk("{id}"));
    assert!(is_valid_chunk("with_under-dash"));
    assert!(is_valid_chunk("*"));
    assert!(!is_valid_chunk("a b"));
    assert!(!is_valid_chunk("a/b"));
    assert!(!is_valid_chunk("a?b"));
}

#[test]
fn unchecked_constructor_keeps_raw_path() {
    let p = Pattern::new("ALL", "/x/y");
    assert_eq!(p.method, "ALL");
    assert_eq!(p.full_path, "/x/y");
    assert_eq!(
        p.chunks,
        vec!["".to_string(), "x".to_string(), "y".to_string()]
    );
}

#[test]
fn pattern_error_messages() {
    assert_eq!(
        PatternError::WildcardPosition.message(),
        "wildcard (*) is only allowed as last chunk"
    );
    assert_eq!(PatternError::InvalidChars.message(), "found invalid chars");
    assert_eq!(
        PatternError::PathMustStartWithSlash.message(),
        "path must start with '/'"
    );
}
