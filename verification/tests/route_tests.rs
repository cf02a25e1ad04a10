use inbound_policy::route::{
    HeaderMatch, HeaderMatchError, HeaderMatchValue, HostMatch, HostMatchKind, HostSuffix,
    MatchHeader, MatchHost, MatchPath, MatchQueryParam, MatchRequest, PathMatch, PathMatchError,
    PathMatchKind, QueryParamMatch, QueryParamMatchError, QueryParamMatchValue, RouteMatch,
    RouteMatchError,
};

#[test]
fn host_exact_converts() {
    let m = MatchHost::try_from(HostMatch {
        host: Some(HostMatchKind::Exact(String::from("example.com"))),
    })
    .unwrap();
    assert!(matches!(m, MatchHost::Exact(h) if h == "example.com"));
}

#[test]
fn host_suffix_keeps_reverse_labels() {
    let m = MatchHost::try_from(HostMatch {
        host: Some(HostMatchKind::Suffix(HostSuffix {
            reverse_labels: vec![String::from("com"), String::from("example")],
        })),
    })
    .unwrap();
    assert!(matches!(m, MatchHost::Suffix(l) if l == ["com", "example"]));
}

#[test]
fn host_without_match_fails() {
    assert!(MatchHost::try_from(HostMatch { host: None }).is_err());
    let e = MatchHost::try_from(HostMatch { host: None }).unwrap_err();
    assert_eq!(e.message(), "host match must contain a match");
}

#[test]
fn path_exact_and_prefix_convert() {
    let m = MatchPath::try_from(PathMatch {
        kind: Some(PathMatchKind::Exact(String::from("/api/v1"))),
    })
    .unwrap();
    assert!(matches!(m, MatchPath::Exact(p) if p == "/api/v1"));

    let m = MatchPath::try_from(PathMatch {
        kind: Some(PathMatchKind::Prefix(String::from("/api"))),
    })
    .unwrap();
    assert!(matches!(m, MatchPath::Prefix(p) if p == "/api"));
}

#[test]
fn path_regex_compiles_once() {
    let m = MatchPath::try_from(PathMatch {
        kind: Some(PathMatchKind::Regex(String::from("^/users/[0-9]+$"))),
    })
    .unwrap();
    match m {
        MatchPath::Regex(re) => {
            assert!(re.is_match("/users/42"));
            assert!(!re.is_match("/users/alice"));
        }
        _ => panic!("expected a regex matcher"),
    }
}

#[test]
fn path_missing_kind_fails() {
    let e = MatchPath::try_from(PathMatch { kind: None }).unwrap_err();
    assert!(matches!(e, PathMatchError::MissingMatch));
    assert_eq!(e.message(), "missing match");
}

#[test]
fn path_invalid_regex_fails_conversion() {
    let e = MatchPath::try_from(PathMatch {
        kind: Some(PathMatchKind::Regex(String::from("foo[bar"))),
    })
    .unwrap_err();
    assert!(matches!(e, PathMatchError::InvalidRegex(_)));
    assert_eq!(e.message(), "invalid regular expression");
}

#[test]
fn route_match_without_path_is_empty() {
    let m = MatchRequest::try_from(RouteMatch { path: None }).unwrap();
    assert!(m.path.is_none());
    assert!(m.headers.is_empty());
    assert!(m.query_params.is_empty());
}

#[test]
fn route_match_with_path_converts() {
    let m = MatchRequest::try_from(RouteMatch {
        path: Some(PathMatch {
            kind: Some(PathMatchKind::Prefix(String::from("/svc"))),
        }),
    })
    .unwrap();
    assert!(matches!(m.path, Some(MatchPath::Prefix(p)) if p == "/svc"));
}

#[test]
fn route_match_rejects_malformed_path() {
    let e = MatchRequest::try_from(RouteMatch {
        path: Some(PathMatch { kind: None }),
    })
    .unwrap_err();
    assert!(matches!(e, RouteMatchError::Path(PathMatchError::MissingMatch)));
}

#[test]
fn header_regex_compiles() {
    let m = MatchHeader::try_from(HeaderMatch {
        name: String::from("x-foo"),
        value: Some(HeaderMatchValue::Regex(String::from("^bar.*"))),
    })
    .unwrap();
    assert!(matches!(m, MatchHeader::Regex(..)));
}

#[test]
fn header_exact_converts() {
    let m = MatchHeader::try_from(HeaderMatch {
        name: String::from("x-foo"),
        value: Some(HeaderMatchValue::Exact(String::from("bar"))),
    })
    .unwrap();
    match m {
        MatchHeader::Exact(name, value) => {
            assert_eq!(name.as_str(), "x-foo");
            assert_eq!(value.to_str().unwrap(), "bar");
        }
        _ => panic!("expected an exact matcher"),
    }
}

#[test]
fn header_invalid_name_fails() {
    let e = MatchHeader::try_from(HeaderMatch {
        name: String::from("bad header name"),
        value: Some(HeaderMatchValue::Exact(String::from("bar"))),
    })
    .unwrap_err();
    assert!(matches!(e, HeaderMatchError::InvalidName(_)));
    assert_eq!(e.message(), "invalid header name");
}

#[test]
fn header_missing_value_fails() {
    let e = MatchHeader::try_from(HeaderMatch {
        name: String::from("x-foo"),
        value: None,
    })
    .unwrap_err();
    assert!(matches!(e, HeaderMatchError::MissingValueMatch));
    assert_eq!(e.message(), "missing a header value match");
}

#[test]
fn header_invalid_value_fails() {
    let e = MatchHeader::try_from(HeaderMatch {
        name: String::from("x-foo"),
        value: Some(HeaderMatchValue::Exact(String::from("bad\nvalue"))),
    })
    .unwrap_err();
    assert!(matches!(e, HeaderMatchError::InvalidValue(_)));
    assert_eq!(e.message(), "invalid header value");
}

#[test]
fn header_invalid_regex_fails() {
    let e = MatchHeader::try_from(HeaderMatch {
        name: String::from("x-foo"),
        value: Some(HeaderMatchValue::Regex(String::from("(unclosed"))),
    })
    .unwrap_err();
    assert!(matches!(e, HeaderMatchError::InvalidRegex(_)));
}

#[test]
fn query_param_exact_converts() {
    let m = MatchQueryParam::try_from(QueryParamMatch {
        name: String::from("user"),
        value: Some(QueryParamMatchValue::Exact(String::from("alice"))),
    })
    .unwrap();
    assert!(matches!(m, MatchQueryParam::Exact(n, v) if n == "user" && v == "alice"));
}

#[test]
fn query_param_regex_converts() {
    let m = MatchQueryParam::try_from(QueryParamMatch {
        name: String::from("user"),
        value: Some(QueryParamMatchValue::Regex(String::from("^a.*"))),
    })
    .unwrap();
    match m {
        MatchQueryParam::Regex(n, re) => {
            assert_eq!(n, "user");
            assert!(re.is_match("alice"));
        }
        _ => panic!("expected a regex matcher"),
    }
}

#[test]
fn query_param_empty_name_fails() {
    let e = MatchQueryParam::try_from(QueryParamMatch {
        name: String::new(),
        value: Some(QueryParamMatchValue::Exact(String::from("alice"))),
    })
    .unwrap_err();
    assert!(matches!(e, QueryParamMatchError::MissingName));
    assert_eq!(e.message(), "missing a query param name");
}

#[test]
fn query_param_missing_value_fails() {
    let e = MatchQueryParam::try_from(QueryParamMatch {
        name: String::from("user"),
        value: None,
    })
    .unwrap_err();
    assert!(matches!(e, QueryParamMatchError::MissingValue));
    assert_eq!(e.message(), "missing a query param value");
}

#[test]
fn query_param_invalid_regex_fails() {
    let e = MatchQueryParam::try_from(QueryParamMatch {
        name: String::from("user"),
        value: Some(QueryParamMatchValue::Regex(String::from("[")) ),
    })
    .unwrap_err();
    assert!(matches!(e, QueryParamMatchError::InvalidRegex(_)));
    assert_eq!(e.message(), "invalid regular expression");
}
