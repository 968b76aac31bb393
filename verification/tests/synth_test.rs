//! The synthesis engine in isolation: path templating, query-string
//! serialization, header and body bindings, status checking and body
//! decoding.

use fresh::descriptor::{ParamKind, ParamMeta, ResolvedConfig, RouteDescriptor};
use fresh::schema::TypeExpr;
use fresh::synth::{
    build_query_string, build_request, check_status, decode_body, handle_response, ArgValue,
    SNIPPET_LIMIT,
};
use fresh::Method;

fn plain_ty(name: &str) -> TypeExpr {
    TypeExpr { ident: String::from(name), args: vec![] }
}

fn route(path: &str, params: Vec<ParamMeta>) -> RouteDescriptor {
    RouteDescriptor {
        method_ident: String::from("anything"),
        result_type: plain_ty("Value"),
        config: ResolvedConfig {
            method: Method::Get,
            path: String::from(path),
            endpoint: Some(String::from("https://httpbin.org")),
            headers: vec![],
            timeout: None,
            connect_timeout: None,
            read_timeout: None,
        },
        params,
    }
}

#[test]
fn path_template_instantiates_exactly() {
    let r = route(
        "/anything/{id}",
        vec![ParamMeta {
            ident: String::from("id"),
            ty: Some(plain_ty("u64")),
            kind: ParamKind::Path,
        }],
    );
    let args = vec![ArgValue::Text(String::from("42"))];
    let plan = build_request("https://httpbin.org", &r, &args).unwrap();
    assert_eq!(plan.url, "https://httpbin.org/anything/42");
}

#[test]
fn header_binding_attaches_named_header() {
    let r = route(
        "/anything/{id}",
        vec![
            ParamMeta {
                ident: String::from("id"),
                ty: Some(plain_ty("u64")),
                kind: ParamKind::Path,
            },
            ParamMeta {
                ident: String::from("trace"),
                ty: Some(plain_ty("String")),
                kind: ParamKind::Header(String::from("X-Trace-Id")),
            },
        ],
    );
    let args = vec![
        ArgValue::Text(String::from("42")),
        ArgValue::Text(String::from("trace-123")),
    ];
    let plan = build_request("https://httpbin.org", &r, &args).unwrap();
    assert_eq!(plan.url, "https://httpbin.org/anything/42");
    assert_eq!(
        plan.headers,
        vec![(String::from("X-Trace-Id"), String::from("trace-123"))]
    );
}

#[test]
fn json_binding_becomes_the_body() {
    let r = route(
        "/post",
        vec![ParamMeta {
            ident: String::from("body"),
            ty: Some(plain_ty("CreateUser")),
            kind: ParamKind::Json,
        }],
    );
    let args = vec![ArgValue::JsonText(String::from("{\"name\":\"Ferris\"}"))];
    let plan = build_request("https://httpbin.org", &r, &args).unwrap();
    assert_eq!(plan.body.as_deref(), Some("{\"name\":\"Ferris\"}"));
}

#[test]
fn unbound_parameter_is_excluded_from_the_request() {
    let r = route(
        "/get",
        vec![ParamMeta {
            ident: String::from("context"),
            ty: Some(plain_ty("String")),
            kind: ParamKind::Other,
        }],
    );
    let args = vec![ArgValue::Text(String::from("ignored"))];
    let plan = build_request("https://httpbin.org", &r, &args).unwrap();
    assert_eq!(plan.url, "https://httpbin.org/get");
    assert!(plan.headers.is_empty());
    assert!(plan.body.is_none());
}

#[test]
fn query_round_trip_preserves_field_order() {
    let pairs = vec![
        (String::from("q"), String::from("rust")),
        (String::from("page"), String::from("1")),
    ];
    assert_eq!(build_query_string(&pairs), "q=rust&page=1");
}

#[test]
fn query_encoding_escapes_reserved_characters() {
    let pairs = vec![(String::from("a b"), String::from("c&d=e"))];
    assert_eq!(build_query_string(&pairs), "a+b=c%26d%3De");
}

#[test]
fn wrong_argument_shape_is_invalid() {
    let r = route(
        "/get",
        vec![ParamMeta {
            ident: String::from("q"),
            ty: Some(plain_ty("SearchQuery")),
            kind: ParamKind::Query,
        }],
    );
    let args = vec![ArgValue::Text(String::from("not a field set"))];
    assert!(matches!(
        build_request("https://httpbin.org", &r, &args),
        Err(fresh::Error::InvalidArgument(_))
    ));
}

#[test]
fn wrong_argument_count_is_invalid() {
    let r = route("/get", vec![]);
    let args = vec![ArgValue::Text(String::from("extra"))];
    assert!(matches!(
        build_request("https://httpbin.org", &r, &args),
        Err(fresh::Error::InvalidArgument(_))
    ));
}

#[test]
fn unresolvable_path_is_a_url_error() {
    let r = route("/a", vec![]);
    let args = vec![];
    assert!(matches!(
        build_request("mailto:someone@example.net", &r, &args),
        Err(fresh::Error::UrlParse(_))
    ));
}

#[test]
fn non_success_status_carries_url_status_and_snippet() {
    let long_body: String = "x".repeat(SNIPPET_LIMIT + 50);
    match check_status("https://httpbin.org/get", 404, &long_body) {
        Err(fresh::Error::Http { url, status, body_snippet }) => {
            assert_eq!(url, "https://httpbin.org/get");
            assert_eq!(status, 404);
            assert_eq!(body_snippet.chars().count(), SNIPPET_LIMIT + 1);
            assert!(body_snippet.ends_with('\u{2026}'));
        }
        other => panic!("expected an HTTP status error, got {:?}", other),
    }
}

#[test]
fn short_error_body_is_kept_whole() {
    match check_status("https://httpbin.org/get", 500, "oops") {
        Err(fresh::Error::Http { body_snippet, .. }) => {
            assert_eq!(body_snippet, "oops");
        }
        other => panic!("expected an HTTP status error, got {:?}", other),
    }
}

#[test]
fn success_status_passes() {
    assert!(check_status("https://httpbin.org/get", 200, "").is_ok());
    assert!(check_status("https://httpbin.org/get", 299, "").is_ok());
    assert!(check_status("https://httpbin.org/get", 300, "").is_err());
    assert!(check_status("https://httpbin.org/get", 199, "").is_err());
}

#[test]
fn undecodable_body_is_a_decode_error() {
    match decode_body("https://httpbin.org/get", "not json") {
        Err(fresh::Error::Decode { url, body_snippet, .. }) => {
            assert_eq!(url, "https://httpbin.org/get");
            assert_eq!(body_snippet, "not json");
        }
        other => panic!("expected a decode error, got {:?}", other),
    }
}

#[test]
fn handle_response_decodes_success() {
    let v = handle_response("https://httpbin.org/get", 200, "{\"ok\":true}").unwrap();
    assert_eq!(v["ok"], true);
    assert!(matches!(
        handle_response("https://httpbin.org/get", 503, "{\"ok\":true}"),
        Err(fresh::Error::Http { .. })
    ));
    assert!(matches!(
        handle_response("https://httpbin.org/get", 200, "{"),
        Err(fresh::Error::Decode { .. })
    ));
}

#[test]
fn absolute_path_replaces_the_endpoint_path() {
    let r = route("/get", vec![]);
    let plan = build_request("https://httpbin.org/api/", &r, &vec![]).unwrap();
    assert_eq!(plan.url, "https://httpbin.org/get");
}

#[test]
fn query_appends_after_an_existing_query() {
    let r = route(
        "/get?fixed=1",
        vec![ParamMeta {
            ident: String::from("q"),
            ty: Some(plain_ty("SearchQuery")),
            kind: ParamKind::Query,
        }],
    );
    let args = vec![ArgValue::Pairs(vec![(String::from("q"), String::from("rust"))])];
    let plan = build_request("https://httpbin.org", &r, &args).unwrap();
    assert_eq!(plan.url, "https://httpbin.org/get?fixed=1&q=rust");
}

#[test]
fn empty_field_set_leaves_the_url_bare() {
    let r = route(
        "/get",
        vec![ParamMeta {
            ident: String::from("q"),
            ty: Some(plain_ty("SearchQuery")),
            kind: ParamKind::Query,
        }],
    );
    let args = vec![ArgValue::Pairs(vec![])];
    let plan = build_request("https://httpbin.org", &r, &args).unwrap();
    assert_eq!(plan.url, "https://httpbin.org/get");
}
