//! The configuration grammar, the route-attribute accumulation, the
//! merge rules, and the small text utilities they rest on.

use fresh::attributes::{FreshAttributeParser, FreshRouteAttributeParser};
use fresh::descriptor::merge_config;
use fresh::schema::Attr;
use fresh::{Method, Token};

fn ident(s: &str) -> Token {
    Token::Ident(String::from(s))
}

fn strlit(s: &str) -> Token {
    Token::StrLit(String::from(s))
}

#[test]
fn service_attributes_parse() {
    let toks = vec![
        ident("endpoint"),
        Token::Eq,
        strlit("https://httpbin.org"),
        Token::Comma,
        ident("timeout"),
        Token::Eq,
        Token::IntLit(10000),
    ];
    let attrs = FreshAttributeParser::parse(&toks).unwrap();
    assert_eq!(attrs.endpoint.as_deref(), Some("https://httpbin.org"));
    assert_eq!(attrs.timeout, Some(10000));
    assert_eq!(attrs.connect_timeout, None);
    assert!(attrs.headers.is_empty());
}

#[test]
fn keys_match_without_regard_to_case() {
    let toks = vec![ident("ENDPOINT"), Token::Eq, strlit("https://httpbin.org")];
    let attrs = FreshAttributeParser::parse(&toks).unwrap();
    assert_eq!(attrs.endpoint.as_deref(), Some("https://httpbin.org"));
}

#[test]
fn unrecognized_keys_are_ignored() {
    let toks = vec![
        ident("shiny"),
        Token::Eq,
        Token::IntLit(1),
        Token::Comma,
        ident("extras"),
        Token::LParen,
        ident("a"),
        Token::Eq,
        strlit("b"),
        Token::RParen,
        Token::Comma,
        ident("endpoint"),
        Token::Eq,
        strlit("https://httpbin.org"),
    ];
    let attrs = FreshAttributeParser::parse(&toks).unwrap();
    assert_eq!(attrs.endpoint.as_deref(), Some("https://httpbin.org"));
}

#[test]
fn wrong_literal_kind_is_a_syntax_error() {
    let toks = vec![ident("timeout"), Token::Eq, strlit("soon")];
    assert!(matches!(
        FreshAttributeParser::parse(&toks),
        Err(fresh::Error::ConfigSyntax(_))
    ));
    let toks = vec![ident("endpoint"), Token::Eq, Token::IntLit(8080)];
    assert!(matches!(
        FreshAttributeParser::parse(&toks),
        Err(fresh::Error::ConfigSyntax(_))
    ));
}

#[test]
fn quoted_header_key_is_a_syntax_error() {
    let toks = vec![
        ident("headers"),
        Token::LParen,
        strlit("foo"),
        Token::Eq,
        strlit("bar"),
        Token::RParen,
    ];
    assert!(matches!(
        FreshAttributeParser::parse(&toks),
        Err(fresh::Error::ConfigSyntax(_))
    ));
}

#[test]
fn header_names_are_normalized() {
    let toks = vec![
        ident("headers"),
        Token::LParen,
        ident("User_Agent"),
        Token::Eq,
        strlit("fresh-test"),
        Token::RParen,
    ];
    let attrs = FreshAttributeParser::parse(&toks).unwrap();
    assert_eq!(
        attrs.headers,
        vec![(String::from("user-agent"), String::from("fresh-test"))]
    );
}

#[test]
fn route_parser_skips_methods_without_verbs() {
    let attrs = vec![Attr { name: String::from("inline"), args: vec![] }];
    assert!(FreshRouteAttributeParser::parse(&attrs).unwrap().is_none());
}

#[test]
fn route_parser_accepts_any_verb_case() {
    let attrs = vec![Attr {
        name: String::from("POST"),
        args: vec![ident("path"), Token::Eq, strlit("/post")],
    }];
    let route = FreshRouteAttributeParser::parse(&attrs).unwrap().unwrap();
    assert!(matches!(route.method, Some(Method::Post)));
    assert_eq!(route.path.as_deref(), Some("/post"));
}

#[test]
fn merge_scalar_overrides_and_inherits() {
    let toks = vec![ident("timeout"), Token::Eq, Token::IntLit(10000)];
    let service = FreshAttributeParser::parse(&toks).unwrap();

    // the route sets its own timeout: it wins
    let attrs = vec![Attr {
        name: String::from("get"),
        args: vec![
            ident("path"),
            Token::Eq,
            strlit("/get"),
            Token::Comma,
            ident("timeout"),
            Token::Eq,
            Token::IntLit(13000),
        ],
    }];
    let route = FreshRouteAttributeParser::parse(&attrs).unwrap().unwrap();
    let resolved = merge_config(&service, &route).unwrap();
    assert_eq!(resolved.timeout, Some(13000));

    // the route leaves it unset: the service value is inherited
    let attrs = vec![Attr {
        name: String::from("get"),
        args: vec![ident("path"), Token::Eq, strlit("/get")],
    }];
    let route = FreshRouteAttributeParser::parse(&attrs).unwrap().unwrap();
    let resolved = merge_config(&service, &route).unwrap();
    assert_eq!(resolved.timeout, Some(10000));
    assert_eq!(resolved.connect_timeout, None);
}

#[test]
fn merge_concatenates_headers_keeping_duplicates() {
    let toks = vec![
        ident("headers"),
        Token::LParen,
        ident("foo"),
        Token::Eq,
        strlit("service"),
        Token::RParen,
    ];
    let service = FreshAttributeParser::parse(&toks).unwrap();
    let attrs = vec![Attr {
        name: String::from("get"),
        args: vec![
            ident("path"),
            Token::Eq,
            strlit("/get"),
            Token::Comma,
            ident("headers"),
            Token::LParen,
            ident("foo"),
            Token::Eq,
            strlit("route"),
            Token::RParen,
        ],
    }];
    let route = FreshRouteAttributeParser::parse(&attrs).unwrap().unwrap();
    let resolved = merge_config(&service, &route).unwrap();
    assert_eq!(
        resolved.headers,
        vec![
            (String::from("foo"), String::from("service")),
            (String::from("foo"), String::from("route")),
        ]
    );
}

#[test]
fn merge_without_method_is_a_missing_route() {
    let service = FreshAttributeParser::parse(&vec![]).unwrap();
    let route = fresh::attributes::FreshRouteAttributes {
        method: None,
        path: Some(String::from("/get")),
        headers: vec![],
        timeout: None,
        connect_timeout: None,
        read_timeout: None,
    };
    assert!(matches!(
        merge_config(&service, &route),
        Err(fresh::Error::MissingRoute(_))
    ));
}

#[test]
fn method_names_parse_case_insensitively() {
    assert!(matches!(Method::from_str("delete"), Ok(Method::Delete)));
    assert!(matches!(Method::from_str("Trace"), Ok(Method::Trace)));
    assert!(matches!(Method::from_str("FETCH"), Err(_)));
    assert_eq!(Method::Options.as_str(), "OPTIONS");
}

#[test]
fn snippet_truncates_with_an_ellipsis() {
    assert_eq!(fresh::snippet("hello", 10), "hello");
    assert_eq!(fresh::snippet("hello", 3), "hel\u{2026}");
    assert_eq!(fresh::snippet("", 0), "");
}

#[test]
fn replace_all_substitutes_every_occurrence() {
    assert_eq!(fresh::text::replace_all("/a/{id}/{id}", "{id}", "7"), "/a/7/7");
    assert_eq!(fresh::text::replace_all("/plain", "{id}", "7"), "/plain");
    assert_eq!(fresh::text::replace_all("aaa", "aa", "b"), "ba");
}

#[test]
fn u64_renders_in_decimal() {
    assert_eq!(fresh::text::u64_to_string(0), "0");
    assert_eq!(fresh::text::u64_to_string(9070), "9070");
    assert_eq!(fresh::text::u64_to_string(u64::MAX), "18446744073709551615");
}

#[test]
fn sample_query_lists_its_fields_in_order() {
    let q = fresh::sample::SearchQuery { q: String::from("rust"), page: 12 };
    assert_eq!(
        q.to_pairs(),
        vec![
            (String::from("q"), String::from("rust")),
            (String::from("page"), String::from("12")),
        ]
    );
}

#[test]
fn client_construction_validates_the_endpoint() {
    let ok = fresh::HttpClient::with_endpoint("https://httpbin.org").unwrap();
    assert_eq!(ok.endpoint(), "https://httpbin.org/");
    assert_eq!(
        ok.options().headers,
        vec![(String::from("user-agent"), String::from("fresh-client/0.1.0"))]
    );
    assert!(matches!(
        fresh::HttpClient::with_endpoint("not a url"),
        Err(fresh::Error::ConfigBuild(_))
    ));
}

#[test]
fn later_verb_annotation_overrides_earlier() {
    let attrs = vec![
        Attr {
            name: String::from("get"),
            args: vec![ident("path"), Token::Eq, strlit("/a")],
        },
        Attr {
            name: String::from("post"),
            args: vec![ident("path"), Token::Eq, strlit("/b")],
        },
    ];
    let route = FreshRouteAttributeParser::parse(&attrs).unwrap().unwrap();
    assert!(matches!(route.method, Some(Method::Post)));
    assert_eq!(route.path.as_deref(), Some("/b"));
}

#[test]
fn snippet_at_the_exact_limit_is_untouched() {
    assert_eq!(fresh::snippet("abc", 3), "abc");
    assert_eq!(fresh::snippet("abcd", 3), "abc\u{2026}");
}
