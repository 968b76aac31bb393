//! The annotated-service pipeline end to end: parsing the service
//! annotation, building the client configuration, and dispatching one
//! route against a stubbed transport response.

use fresh::attributes::FreshAttributes;
use fresh::expand::{dispatch, ClientArtifact, MacroCall, MacroForm, MacroKind};
use fresh::schema::{Attr, MethodSig, ParamDecl, ParamPat, TraitDef, TypeExpr};
use fresh::sample::SearchQuery;
use fresh::synth::{build_request, handle_response, ArgValue};
use fresh::Token;

fn ident(s: &str) -> Token {
    Token::Ident(String::from(s))
}

fn strlit(s: &str) -> Token {
    Token::StrLit(String::from(s))
}

fn service_attr_tokens() -> Vec<Token> {
    vec![
        ident("endpoint"),
        Token::Eq,
        strlit("https://httpbin.org"),
        Token::Comma,
        ident("headers"),
        Token::LParen,
        ident("foo"),
        Token::Eq,
        strlit("bar"),
        Token::Comma,
        ident("user_agent"),
        Token::Eq,
        strlit("fresh-test"),
        Token::RParen,
        Token::Comma,
        ident("timeout"),
        Token::Eq,
        Token::IntLit(10000),
        Token::Comma,
        ident("connect_timeout"),
        Token::Eq,
        Token::IntLit(11000),
        Token::Comma,
        ident("read_timeout"),
        Token::Eq,
        Token::IntLit(12000),
    ]
}

fn search_method() -> MethodSig {
    MethodSig {
        ident: String::from("search"),
        attrs: vec![Attr {
            name: String::from("get"),
            args: vec![
                ident("path"),
                Token::Eq,
                strlit("/get"),
                Token::Comma,
                ident("headers"),
                Token::LParen,
                ident("foo"),
                Token::Eq,
                strlit("bar"),
                Token::Comma,
                ident("user_agent"),
                Token::Eq,
                strlit("fresh-test"),
                Token::RParen,
                Token::Comma,
                ident("timeout"),
                Token::Eq,
                Token::IntLit(13000),
            ],
        }],
        inputs: vec![
            ParamDecl { pat: ParamPat::Receiver, ty: None, attrs: vec![] },
            ParamDecl {
                pat: ParamPat::Ident(String::from("q")),
                ty: Some(TypeExpr { ident: String::from("SearchQuery"), args: vec![] }),
                attrs: vec![Attr { name: String::from("query"), args: vec![] }],
            },
        ],
        output: Some(TypeExpr {
            ident: String::from("Result"),
            args: vec![TypeExpr { ident: String::from("HttpBinGet"), args: vec![] }],
        }),
    }
}

fn fresh_attribute_artifact() -> ClientArtifact {
    let call = MacroCall::new(
        MacroKind::Fresh,
        MacroForm::Attribute {
            attr: service_attr_tokens(),
            item: TraitDef {
                ident: String::from("FreshAttribute"),
                methods: vec![search_method()],
            },
        },
    );
    dispatch(call).unwrap()
}

#[test]
fn test_fresh_attribute_parsing() {
    let artifact = fresh_attribute_artifact();
    let client = artifact.new_default().unwrap();
    let endpoint = client.endpoint();
    let options = client.options();
    let headers = &options.headers;
    for (key, value) in headers {
        match key.as_str() {
            "foo" => assert_eq!(value, "bar"),
            "user-agent" => assert_eq!(value, "fresh-test"),
            "User-Agent" => {}
            _ => panic!("Unexpected header: {}: {}", key, value),
        }
    }
    println!("options.connect_timeout(): {:?}", options.connect_timeout);
    assert_eq!(endpoint, "https://httpbin.org/");
    assert_eq!(options.timeout, 10000);
    assert_eq!(options.connect_timeout, 11000);
    assert_eq!(options.read_timeout, 12000);
}

#[test]
fn test_search() {
    let artifact = fresh_attribute_artifact();
    let client = artifact.new_default().unwrap();
    let route = artifact.find_route("search").unwrap();
    let query = SearchQuery { q: String::from("test"), page: 1 };
    let args = vec![ArgValue::Pairs(query.to_pairs())];
    let plan = build_request(client.endpoint(), route, &args).unwrap();
    assert_eq!(plan.url, "https://httpbin.org/get?q=test&page=1");
    let body = "{\"url\":\"https://httpbin.org/get?q=test&page=1\",\
                \"args\":{\"q\":\"test\",\"page\":\"1\"},\"headers\":{}}";
    let response = handle_response(&plan.url, 200, body).unwrap();
    assert_eq!(response["url"], "https://httpbin.org/get?q=test&page=1");
    let args = &response["args"];
    assert_eq!(args["q"], "test");
    assert_eq!(args["page"], "1");
}

#[test]
fn scenario_httpbin_get_round_trip() {
    let artifact = fresh_attribute_artifact();
    let client = artifact.new_default().unwrap();
    let route = artifact.find_route("search").unwrap();
    let query = SearchQuery { q: String::from("rust"), page: 1 };
    let args = vec![ArgValue::Pairs(query.to_pairs())];
    let plan = build_request(client.endpoint(), route, &args).unwrap();
    assert!(matches!(plan.method, fresh::Method::Get));
    assert_eq!(plan.url, "https://httpbin.org/get?q=rust&page=1");
    assert!(plan.body.is_none());
    let body = "{\"url\":\"https://httpbin.org/get?q=rust&page=1\",\
                \"args\":{\"q\":\"rust\",\"page\":\"1\"},\"headers\":{}}";
    let value = handle_response(&plan.url, 200, body).unwrap();
    assert_eq!(value["url"].as_str().unwrap(), "https://httpbin.org/get?q=rust&page=1");
    assert_eq!(value["args"]["q"].as_str().unwrap(), "rust");
    assert_eq!(value["args"]["page"].as_str().unwrap(), "1");
    assert!(value["headers"].as_object().unwrap().is_empty());
}

#[test]
fn resolved_route_merges_method_over_service() {
    let artifact = fresh_attribute_artifact();
    let route = artifact.find_route("search").unwrap();
    // the method sets timeout, the service the other two
    assert_eq!(route.config.timeout, Some(13000));
    assert_eq!(route.config.connect_timeout, Some(11000));
    assert_eq!(route.config.read_timeout, Some(12000));
    assert_eq!(route.config.path, "/get");
    // header lists concatenate: service pairs first, then the route's
    let names: Vec<(String, String)> = route.config.headers.clone();
    assert_eq!(
        names,
        vec![
            (String::from("foo"), String::from("bar")),
            (String::from("user-agent"), String::from("fresh-test")),
            (String::from("foo"), String::from("bar")),
            (String::from("user-agent"), String::from("fresh-test")),
        ]
    );
}

#[test]
fn method_without_verb_is_absent() {
    let plain_method = MethodSig {
        ident: String::from("helper"),
        attrs: vec![Attr { name: String::from("doc"), args: vec![] }],
        inputs: vec![ParamDecl { pat: ParamPat::Receiver, ty: None, attrs: vec![] }],
        output: Some(TypeExpr {
            ident: String::from("Result"),
            args: vec![TypeExpr { ident: String::from("Unit"), args: vec![] }],
        }),
    };
    let call = MacroCall::new(
        MacroKind::Fresh,
        MacroForm::Attribute {
            attr: service_attr_tokens(),
            item: TraitDef {
                ident: String::from("FreshAttribute"),
                methods: vec![search_method(), plain_method],
            },
        },
    );
    let artifact = dispatch(call).unwrap();
    assert_eq!(artifact.routes.len(), 1);
    assert!(artifact.find_route("search").is_some());
    assert!(artifact.find_route("helper").is_none());
}

#[test]
fn default_constructor_unavailable_without_endpoint() {
    let call = MacroCall::new(
        MacroKind::Fresh,
        MacroForm::Attribute {
            attr: vec![],
            item: TraitDef {
                ident: String::from("Bare"),
                methods: vec![search_method()],
            },
        },
    );
    let artifact = dispatch(call).unwrap();
    assert!(matches!(artifact.new_default(), Err(fresh::Error::ConfigBuild(_))));
}

#[test]
fn service_with_invalid_header_name_is_rejected() {
    let attr = vec![
        ident("endpoint"),
        Token::Eq,
        strlit("https://httpbin.org"),
        Token::Comma,
        ident("headers"),
        Token::LParen,
        Token::Ident(String::from("bad name")),
        Token::Eq,
        strlit("v"),
        Token::RParen,
    ];
    let call = MacroCall::new(
        MacroKind::Fresh,
        MacroForm::Attribute {
            attr,
            item: TraitDef { ident: String::from("Bad"), methods: vec![] },
        },
    );
    let artifact = dispatch(call).unwrap();
    assert!(matches!(artifact.new_default(), Err(fresh::Error::ConfigBuild(_))));
}

#[test]
fn service_config_exposes_parsed_values() {
    let artifact = fresh_attribute_artifact();
    let service: &FreshAttributes = &artifact.service;
    assert_eq!(service.endpoint.as_deref(), Some("https://httpbin.org"));
    assert_eq!(service.timeout, Some(10000));
    assert_eq!(artifact.client_ident, "FreshAttributeClient");
    assert_eq!(artifact.trait_ident, "FreshAttribute");
}
