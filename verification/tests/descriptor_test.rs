//! The descriptor builder in isolation: parameter classification,
//! result-type extraction, and the generation-time error taxonomy.

use fresh::descriptor::{extract_ok_type, MethodMetaParser, ParamKind, ParamMetaParser};
use fresh::schema::{Attr, MethodSig, ParamDecl, ParamPat, TypeExpr};
use fresh::Token;

fn plain_ty(name: &str) -> TypeExpr {
    TypeExpr { ident: String::from(name), args: vec![] }
}

fn result_ty(ok: &str, err: &str) -> TypeExpr {
    TypeExpr { ident: String::from("Result"), args: vec![plain_ty(ok), plain_ty(err)] }
}

fn get_attr() -> Attr {
    Attr {
        name: String::from("get"),
        args: vec![
            Token::Ident(String::from("path")),
            Token::Eq,
            Token::StrLit(String::from("/get")),
        ],
    }
}

#[test]
fn parameters_classify_by_annotation() {
    let inputs = vec![
        ParamDecl { pat: ParamPat::Receiver, ty: None, attrs: vec![] },
        ParamDecl {
            pat: ParamPat::Ident(String::from("id")),
            ty: Some(plain_ty("u64")),
            attrs: vec![Attr { name: String::from("path"), args: vec![] }],
        },
        ParamDecl {
            pat: ParamPat::Ident(String::from("q")),
            ty: Some(plain_ty("SearchQuery")),
            attrs: vec![Attr { name: String::from("query"), args: vec![] }],
        },
        ParamDecl {
            pat: ParamPat::Ident(String::from("body")),
            ty: Some(plain_ty("CreateUser")),
            attrs: vec![Attr { name: String::from("json"), args: vec![] }],
        },
        ParamDecl {
            pat: ParamPat::Ident(String::from("trace")),
            ty: Some(plain_ty("String")),
            attrs: vec![Attr {
                name: String::from("header"),
                args: vec![Token::StrLit(String::from("X-Trace-Id"))],
            }],
        },
        ParamDecl {
            pat: ParamPat::Ident(String::from("context")),
            ty: Some(plain_ty("String")),
            attrs: vec![],
        },
    ];
    let metas = ParamMetaParser::parse(inputs).unwrap();
    assert_eq!(metas.len(), 5);
    assert!(matches!(metas[0].kind, ParamKind::Path));
    assert!(matches!(metas[1].kind, ParamKind::Query));
    assert!(matches!(metas[2].kind, ParamKind::Json));
    match &metas[3].kind {
        ParamKind::Header(name) => assert_eq!(name, "X-Trace-Id"),
        other => panic!("expected a header binding, got {:?}", other),
    }
    assert!(matches!(metas[4].kind, ParamKind::Other));
    assert_eq!(metas[0].ident, "id");
}

#[test]
fn header_binding_wins_over_earlier_annotations() {
    let inputs = vec![ParamDecl {
        pat: ParamPat::Ident(String::from("trace")),
        ty: Some(plain_ty("String")),
        attrs: vec![
            Attr { name: String::from("query"), args: vec![] },
            Attr {
                name: String::from("header"),
                args: vec![Token::StrLit(String::from("X-Trace-Id"))],
            },
        ],
    }];
    let metas = ParamMetaParser::parse(inputs).unwrap();
    assert!(matches!(metas[0].kind, ParamKind::Header(_)));
}

#[test]
fn header_annotation_without_its_argument_fails() {
    let inputs = vec![ParamDecl {
        pat: ParamPat::Ident(String::from("trace")),
        ty: Some(plain_ty("String")),
        attrs: vec![Attr { name: String::from("header"), args: vec![] }],
    }];
    assert!(matches!(
        ParamMetaParser::parse(inputs),
        Err(fresh::Error::ConfigSyntax(_))
    ));
}

#[test]
fn unbindable_pattern_fails() {
    let inputs = vec![ParamDecl { pat: ParamPat::Other, ty: Some(plain_ty("u64")), attrs: vec![] }];
    assert!(matches!(
        ParamMetaParser::parse(inputs),
        Err(fresh::Error::UnsupportedParameterPattern(_))
    ));
}

#[test]
fn result_wrapper_yields_its_success_type() {
    let t = extract_ok_type(Some(result_ty("HttpBinGet", "Error"))).unwrap();
    assert_eq!(t.ident, "HttpBinGet");

    let one = TypeExpr { ident: String::from("Result"), args: vec![plain_ty("Value")] };
    assert_eq!(extract_ok_type(Some(one)).unwrap().ident, "Value");

    assert!(extract_ok_type(Some(plain_ty("Value"))).is_none());
    assert!(extract_ok_type(None).is_none());

    let three = TypeExpr {
        ident: String::from("Result"),
        args: vec![plain_ty("A"), plain_ty("B"), plain_ty("C")],
    };
    assert!(extract_ok_type(Some(three)).is_none());
}

#[test]
fn route_method_without_result_wrapper_fails() {
    let methods = vec![MethodSig {
        ident: String::from("search"),
        attrs: vec![get_attr()],
        inputs: vec![ParamDecl { pat: ParamPat::Receiver, ty: None, attrs: vec![] }],
        output: Some(plain_ty("HttpBinGet")),
    }];
    assert!(matches!(
        MethodMetaParser::parse(methods),
        Err(fresh::Error::UnsupportedSignature(_))
    ));
}

#[test]
fn route_method_defaults_its_path() {
    let methods = vec![MethodSig {
        ident: String::from("search"),
        attrs: vec![Attr { name: String::from("get"), args: vec![] }],
        inputs: vec![ParamDecl { pat: ParamPat::Receiver, ty: None, attrs: vec![] }],
        output: Some(result_ty("HttpBinGet", "Error")),
    }];
    let metas = MethodMetaParser::parse(methods).unwrap();
    assert_eq!(metas.len(), 1);
    assert_eq!(metas[0].route.path.as_deref(), Some("/search"));
    assert!(matches!(metas[0].route.method, Some(fresh::Method::Get)));
}

#[test]
fn stripping_removes_consumed_annotations_only() {
    let def = fresh::schema::TraitDef {
        ident: String::from("Api"),
        methods: vec![MethodSig {
            ident: String::from("search"),
            attrs: vec![
                get_attr(),
                Attr { name: String::from("doc"), args: vec![] },
            ],
            inputs: vec![
                ParamDecl { pat: ParamPat::Receiver, ty: None, attrs: vec![] },
                ParamDecl {
                    pat: ParamPat::Ident(String::from("q")),
                    ty: Some(plain_ty("SearchQuery")),
                    attrs: vec![
                        Attr { name: String::from("query"), args: vec![] },
                        Attr { name: String::from("allow"), args: vec![] },
                    ],
                },
            ],
            output: Some(result_ty("HttpBinGet", "Error")),
        }],
    };
    let clean = fresh::expand::strip_custom_attrs_in_trait(def);
    assert_eq!(clean.ident, "Api");
    assert_eq!(clean.methods.len(), 1);
    let m = &clean.methods[0];
    assert_eq!(m.attrs.len(), 1);
    assert_eq!(m.attrs[0].name, "doc");
    assert_eq!(m.inputs[1].attrs.len(), 1);
    assert_eq!(m.inputs[1].attrs[0].name, "allow");
}
