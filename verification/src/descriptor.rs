//! The descriptor builder: walks the annotated interface, classifies
//! each parameter's binding kind, extracts the success type from the
//! declared result wrapper, and resolves per-route configuration over
//! the service-wide defaults.

use vstd::prelude::*;
use crate::attributes::{
    AttrBag, FreshAttributes, FreshRouteAttributes, FreshRouteAttributeParser, empty_bag,
    has_verb, route_bag, opt_str_view, pairs_view,
};
use crate::error::Error;
use crate::method::{Method, method_of};
use crate::schema::{Attr, MethodSig, ParamDecl, ParamPat, TypeExpr};
use crate::text::str_eq;
use crate::token::Token;

verus! {

/// How one parameter contributes to a request.
#[derive(Debug)]
pub enum ParamKind {
    /// Substituted into a `{name}` placeholder of the path template.
    Path,
    /// Serialized into the query string.
    Query,
    /// Serialized as the JSON request body.
    Json,
    /// Sent as the named header.
    Header(String),
    /// Not part of request construction.
    Other,
}

/// One classified parameter.
pub struct ParamMeta {
    pub ident: String,
    pub ty: Option<TypeExpr>,
    pub kind: ParamKind,
}

/// The metadata of one route-bearing method.
pub struct MethodMeta {
    pub sig_ident: String,
    pub ok_ty: TypeExpr,
    pub params: Vec<ParamMeta>,
    pub route: FreshRouteAttributes,
}

/// The mathematical value of a [`MethodMeta`].
#[verifier::ext_equal]
pub ghost struct MethodMetaV {
    pub sig_ident: String,
    pub ok_ty: TypeExpr,
    pub params: Seq<ParamMeta>,
    pub route: AttrBag,
}

impl View for MethodMeta {
    type V = MethodMetaV;

    open spec fn view(&self) -> MethodMetaV {
        MethodMetaV {
            sig_ident: self.sig_ident,
            ok_ty: self.ok_ty,
            params: self.params@,
            route: self.route@,
        }
    }
}

/// The success type declared by a method: the first type argument of a
/// `Result` wrapper with one or two arguments.
pub open spec fn ok_type_of(output: Option<TypeExpr>) -> Option<TypeExpr> {
    match output {
        Some(t) => {
            if t.ident@ == "Result"@ && 1 <= t.args@.len() <= 2 {
                Some(t.args@[0])
            } else {
                None
            }
        },
        None => None,
    }
}

/// Extracts the success type from a declared result wrapper.
pub fn extract_ok_type(output: Option<TypeExpr>) -> (r: Option<TypeExpr>)
    ensures
        r == ok_type_of(output),
{
    match output {
        Some(t) => {
            if str_eq(t.ident.as_str(), "Result") {
                let n = t.args.len();
                if 1 <= n && n <= 2 {
                    let mut args = t.args;
                    let first = args.remove(0);
                    Some(first)
                } else {
                    None
                }
            } else {
                None
            }
        },
        None => None,
    }
}

/// The binding state accumulated while scanning one parameter's
/// annotations: the last shape annotation seen, and the header name if a
/// `header("...")` annotation occurred (a header binding wins).
pub open spec fn fold_kind(attrs: Seq<Attr>, i: int, kind: ParamKind, hdr: Option<String>) -> Option<
    (ParamKind, Option<String>),
>
    decreases attrs.len() - i,
{
    if i < 0 {
        None
    } else if i >= attrs.len() {
        Some((kind, hdr))
    } else {
        let a = attrs[i];
        if a.name@ == "path"@ {
            fold_kind(attrs, i + 1, ParamKind::Path, hdr)
        } else if a.name@ == "query"@ {
            fold_kind(attrs, i + 1, ParamKind::Query, hdr)
        } else if a.name@ == "json"@ {
            fold_kind(attrs, i + 1, ParamKind::Json, hdr)
        } else if a.name@ == "header"@ {
            if a.args@.len() == 1 && a.args@[0] is StrLit {
                fold_kind(attrs, i + 1, kind, Some(a.args@[0]->StrLit_0))
            } else {
                None
            }
        } else {
            fold_kind(attrs, i + 1, kind, hdr)
        }
    }
}

/// The binding kind of one parameter, from its annotations.
pub open spec fn kind_of_attrs(attrs: Seq<Attr>) -> Option<ParamKind> {
    match fold_kind(attrs, 0, ParamKind::Other, None) {
        Some((kind, hdr)) => match hdr {
            Some(h) => Some(ParamKind::Header(h)),
            None => Some(kind),
        },
        None => None,
    }
}

/// What classifying a parameter list yields: the bindings, or which of
/// the two generation-time faults was met.
pub ghost enum ParamOutcome {
    Bindings(Seq<ParamMeta>),
    /// A parameter pattern that is not a simple name.
    PatternFault,
    /// A `header` annotation without its string argument.
    HeaderFault,
}

/// Classifies the declared parameters in order, skipping the receiver.
pub open spec fn classify_params(ps: Seq<ParamDecl>, i: int) -> ParamOutcome
    decreases ps.len() - i,
{
    if i < 0 {
        ParamOutcome::PatternFault
    } else if i >= ps.len() {
        ParamOutcome::Bindings(Seq::<ParamMeta>::empty())
    } else {
        match ps[i].pat {
            ParamPat::Receiver => classify_params(ps, i + 1),
            ParamPat::Other => ParamOutcome::PatternFault,
            ParamPat::Ident(name) => match kind_of_attrs(ps[i].attrs@) {
                None => ParamOutcome::HeaderFault,
                Some(kind) => match classify_params(ps, i + 1) {
                    ParamOutcome::Bindings(rest) => ParamOutcome::Bindings(
                        seq![ParamMeta { ident: name, ty: ps[i].ty, kind }] + rest,
                    ),
                    o => o,
                },
            },
        }
    }
}

/// Classifies a method's parameters.
pub struct ParamMetaParser;

impl ParamMetaParser {
    /// One binding per declared parameter, the receiver excluded.
    pub fn parse(inputs: Vec<ParamDecl>) -> (r: Result<Vec<ParamMeta>, Error>)
        ensures
            r matches Ok(v) ==> classify_params(inputs@, 0) == ParamOutcome::Bindings(v@),
            r is Ok <==> classify_params(inputs@, 0) is Bindings,
            r matches Err(e) ==> (e is UnsupportedParameterPattern <==> classify_params(
                inputs@,
                0,
            ) is PatternFault),
            r matches Err(e) ==> (e is ConfigSyntax <==> classify_params(
                inputs@,
                0,
            ) is HeaderFault),
    {
        let mut rest = inputs;
        let mut out: Vec<ParamMeta> = Vec::new();
        let ghost all = rest@;
        let n0 = rest.len();
        let mut k: usize = 0;
        while rest.len() > 0
            invariant
                all == inputs@,
                n0 == all.len(),
                k <= n0,
                rest@ == all.skip(k as int),
                classify_params(all, 0) == (match classify_params(all, k as int) {
                    ParamOutcome::Bindings(r2) => ParamOutcome::Bindings(out@ + r2),
                    o => o,
                }),
            decreases rest@.len(),
        {
            let p = rest.remove(0);
            proof {
                assert(all.skip(k as int)[0] == all[k as int]);
                assert(p == all[k as int]);
                assert(all.skip(k as int).skip(1) =~= all.skip(k + 1));
                assert(rest@ =~= all.skip(k + 1));
            }
            match p.pat {
                ParamPat::Receiver => {},
                ParamPat::Other => {
                    proof {
                        assert(all[k as int].pat is Other);
                        assert(classify_params(all, k as int) is PatternFault);
                    }
                    return Err(
                        Error::UnsupportedParameterPattern(
                            String::from_str("parameter pattern is not a simple name"),
                        ),
                    );
                },
                ParamPat::Ident(name) => {
                    let kind = match Self::kind_from_attrs(&p.attrs) {
                        Ok(kind) => kind,
                        Err(e) => {
                            proof {
                                assert(all[k as int].pat == p.pat);
                                assert(classify_params(all, k as int) is HeaderFault);
                            }
                            return Err(e);
                        },
                    };
                    let ghost out0 = out@;
                    let ghost gm = ParamMeta { ident: name, ty: p.ty, kind };
                    out.push(ParamMeta { ident: name, ty: p.ty, kind });
                    proof {
                        if let ParamOutcome::Bindings(r2) = classify_params(all, k + 1) {
                            assert(out@ + r2 =~= out0 + (seq![gm] + r2));
                        }
                    }
                },
            }
            k = k + 1;
        }
        proof {
            assert(all.skip(k as int) =~= Seq::<ParamDecl>::empty());
            assert(out@ + Seq::<ParamMeta>::empty() =~= out@);
        }
        Ok(out)
    }

    /// The binding kind named by one parameter's annotations.
    fn kind_from_attrs(attrs: &Vec<Attr>) -> (r: Result<ParamKind, Error>)
        ensures
            r matches Ok(kind) ==> kind_of_attrs(attrs@) == Some(kind),
            r is Err <==> kind_of_attrs(attrs@) is None,
            r matches Err(e) ==> e is ConfigSyntax,
    {
        let mut kind = ParamKind::Other;
        let mut hdr: Option<String> = None;
        let len = attrs.len();
        let mut i: usize = 0;
        while i < len
            invariant
                len == attrs@.len(),
                i <= len,
                fold_kind(attrs@, 0, ParamKind::Other, None) == fold_kind(
                    attrs@,
                    i as int,
                    kind,
                    hdr,
                ),
            decreases len - i,
        {
            let a = &attrs[i];
            if str_eq(a.name.as_str(), "path") {
                kind = ParamKind::Path;
            } else if str_eq(a.name.as_str(), "query") {
                kind = ParamKind::Query;
            } else if str_eq(a.name.as_str(), "json") {
                kind = ParamKind::Json;
            } else if str_eq(a.name.as_str(), "header") {
                if a.args.len() == 1 {
                    match &a.args[0] {
                        Token::StrLit(s) => {
                            hdr = Some(s.clone());
                        },
                        _ => {
                            return Err(Error::ConfigSyntax(
                                String::from_str("header expects one string argument"),
                            ));
                        },
                    }
                } else {
                    return Err(Error::ConfigSyntax(
                        String::from_str("header expects one string argument"),
                    ));
                }
            }
            i = i + 1;
        }
        match hdr {
            Some(h) => Ok(ParamKind::Header(h)),
            None => Ok(kind),
        }
    }
}


/// The default route path of a method: `/` followed by its identifier.
pub open spec fn default_path(ident: String) -> Seq<char> {
    "/"@ + ident@
}

/// The finished route configuration of one method: the accumulated
/// verb-annotation bag, restricted to the route level, with the default
/// path filled in; `None` on a syntax error in a verb annotation.
pub open spec fn route_of_method(m: MethodSig) -> Option<AttrBag> {
    match route_bag(empty_bag(), m.attrs@, 0) {
        Some(rb) => {
            let rv = AttrBag { endpoint: None, ..rb };
            if rv.path is Some {
                Some(rv)
            } else {
                Some(AttrBag { path: Some(default_path(m.ident)), ..rv })
            }
        },
        None => None,
    }
}

/// What walking the interface yields: the route metadata, or the first
/// generation-time fault.
pub ghost enum BuildOutcome {
    Metas(Seq<MethodMetaV>),
    /// A malformed annotation argument.
    SyntaxFault,
    /// A return type that is not a result wrapper.
    SignatureFault,
    /// A parameter pattern that is not a simple name.
    PatternFault,
}

/// Walks the interface methods in order; methods without a verb-named
/// annotation are skipped entirely.
pub open spec fn build_metas(ms: Seq<MethodSig>, i: int) -> BuildOutcome
    decreases ms.len() - i,
{
    if i < 0 {
        BuildOutcome::SyntaxFault
    } else if i >= ms.len() {
        BuildOutcome::Metas(Seq::<MethodMetaV>::empty())
    } else {
        let m = ms[i];
        if !has_verb(m.attrs@) {
            build_metas(ms, i + 1)
        } else {
            match route_of_method(m) {
                None => BuildOutcome::SyntaxFault,
                Some(route) => match ok_type_of(m.output) {
                    None => BuildOutcome::SignatureFault,
                    Some(ok_ty) => match classify_params(m.inputs@, 0) {
                        ParamOutcome::PatternFault => BuildOutcome::PatternFault,
                        ParamOutcome::HeaderFault => BuildOutcome::SyntaxFault,
                        ParamOutcome::Bindings(params) => match build_metas(ms, i + 1) {
                            BuildOutcome::Metas(rest) => BuildOutcome::Metas(
                                seq![
                                    MethodMetaV { sig_ident: m.ident, ok_ty, params, route },
                                ] + rest,
                            ),
                            o => o,
                        },
                    },
                },
            }
        }
    }
}

/// A route bag built from annotations without a verb never fails.
proof fn lemma_no_verb_route_bag(b: AttrBag, attrs: Seq<Attr>, i: int)
    requires
        0 <= i,
        forall|j: int| i <= j < attrs.len() ==> #[trigger] method_of(attrs[j].name@) is None,
    ensures
        route_bag(b, attrs, i) == Some(b),
    decreases attrs.len() - i,
{
    if i < attrs.len() {
        lemma_no_verb_route_bag(b, attrs, i + 1);
    }
}

/// Walks a service interface's methods into their route metadata.
pub struct MethodMetaParser;

impl MethodMetaParser {
    /// One [`MethodMeta`] per route-bearing method, in declaration
    /// order; methods without a verb-named annotation are absent.
    pub fn parse(methods: Vec<MethodSig>) -> (r: Result<Vec<MethodMeta>, Error>)
        ensures
            r matches Ok(v) ==> build_metas(methods@, 0) == BuildOutcome::Metas(
                v@.map_values(|mm: MethodMeta| mm@),
            ),
            r is Ok <==> build_metas(methods@, 0) is Metas,
            r matches Err(e) ==> (e is ConfigSyntax <==> build_metas(methods@, 0) is SyntaxFault),
            r matches Err(e) ==> (e is UnsupportedSignature <==> build_metas(
                methods@,
                0,
            ) is SignatureFault),
            r matches Err(e) ==> (e is UnsupportedParameterPattern <==> build_metas(
                methods@,
                0,
            ) is PatternFault),
    {
        let mut rest = methods;
        let mut out: Vec<MethodMeta> = Vec::new();
        let ghost all = rest@;
        let n0 = rest.len();
        let mut k: usize = 0;
        proof {
            assert(out@.map_values(|mm: MethodMeta| mm@) =~= Seq::<MethodMetaV>::empty());
        }
        while rest.len() > 0
            invariant
                all == methods@,
                n0 == all.len(),
                k <= n0,
                rest@ == all.skip(k as int),
                build_metas(all, 0) == (match build_metas(all, k as int) {
                    BuildOutcome::Metas(r2) => BuildOutcome::Metas(
                        out@.map_values(|mm: MethodMeta| mm@) + r2,
                    ),
                    o => o,
                }),
            decreases rest@.len(),
        {
            let m = rest.remove(0);
            proof {
                assert(all.skip(k as int)[0] == all[k as int]);
                assert(m == all[k as int]);
                assert(all.skip(k as int).skip(1) =~= all.skip(k + 1));
                assert(rest@ =~= all.skip(k + 1));
            }
            let route = match FreshRouteAttributeParser::parse(&m.attrs) {
                Ok(o) => o,
                Err(e) => {
                    proof {
                        if !has_verb(m.attrs@) {
                            assert(forall|j: int|
                                0 <= j < m.attrs@.len() ==> #[trigger] method_of(
                                    m.attrs@[j].name@,
                                ) is None);
                            lemma_no_verb_route_bag(empty_bag(), m.attrs@, 0);
                        }
                    }
                    return Err(e);
                },
            };
            match route {
                None => {
                    // no verb annotation: the method is not a route
                },
                Some(mut ra) => {
                    let dp = String::from_str("/").concat(m.ident.as_str());
                    ra.set_path_if_none(dp);
                    proof {
                        assert(Some(ra@) =~~= route_of_method(all[k as int]));
                    }
                    let ok_ty = match extract_ok_type(m.output) {
                        Some(t) => t,
                        None => {
                            return Err(
                                Error::UnsupportedSignature(
                                    String::from_str(
                                        "return type must be a result wrapper",
                                    ),
                                ),
                            );
                        },
                    };
                    let params = match ParamMetaParser::parse(m.inputs) {
                        Ok(ps) => ps,
                        Err(e) => {
                            return Err(e);
                        },
                    };
                    let ghost out0 = out@;
                    let ghost gm = MethodMetaV {
                        sig_ident: m.ident,
                        ok_ty: ok_ty,
                        params: params@,
                        route: ra@,
                    };
                    out.push(MethodMeta { sig_ident: m.ident, ok_ty, params, route: ra });
                    proof {
                        assert(out@.map_values(|mm: MethodMeta| mm@) =~~= out0.map_values(
                            |mm: MethodMeta| mm@,
                        ).push(gm));
                        if let BuildOutcome::Metas(r2) = build_metas(all, k + 1) {
                            assert(out@.map_values(|mm: MethodMeta| mm@) + r2 =~~= out0.map_values(
                                |mm: MethodMeta| mm@,
                            ) + (seq![gm] + r2));
                        }
                    }
                },
            }
            k = k + 1;
        }
        proof {
            assert(all.skip(k as int) =~= Seq::<MethodSig>::empty());
            assert(out@.map_values(|mm: MethodMeta| mm@) + Seq::<MethodMetaV>::empty()
                =~= out@.map_values(|mm: MethodMeta| mm@));
        }
        Ok(out)
    }
}

/// A fully resolved per-route configuration: verb and path present,
/// scalars merged method-over-service, header lists concatenated.
pub struct ResolvedConfig {
    pub method: Method,
    pub path: String,
    pub endpoint: Option<String>,
    pub headers: Vec<(String, String)>,
    pub timeout: Option<u64>,
    pub connect_timeout: Option<u64>,
    pub read_timeout: Option<u64>,
}

/// An equal copy of an optional string.
fn clone_opt_string(o: &Option<String>) -> (r: Option<String>)
    ensures
        r == *o,
{
    match o {
        Some(s) => Some(s.clone()),
        None => None,
    }
}

/// The concatenation of two header lists, left before right.
pub(crate) fn concat_pairs(a: &Vec<(String, String)>, b: &Vec<(String, String)>) -> (r: Vec<
    (String, String),
>)
    ensures
        r@ == a@ + b@,
{
    let mut out: Vec<(String, String)> = Vec::new();
    let mut i: usize = 0;
    while i < a.len()
        invariant
            i <= a@.len(),
            out@ == a@.subrange(0, i as int),
        decreases a@.len() - i,
    {
        let p = (a[i].0.clone(), a[i].1.clone());
        out.push(p);
        proof {
            assert(out@ =~= a@.subrange(0, i + 1 as int));
        }
        i = i + 1;
    }
    let mut j: usize = 0;
    while j < b.len()
        invariant
            j <= b@.len(),
            out@ == a@.subrange(0, a@.len() as int) + b@.subrange(0, j as int),
        decreases b@.len() - j,
    {
        let p = (b[j].0.clone(), b[j].1.clone());
        out.push(p);
        proof {
            assert(out@ =~= a@.subrange(0, a@.len() as int) + b@.subrange(0, j + 1 as int));
        }
        j = j + 1;
    }
    proof {
        assert(a@.subrange(0, a@.len() as int) =~= a@);
        assert(b@.subrange(0, b@.len() as int) =~= b@);
        assert(out@ =~= a@ + b@);
    }
    out
}

/// Merges a route configuration over the service-wide one.
///
/// Scalar fields set on the route strictly override the service level;
/// unset scalar fields inherit it.  Header lists concatenate, service
/// headers first, with no entry dropped, duplicates included.  A merge
/// without a verb or a path is a `MissingRoute` fault.
pub fn merge_config(service: &FreshAttributes, route: &FreshRouteAttributes) -> (r: Result<
    ResolvedConfig,
    Error,
>)
    ensures
        r matches Ok(c) ==> ({
            &&& route@.method == Some(c.method)
            &&& route@.path == Some(c.path@)
            &&& opt_str_view(c.endpoint) == service@.endpoint
            &&& pairs_view(c.headers@) == service@.headers + route@.headers
            &&& c.timeout == (if route@.timeout is Some {
                route@.timeout
            } else {
                service@.timeout
            })
            &&& c.connect_timeout == (if route@.connect_timeout is Some {
                route@.connect_timeout
            } else {
                service@.connect_timeout
            })
            &&& c.read_timeout == (if route@.read_timeout is Some {
                route@.read_timeout
            } else {
                service@.read_timeout
            })
        }),
        r is Err <==> (route@.method is None || route@.path is None),
        r matches Err(e) ==> e is MissingRoute,
{
    let method = match &route.method {
        Some(m) => *m,
        None => {
            return Err(Error::MissingRoute(String::from_str("no HTTP method resolved")));
        },
    };
    let path = match &route.path {
        Some(p) => p.clone(),
        None => {
            return Err(Error::MissingRoute(String::from_str("no path resolved")));
        },
    };
    let headers = concat_pairs(&service.headers, &route.headers);
    proof {
        assert(pairs_view(headers@) =~~= service@.headers + route@.headers);
    }
    Ok(
        ResolvedConfig {
            method,
            path,
            endpoint: clone_opt_string(&service.endpoint),
            headers,
            timeout: if route.timeout.is_some() {
                route.timeout
            } else {
                service.timeout
            },
            connect_timeout: if route.connect_timeout.is_some() {
                route.connect_timeout
            } else {
                service.connect_timeout
            },
            read_timeout: if route.read_timeout.is_some() {
                route.read_timeout
            } else {
                service.read_timeout
            },
        },
    )
}


/// The mathematical value of a [`ResolvedConfig`].
#[verifier::ext_equal]
pub ghost struct ResolvedConfigV {
    pub method: Method,
    pub path: Seq<char>,
    pub endpoint: Option<Seq<char>>,
    pub headers: Seq<(Seq<char>, Seq<char>)>,
    pub timeout: Option<u64>,
    pub connect_timeout: Option<u64>,
    pub read_timeout: Option<u64>,
}

impl View for ResolvedConfig {
    type V = ResolvedConfigV;

    open spec fn view(&self) -> ResolvedConfigV {
        ResolvedConfigV {
            method: self.method,
            path: self.path@,
            endpoint: opt_str_view(self.endpoint),
            headers: pairs_view(self.headers@),
            timeout: self.timeout,
            connect_timeout: self.connect_timeout,
            read_timeout: self.read_timeout,
        }
    }
}

/// The compiled record of one route: identifier, success type,
/// resolved configuration and parameter bindings, in declaration order.
pub struct RouteDescriptor {
    pub method_ident: String,
    pub result_type: TypeExpr,
    pub config: ResolvedConfig,
    pub params: Vec<ParamMeta>,
}

/// The mathematical value of a [`RouteDescriptor`].
#[verifier::ext_equal]
pub ghost struct RouteDescriptorV {
    pub method_ident: String,
    pub result_type: TypeExpr,
    pub config: ResolvedConfigV,
    pub params: Seq<ParamMeta>,
}

impl View for RouteDescriptor {
    type V = RouteDescriptorV;

    open spec fn view(&self) -> RouteDescriptorV {
        RouteDescriptorV {
            method_ident: self.method_ident,
            result_type: self.result_type,
            config: self.config@,
            params: self.params@,
        }
    }
}


/// The identifiers of the verb-annotated methods, in declaration
/// order.
pub open spec fn verb_idents(ms: Seq<MethodSig>, i: int) -> Seq<String>
    decreases ms.len() - i,
{
    if i < 0 || i >= ms.len() {
        Seq::<String>::empty()
    } else if has_verb(ms[i].attrs@) {
        seq![ms[i].ident] + verb_idents(ms, i + 1)
    } else {
        verb_idents(ms, i + 1)
    }
}

/// A method without a verb-named annotation yields no route metadata:
/// the built routes carry exactly the identifiers of the verb-annotated
/// methods, in order, so every other method is absent from the
/// generated request surface.
pub proof fn lemma_routes_are_verb_methods(ms: Seq<MethodSig>, i: int)
    requires
        0 <= i,
    ensures
        build_metas(ms, i) matches BuildOutcome::Metas(v) ==> v.map_values(
            |mv: MethodMetaV| mv.sig_ident,
        ) == verb_idents(ms, i),
    decreases ms.len() - i,
{
    if i >= ms.len() {
        assert(Seq::<MethodMetaV>::empty().map_values(|mv: MethodMetaV| mv.sig_ident)
            =~= Seq::<String>::empty());
    } else {
        lemma_routes_are_verb_methods(ms, i + 1);
        if let BuildOutcome::Metas(v) = build_metas(ms, i) {
            if has_verb(ms[i].attrs@) {
                if let BuildOutcome::Metas(rest) = build_metas(ms, i + 1) {
                    assert(v.map_values(|mv: MethodMetaV| mv.sig_ident) =~= seq![ms[i].ident]
                        + rest.map_values(|mv: MethodMetaV| mv.sig_ident));
                }
            }
        }
    }
}

} // verus!
