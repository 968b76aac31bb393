//! The expansion pipeline: one call of the interface compiler, from the
//! annotation form to the generated client artifact — the service
//! configuration, the route descriptors and the client constructors.

use vstd::prelude::*;
use crate::attributes::{
    AttrBag, FreshAttributeParser, FreshAttributes, apply_attr_tokens, empty_bag, pairs_view,
    service_bag,
};
use crate::client::{
    DEFAULT_TIMEOUT_MS, HttpClient, HttpClientOption, all_headers_ok, default_headers_view,
};
use crate::descriptor::{
    BuildOutcome, MethodMetaParser, MethodMetaV, ResolvedConfigV, RouteDescriptor,
    RouteDescriptorV, build_metas, merge_config,
};
use crate::error::Error;
use crate::schema::{Attr, MethodSig, ParamDecl, TraitDef};
use crate::token::Token;
use crate::text::str_eq;
use crate::urls::url_norm;

verus! {

/// The form a compiler invocation takes.
pub enum MacroForm {
    /// An annotation with arguments on an interface definition.
    Attribute { attr: Vec<Token>, item: TraitDef },
    /// A derive-style invocation; not expanded here.
    Derive { item: Vec<Token> },
    /// A function-style invocation; not expanded here.
    Function { item: Vec<Token> },
}

/// Which expander a call asks for.
pub enum MacroKind {
    Fresh,
}

/// One invocation of the compiler.
pub struct MacroCall {
    pub kind: MacroKind,
    pub form: MacroForm,
}

impl MacroCall {
    pub fn new(kind: MacroKind, form: MacroForm) -> (r: Self)
        ensures
            r == (MacroCall { kind, form }),
    {
        Self { kind, form }
    }
}

/// The generated client artifact: its name, the service configuration,
/// and one route descriptor per route-bearing method.
pub struct ClientArtifact {
    pub trait_ident: String,
    pub client_ident: String,
    pub service: FreshAttributes,
    pub routes: Vec<RouteDescriptor>,
}

/// The resolved configuration of one route: its bag merged over the
/// service bag, `None` when verb or path is absent.
pub open spec fn resolve_meta(service: AttrBag, m: MethodMetaV) -> Option<ResolvedConfigV> {
    if m.route.method is None || m.route.path is None {
        None
    } else {
        Some(
            ResolvedConfigV {
                method: m.route.method->0,
                path: m.route.path->0,
                endpoint: service.endpoint,
                headers: service.headers + m.route.headers,
                timeout: if m.route.timeout is Some {
                    m.route.timeout
                } else {
                    service.timeout
                },
                connect_timeout: if m.route.connect_timeout is Some {
                    m.route.connect_timeout
                } else {
                    service.connect_timeout
                },
                read_timeout: if m.route.read_timeout is Some {
                    m.route.read_timeout
                } else {
                    service.read_timeout
                },
            },
        )
    }
}

/// The route descriptors of the metadata list, in order.
pub open spec fn routes_of(service: AttrBag, metas: Seq<MethodMetaV>, i: int) -> Option<
    Seq<RouteDescriptorV>,
>
    decreases metas.len() - i,
{
    if i < 0 {
        None
    } else if i >= metas.len() {
        Some(Seq::<RouteDescriptorV>::empty())
    } else {
        match resolve_meta(service, metas[i]) {
            None => None,
            Some(cfg) => match routes_of(service, metas, i + 1) {
                Some(rest) => Some(
                    seq![
                        RouteDescriptorV {
                            method_ident: metas[i].sig_ident,
                            result_type: metas[i].ok_ty,
                            config: cfg,
                            params: metas[i].params,
                        },
                    ] + rest,
                ),
                None => None,
            },
        }
    }
}

/// What expansion yields: the artifact's mathematical value, or the
/// fault that aborted it.
#[verifier::ext_equal]
pub ghost enum ExpandOutcome {
    Artifact {
        trait_ident: String,
        client_ident: Seq<char>,
        service: AttrBag,
        routes: Seq<RouteDescriptorV>,
    },
    /// A call form this expander does not take.
    FormFault,
    /// A malformed annotation argument.
    SyntaxFault,
    /// A return type that is not a result wrapper.
    SignatureFault,
    /// A parameter pattern that is not a simple name.
    PatternFault,
    /// A route without a resolvable verb or path.
    RouteFault,
}

/// The whole expansion: parse the service attributes, walk the methods,
/// merge each route's configuration, name the client after the trait.
pub open spec fn expand_spec(call: MacroCall) -> ExpandOutcome {
    match call.form {
        MacroForm::Attribute { attr, item } => {
            match service_bag(apply_attr_tokens(empty_bag(), attr@, 0)) {
                None => ExpandOutcome::SyntaxFault,
                Some(service) => match build_metas(item.methods@, 0) {
                    BuildOutcome::SyntaxFault => ExpandOutcome::SyntaxFault,
                    BuildOutcome::SignatureFault => ExpandOutcome::SignatureFault,
                    BuildOutcome::PatternFault => ExpandOutcome::PatternFault,
                    BuildOutcome::Metas(ms) => match routes_of(service, ms, 0) {
                        None => ExpandOutcome::RouteFault,
                        Some(rs) => ExpandOutcome::Artifact {
                            trait_ident: item.ident,
                            client_ident: item.ident@ + "Client"@,
                            service,
                            routes: rs,
                        },
                    },
                },
            }
        },
        _ => ExpandOutcome::FormFault,
    }
}

/// The expander of the service-interface annotation.
pub struct FreshExpander;

impl FreshExpander {
    /// Expands one invocation into the generated client artifact.
    pub fn expand(&self, call: MacroCall) -> (r: Result<ClientArtifact, Error>)
        ensures
            r matches Ok(a) ==> expand_spec(call) == (ExpandOutcome::Artifact {
                trait_ident: a.trait_ident,
                client_ident: a.client_ident@,
                service: a.service@,
                routes: a.routes@.map_values(|rd: RouteDescriptor| rd@),
            }),
            r is Ok <==> expand_spec(call) is Artifact,
            r matches Err(e) ==> (e is InvalidArgument <==> expand_spec(call) is FormFault),
            r matches Err(e) ==> (e is ConfigSyntax <==> expand_spec(call) is SyntaxFault),
            r matches Err(e) ==> (e is UnsupportedSignature <==> expand_spec(
                call,
            ) is SignatureFault),
            r matches Err(e) ==> (e is UnsupportedParameterPattern <==> expand_spec(
                call,
            ) is PatternFault),
            r matches Err(e) ==> (e is MissingRoute <==> expand_spec(call) is RouteFault),
    {
        let ghost goal = expand_spec(call);
        let (attr, item) = match call.form {
            MacroForm::Attribute { attr, item } => (attr, item),
            _ => {
                return Err(
                    Error::InvalidArgument(String::from_str("unsupported macro form")),
                );
            },
        };
        let service = match FreshAttributeParser::parse(&attr) {
            Ok(s) => s,
            Err(e) => {
                return Err(e);
            },
        };
        let trait_ident = item.ident;
        let client_ident = trait_ident.clone().concat("Client");
        let mut metas = match MethodMetaParser::parse(item.methods) {
            Ok(ms) => ms,
            Err(e) => {
                return Err(e);
            },
        };
        let ghost all = metas@;
        let ghost allv = metas@.map_values(|m: crate::descriptor::MethodMeta| m@);
        let ghost sbag = service@;
        let mut routes: Vec<RouteDescriptor> = Vec::new();
        let n0 = metas.len();
        let mut k: usize = 0;
        proof {
            assert(routes@.map_values(|rd: RouteDescriptor| rd@) =~= Seq::<
                RouteDescriptorV,
            >::empty());
            assert(goal == (match routes_of(sbag, allv, 0) {
                Some(rs) => ExpandOutcome::Artifact {
                    trait_ident: trait_ident,
                    client_ident: trait_ident@ + "Client"@,
                    service: sbag,
                    routes: rs,
                },
                None => ExpandOutcome::RouteFault,
            }));
        }
        while metas.len() > 0
            invariant
                goal == expand_spec(call),
                sbag == service@,
                n0 == all.len(),
                k <= n0,
                metas@ == all.skip(k as int),
                allv == all.map_values(|m: crate::descriptor::MethodMeta| m@),
                goal == (match routes_of(sbag, allv, 0) {
                    Some(rs) => ExpandOutcome::Artifact {
                        trait_ident: trait_ident,
                        client_ident: trait_ident@ + "Client"@,
                        service: sbag,
                        routes: rs,
                    },
                    None => ExpandOutcome::RouteFault,
                }),
                routes_of(sbag, allv, 0) == (match routes_of(sbag, allv, k as int) {
                    Some(r2) => Some(routes@.map_values(|rd: RouteDescriptor| rd@) + r2),
                    None => None,
                }),
            decreases metas@.len(),
        {
            let meta = metas.remove(0);
            proof {
                assert(all.skip(k as int)[0] == all[k as int]);
                assert(meta == all[k as int]);
                assert(all.skip(k as int).skip(1) =~= all.skip(k + 1));
                assert(metas@ =~= all.skip(k + 1));
            }
            let cfg = match merge_config(&service, &meta.route) {
                Ok(c) => c,
                Err(e) => {
                    proof {
                        assert(allv[k as int] == all[k as int]@);
                        assert(resolve_meta(sbag, allv[k as int]) is None);
                        assert(routes_of(sbag, allv, k as int) is None);
                    }
                    return Err(e);
                },
            };
            proof {
                assert(allv[k as int] == all[k as int]@);
                assert(Some(cfg@) =~~= resolve_meta(sbag, allv[k as int]));
            }
            let ghost routes0 = routes@;
            let ghost gd = RouteDescriptorV {
                method_ident: meta.sig_ident,
                result_type: meta.ok_ty,
                config: cfg@,
                params: meta.params@,
            };
            routes.push(
                RouteDescriptor {
                    method_ident: meta.sig_ident,
                    result_type: meta.ok_ty,
                    config: cfg,
                    params: meta.params,
                },
            );
            proof {
                assert(routes@.map_values(|rd: RouteDescriptor| rd@) =~~= routes0.map_values(
                    |rd: RouteDescriptor| rd@,
                ).push(gd));
                if let Some(r2) = routes_of(sbag, allv, k + 1) {
                    assert(routes@.map_values(|rd: RouteDescriptor| rd@) + r2
                        =~~= routes0.map_values(|rd: RouteDescriptor| rd@) + (seq![gd] + r2));
                }
            }
            k = k + 1;
        }
        proof {
            assert(all.skip(k as int) =~= Seq::<crate::descriptor::MethodMeta>::empty());
            assert(routes@.map_values(|rd: RouteDescriptor| rd@) + Seq::<
                RouteDescriptorV,
            >::empty() =~= routes@.map_values(|rd: RouteDescriptor| rd@));
        }
        Ok(ClientArtifact { trait_ident, client_ident, service, routes })
    }
}

/// Hands one invocation to the expander its kind names.
pub fn dispatch(call: MacroCall) -> (r: Result<ClientArtifact, Error>)
    ensures
        r matches Ok(a) ==> expand_spec(call) == (ExpandOutcome::Artifact {
            trait_ident: a.trait_ident,
            client_ident: a.client_ident@,
            service: a.service@,
            routes: a.routes@.map_values(|rd: RouteDescriptor| rd@),
        }),
        r is Ok <==> expand_spec(call) is Artifact,
{
    match call.kind {
        MacroKind::Fresh => {
            let expander = FreshExpander;
            expander.expand(call)
        },
    }
}

/// The headers a default-constructed client starts from: the declared
/// service headers, or the library's defaults when none were declared.
pub open spec fn effective_headers(service: AttrBag) -> Seq<(Seq<char>, Seq<char>)> {
    if service.headers.len() == 0 {
        default_headers_view()
    } else {
        service.headers
    }
}

/// The index of the first route with the given method identifier.
pub open spec fn find_route_spec(routes: Seq<RouteDescriptor>, name: Seq<char>, i: int) -> Option<
    int,
>
    decreases routes.len() - i,
{
    if i < 0 || i >= routes.len() {
        None
    } else if routes[i].method_ident@ == name {
        Some(i)
    } else {
        find_route_spec(routes, name, i + 1)
    }
}

impl ClientArtifact {
    /// The default constructor: a client on the service-declared
    /// endpoint, headers and timeouts.
    ///
    /// Unavailable — it fails — when the service declared no endpoint;
    /// otherwise it fails exactly when the endpoint is not an absolute
    /// URL or a header is one the transport rejects.
    pub fn new_default(&self) -> (r: Result<HttpClient, Error>)
        ensures
            r matches Ok(c) ==> ({
                &&& self.service@.endpoint matches Some(ep) && url_norm(ep) == Some(
                    c.option.endpoint@,
                )
                &&& c.wf()
                &&& pairs_view(c.option.headers@) == effective_headers(self.service@)
                &&& c.option.timeout == (if self.service@.timeout is Some {
                    self.service@.timeout->0
                } else {
                    DEFAULT_TIMEOUT_MS
                })
                &&& c.option.connect_timeout == (if self.service@.connect_timeout is Some {
                    self.service@.connect_timeout->0
                } else {
                    DEFAULT_TIMEOUT_MS
                })
                &&& c.option.read_timeout == (if self.service@.read_timeout is Some {
                    self.service@.read_timeout->0
                } else {
                    DEFAULT_TIMEOUT_MS
                })
            }),
            r is Err <==> (self.service@.endpoint is None || url_norm(
                self.service@.endpoint->0,
            ) is None || !all_headers_ok(effective_headers(self.service@))),
            r matches Err(e) ==> e is ConfigBuild,
    {
        let ep = match &self.service.endpoint {
            Some(e) => e,
            None => {
                return Err(Error::ConfigBuild(String::from_str("no endpoint was declared")));
            },
        };
        let mut b = HttpClientOption::builder().endpoint(ep.as_str());
        if self.service.headers.len() > 0 {
            let empty: Vec<(String, String)> = Vec::new();
            let hs = crate::descriptor::concat_pairs(&self.service.headers, &empty);
            proof {
                assert(hs@ =~= self.service.headers@);
            }
            b = b.headers(hs);
        }
        b = match self.service.timeout {
            Some(ms) => b.timeout(ms),
            None => b,
        };
        b = match self.service.connect_timeout {
            Some(ms) => b.connect_timeout(ms),
            None => b,
        };
        b = match self.service.read_timeout {
            Some(ms) => b.read_timeout(ms),
            None => b,
        };
        let option = match b.build() {
            Ok(o) => o,
            Err(e) => {
                return Err(e);
            },
        };
        HttpClient::new(option)
    }

    /// The explicit-endpoint constructor: everything but the endpoint
    /// defaulted.
    pub fn with_endpoint(&self, endpoint: &str) -> (r: Result<HttpClient, Error>)
        ensures
            r matches Ok(c) ==> url_norm(endpoint@) == Some(c.option.endpoint@) && c.wf(),
            r is Err <==> (url_norm(endpoint@) is None || !all_headers_ok(
                default_headers_view(),
            )),
            r matches Err(e) ==> e is ConfigBuild,
    {
        HttpClient::with_endpoint(endpoint)
    }

    /// The route descriptor of the named method, if that method is part
    /// of the request surface.
    pub fn find_route(&self, name: &str) -> (r: Option<&RouteDescriptor>)
        ensures
            r matches Some(rd) ==> (find_route_spec(self.routes@, name@, 0) matches Some(j)
                && *rd == self.routes@[j]),
            r is None <==> find_route_spec(self.routes@, name@, 0) is None,
    {
        let mut i: usize = 0;
        while i < self.routes.len()
            invariant
                i <= self.routes@.len(),
                find_route_spec(self.routes@, name@, 0) == find_route_spec(
                    self.routes@,
                    name@,
                    i as int,
                ),
            decreases self.routes@.len() - i,
        {
            if str_eq(self.routes[i].method_ident.as_str(), name) {
                proof {
                    assert(find_route_spec(self.routes@, name@, i as int) == Some(i as int));
                }
                return Some(&self.routes[i]);
            }
            i = i + 1;
        }
        None
    }
}


/// The annotation entry point: wraps the argument tokens and the
/// interface definition into a call and dispatches it.
pub fn request(attr: Vec<Token>, item: TraitDef) -> (r: Result<ClientArtifact, Error>)
    ensures
        r matches Ok(a) ==> expand_spec(
            MacroCall { kind: MacroKind::Fresh, form: MacroForm::Attribute { attr, item } },
        ) == (ExpandOutcome::Artifact {
            trait_ident: a.trait_ident,
            client_ident: a.client_ident@,
            service: a.service@,
            routes: a.routes@.map_values(|rd: RouteDescriptor| rd@),
        }),
        r is Ok <==> expand_spec(
            MacroCall { kind: MacroKind::Fresh, form: MacroForm::Attribute { attr, item } },
        ) is Artifact,
{
    let call = MacroCall::new(MacroKind::Fresh, MacroForm::Attribute { attr, item });
    dispatch(call)
}


/// The method-level annotation names the compiler consumes, and so
/// strips from the definition it hands back.
pub open spec fn is_stripped_method_attr(name: Seq<char>) -> bool {
    ||| name == "get"@
    ||| name == "post"@
    ||| name == "put"@
    ||| name == "delete"@
    ||| name == "patch"@
}

/// The parameter-level annotation names the compiler consumes.
pub open spec fn is_stripped_param_attr(name: Seq<char>) -> bool {
    ||| name == "path"@
    ||| name == "query"@
    ||| name == "json"@
    ||| name == "header"@
}

/// A method's annotations with the consumed ones removed, order kept.
pub open spec fn kept_method_attrs(attrs: Seq<Attr>) -> Seq<Attr>
    decreases attrs.len(),
{
    if attrs.len() == 0 {
        Seq::<Attr>::empty()
    } else if is_stripped_method_attr(attrs[0].name@) {
        kept_method_attrs(attrs.drop_first())
    } else {
        seq![attrs[0]] + kept_method_attrs(attrs.drop_first())
    }
}

/// A parameter's annotations with the consumed ones removed, order
/// kept.
pub open spec fn kept_param_attrs(attrs: Seq<Attr>) -> Seq<Attr>
    decreases attrs.len(),
{
    if attrs.len() == 0 {
        Seq::<Attr>::empty()
    } else if is_stripped_param_attr(attrs[0].name@) {
        kept_param_attrs(attrs.drop_first())
    } else {
        seq![attrs[0]] + kept_param_attrs(attrs.drop_first())
    }
}

/// A parameter stripped of consumed annotations, otherwise unchanged.
pub open spec fn param_stripped(before: ParamDecl, after: ParamDecl) -> bool {
    &&& after.pat == before.pat
    &&& after.ty == before.ty
    &&& after.attrs@ == kept_param_attrs(before.attrs@)
}

/// A method stripped of consumed annotations, on itself and on each of
/// its parameters, otherwise unchanged.
pub open spec fn method_stripped(before: MethodSig, after: MethodSig) -> bool {
    &&& after.ident == before.ident
    &&& after.output == before.output
    &&& after.attrs@ == kept_method_attrs(before.attrs@)
    &&& after.inputs@.len() == before.inputs@.len()
    &&& forall|j: int|
        0 <= j < before.inputs@.len() ==> param_stripped(
            before.inputs@[j],
            #[trigger] after.inputs@[j],
        )
}

fn strip_method_attrs(attrs: Vec<Attr>) -> (r: Vec<Attr>)
    ensures
        r@ == kept_method_attrs(attrs@),
{
    let mut rest = attrs;
    let mut out: Vec<Attr> = Vec::new();
    let ghost all = rest@;
    let n0 = rest.len();
    let mut k: usize = 0;
    while rest.len() > 0
        invariant
            all == attrs@,
            n0 == all.len(),
            k <= n0,
            rest@ == all.skip(k as int),
            kept_method_attrs(all) == out@ + kept_method_attrs(all.skip(k as int)),
        decreases rest@.len(),
    {
        let a = rest.remove(0);
        proof {
            assert(all.skip(k as int)[0] == all[k as int]);
            assert(a == all[k as int]);
            assert(all.skip(k as int).drop_first() =~= all.skip(k + 1));
            assert(rest@ =~= all.skip(k + 1));
        }
        let stripped = crate::text::str_eq(a.name.as_str(), "get")
            || crate::text::str_eq(a.name.as_str(), "post")
            || crate::text::str_eq(a.name.as_str(), "put")
            || crate::text::str_eq(a.name.as_str(), "delete")
            || crate::text::str_eq(a.name.as_str(), "patch");
        if !stripped {
            let ghost out0 = out@;
            let ghost ga = a;
            out.push(a);
            proof {
                assert(out@ + kept_method_attrs(all.skip(k + 1)) =~= out0 + (seq![ga]
                    + kept_method_attrs(all.skip(k + 1))));
            }
        }
        k = k + 1;
    }
    proof {
        assert(all.skip(k as int) =~= Seq::<Attr>::empty());
        assert(out@ + Seq::<Attr>::empty() =~= out@);
    }
    out
}

fn strip_param_attrs(attrs: Vec<Attr>) -> (r: Vec<Attr>)
    ensures
        r@ == kept_param_attrs(attrs@),
{
    let mut rest = attrs;
    let mut out: Vec<Attr> = Vec::new();
    let ghost all = rest@;
    let n0 = rest.len();
    let mut k: usize = 0;
    while rest.len() > 0
        invariant
            all == attrs@,
            n0 == all.len(),
            k <= n0,
            rest@ == all.skip(k as int),
            kept_param_attrs(all) == out@ + kept_param_attrs(all.skip(k as int)),
        decreases rest@.len(),
    {
        let a = rest.remove(0);
        proof {
            assert(all.skip(k as int)[0] == all[k as int]);
            assert(a == all[k as int]);
            assert(all.skip(k as int).drop_first() =~= all.skip(k + 1));
            assert(rest@ =~= all.skip(k + 1));
        }
        let stripped = crate::text::str_eq(a.name.as_str(), "path")
            || crate::text::str_eq(a.name.as_str(), "query")
            || crate::text::str_eq(a.name.as_str(), "json")
            || crate::text::str_eq(a.name.as_str(), "header");
        if !stripped {
            let ghost out0 = out@;
            let ghost ga = a;
            out.push(a);
            proof {
                assert(out@ + kept_param_attrs(all.skip(k + 1)) =~= out0 + (seq![ga]
                    + kept_param_attrs(all.skip(k + 1))));
            }
        }
        k = k + 1;
    }
    proof {
        assert(all.skip(k as int) =~= Seq::<Attr>::empty());
        assert(out@ + Seq::<Attr>::empty() =~= out@);
    }
    out
}

fn strip_param(p: ParamDecl) -> (r: ParamDecl)
    ensures
        param_stripped(p, r),
{
    ParamDecl { pat: p.pat, ty: p.ty, attrs: strip_param_attrs(p.attrs) }
}

fn strip_method(m: MethodSig) -> (r: MethodSig)
    ensures
        method_stripped(m, r),
{
    let attrs = strip_method_attrs(m.attrs);
    let mut rest = m.inputs;
    let mut inputs: Vec<ParamDecl> = Vec::new();
    let ghost all = rest@;
    let n0 = rest.len();
    let mut k: usize = 0;
    while rest.len() > 0
        invariant
            n0 == all.len(),
            k <= n0,
            rest@ == all.skip(k as int),
            inputs@.len() == k,
            forall|j: int| 0 <= j < k ==> param_stripped(all[j], #[trigger] inputs@[j]),
        decreases rest@.len(),
    {
        let p = rest.remove(0);
        proof {
            assert(all.skip(k as int)[0] == all[k as int]);
            assert(p == all[k as int]);
            assert(all.skip(k as int).drop_first() =~= all.skip(k + 1));
            assert(rest@ =~= all.skip(k + 1));
        }
        inputs.push(strip_param(p));
        k = k + 1;
    }
    proof {
        assert(all =~= m.inputs@);
    }
    MethodSig { ident: m.ident, attrs, inputs, output: m.output }
}

/// The definition as a caller may republish it: every annotation the
/// compiler consumed — the verb names on methods, the binding names on
/// parameters — removed, everything else unchanged.
pub fn strip_custom_attrs_in_trait(def: TraitDef) -> (r: TraitDef)
    ensures
        r.ident == def.ident,
        r.methods@.len() == def.methods@.len(),
        forall|i: int|
            0 <= i < def.methods@.len() ==> method_stripped(
                def.methods@[i],
                #[trigger] r.methods@[i],
            ),
{
    let mut rest = def.methods;
    let mut methods: Vec<MethodSig> = Vec::new();
    let ghost all = rest@;
    let n0 = rest.len();
    let mut k: usize = 0;
    while rest.len() > 0
        invariant
            n0 == all.len(),
            k <= n0,
            rest@ == all.skip(k as int),
            methods@.len() == k,
            forall|i: int| 0 <= i < k ==> method_stripped(all[i], #[trigger] methods@[i]),
        decreases rest@.len(),
    {
        let m = rest.remove(0);
        proof {
            assert(all.skip(k as int)[0] == all[k as int]);
            assert(m == all[k as int]);
            assert(all.skip(k as int).drop_first() =~= all.skip(k + 1));
            assert(rest@ =~= all.skip(k + 1));
        }
        methods.push(strip_method(m));
        k = k + 1;
    }
    TraitDef { ident: def.ident, methods }
}

} // verus!
