//! The synthesis engine: interprets one route descriptor over concrete
//! argument values as a request plan — path template instantiated,
//! query string and headers attached in declaration order, body set —
//! and turns a transport's response into the decoded value or the
//! categorized error.

use vstd::prelude::*;
use vstd::utf8::encode_utf8;
use crate::attributes::{opt_str_view, pairs_view};
use crate::descriptor::{ParamKind, ParamMeta, RouteDescriptor, RouteDescriptorV, concat_pairs};
use crate::error::{Error, snippet, snippet_of};
use crate::method::Method;
use crate::text::{contains_char, replace_all, replace_chars, chars_to_string};
use crate::urls::{url_join_norm, join_url};

verus! {

/// Characters a response-body excerpt is limited to.
pub const SNIPPET_LIMIT: usize = 200;

/// One argument of a route method call, as the binding kinds consume
/// them: a string representation, a field set, or serialized JSON.
pub enum ArgValue {
    /// For path-segment and header bindings.
    Text(String),
    /// For query bindings: the bound value's fields, in declared order.
    Pairs(Vec<(String, String)>),
    /// For body bindings: the value already serialized as JSON.
    JsonText(String),
}

/// The `{name}` placeholder of a path parameter.
pub open spec fn placeholder_of(name: Seq<char>) -> Seq<char> {
    seq!['{'] + name + seq!['}']
}

/// The path template with every path-bound parameter's placeholder
/// replaced by its value, applied in declaration order; `None` when a
/// path-bound parameter's argument is not text.
pub open spec fn inst_path(t: Seq<char>, params: Seq<ParamMeta>, args: Seq<ArgValue>, i: int) -> Option<
    Seq<char>,
>
    decreases params.len() - i,
{
    if i < 0 {
        None
    } else if i >= params.len() {
        Some(t)
    } else {
        match params[i].kind {
            ParamKind::Path => match args[i] {
                ArgValue::Text(v) => inst_path(
                    replace_chars(t, placeholder_of(params[i].ident@), v@),
                    params,
                    args,
                    i + 1,
                ),
                _ => None,
            },
            _ => inst_path(t, params, args, i + 1),
        }
    }
}

/// The query pairs of the call: the field sets of query-bound
/// parameters, concatenated in declaration order.
pub open spec fn query_pairs(params: Seq<ParamMeta>, args: Seq<ArgValue>, i: int) -> Option<
    Seq<(Seq<char>, Seq<char>)>,
>
    decreases params.len() - i,
{
    if i < 0 {
        None
    } else if i >= params.len() {
        Some(Seq::<(Seq<char>, Seq<char>)>::empty())
    } else {
        match params[i].kind {
            ParamKind::Query => match args[i] {
                ArgValue::Pairs(ps) => match query_pairs(params, args, i + 1) {
                    Some(rest) => Some(pairs_view(ps@) + rest),
                    None => None,
                },
                _ => None,
            },
            _ => query_pairs(params, args, i + 1),
        }
    }
}

/// The headers contributed by header-bound parameters, in declaration
/// order.
pub open spec fn header_args(params: Seq<ParamMeta>, args: Seq<ArgValue>, i: int) -> Option<
    Seq<(Seq<char>, Seq<char>)>,
>
    decreases params.len() - i,
{
    if i < 0 {
        None
    } else if i >= params.len() {
        Some(Seq::<(Seq<char>, Seq<char>)>::empty())
    } else {
        match params[i].kind {
            ParamKind::Header(name) => match args[i] {
                ArgValue::Text(v) => match header_args(params, args, i + 1) {
                    Some(rest) => Some(seq![(name@, v@)] + rest),
                    None => None,
                },
                _ => None,
            },
            _ => header_args(params, args, i + 1),
        }
    }
}

/// The request body: the last body-bound parameter's JSON, if any.
pub open spec fn body_arg(params: Seq<ParamMeta>, args: Seq<ArgValue>, i: int, cur: Option<
    Seq<char>,
>) -> Option<Option<Seq<char>>>
    decreases params.len() - i,
{
    if i < 0 {
        None
    } else if i >= params.len() {
        Some(cur)
    } else {
        match params[i].kind {
            ParamKind::Json => match args[i] {
                ArgValue::JsonText(s) => body_arg(params, args, i + 1, Some(s@)),
                _ => None,
            },
            _ => body_arg(params, args, i + 1, cur),
        }
    }
}

/// The decimal digit or upper-case hex letter of a value in `0..=15`.
pub open spec fn hex_digit(d: int) -> char {
    if d < 10 {
        (48 + d) as char
    } else {
        (55 + d) as char
    }
}

/// One byte form-encoded: alphanumerics and `* - . _` stand for
/// themselves, a space becomes `+`, anything else `%XX`.
pub open spec fn qe_byte(b: u8) -> Seq<char> {
    if (48 <= b && b <= 57) || (65 <= b && b <= 90) || (97 <= b && b <= 122) || b == 42 || b == 45
        || b == 46 || b == 95 {
        seq![b as char]
    } else if b == 32 {
        seq!['+']
    } else {
        seq!['%', hex_digit(b as int / 16), hex_digit(b as int % 16)]
    }
}

/// A byte sequence form-encoded.
pub open spec fn qe_bytes(bs: Seq<u8>) -> Seq<char>
    decreases bs.len(),
{
    if bs.len() == 0 {
        Seq::<char>::empty()
    } else {
        qe_byte(bs[0]) + qe_bytes(bs.drop_first())
    }
}

/// A string form-encoded: its UTF-8 bytes, byte by byte.
pub open spec fn qe_str(s: Seq<char>) -> Seq<char> {
    qe_bytes(encode_utf8(s))
}

/// The query string of a pair list: `k=v` joined with `&`, keys and
/// values form-encoded, field order preserved.
pub open spec fn qs_of(ps: Seq<(Seq<char>, Seq<char>)>) -> Seq<char>
    decreases ps.len(),
{
    if ps.len() == 0 {
        Seq::<char>::empty()
    } else {
        let head = qe_str(ps[0].0) + seq!['='] + qe_str(ps[0].1);
        if ps.len() == 1 {
            head
        } else {
            head + seq!['&'] + qs_of(ps.drop_first())
        }
    }
}

/// A concrete request, ready for a transport to dispatch.  A body, when
/// present, is already serialized JSON, and implies a JSON content type
/// at dispatch time.
pub struct RequestPlan {
    pub method: Method,
    pub url: String,
    pub headers: Vec<(String, String)>,
    pub body: Option<String>,
}

/// What building a request yields: the plan's mathematical value, or
/// which of the two call-time faults was met.
pub ghost enum PlanOutcome {
    Plan {
        method: Method,
        url: Seq<char>,
        headers: Seq<(Seq<char>, Seq<char>)>,
        body: Option<Seq<char>>,
    },
    /// An argument whose shape does not fit its binding.
    ArgFault,
    /// A request URL that could not be formed.
    UrlFault,
}

/// The whole synthesis pipeline: instantiate the path, resolve the URL
/// against the endpoint, then attach query, headers and body.
pub open spec fn plan_of(endpoint: Seq<char>, route: RouteDescriptorV, args: Seq<ArgValue>) -> PlanOutcome {
    if args.len() != route.params.len() {
        PlanOutcome::ArgFault
    } else {
        match inst_path(route.config.path, route.params, args, 0) {
            None => PlanOutcome::ArgFault,
            Some(path) => match url_join_norm(endpoint, path) {
                None => PlanOutcome::UrlFault,
                Some(u0) => match query_pairs(route.params, args, 0) {
                    None => PlanOutcome::ArgFault,
                    Some(q) => match header_args(route.params, args, 0) {
                        None => PlanOutcome::ArgFault,
                        Some(hs) => match body_arg(route.params, args, 0, None) {
                            None => PlanOutcome::ArgFault,
                            Some(body) => PlanOutcome::Plan {
                                method: route.config.method,
                                url: if q.len() == 0 {
                                    u0
                                } else {
                                    u0 + seq![
                                        if u0.contains('?') {
                                            '&'
                                        } else {
                                            '?'
                                        },
                                    ] + qs_of(q)
                                },
                                headers: route.config.headers + hs,
                                body,
                            },
                        },
                    },
                },
            },
        }
    }
}


/// Instantiates the path template over the call's arguments.
fn instantiate_path(template: &String, params: &Vec<ParamMeta>, args: &Vec<ArgValue>) -> (r:
    Result<String, Error>)
    requires
        params@.len() == args@.len(),
    ensures
        r matches Ok(p) ==> inst_path(template@, params@, args@, 0) == Some(p@),
        r is Err <==> inst_path(template@, params@, args@, 0) is None,
        r matches Err(e) ==> e is InvalidArgument,
{
    let mut cur = template.clone();
    let len = params.len();
    let mut i: usize = 0;
    while i < len
        invariant
            len == params@.len(),
            params@.len() == args@.len(),
            i <= len,
            inst_path(template@, params@, args@, 0) == inst_path(cur@, params@, args@, i as int),
        decreases len - i,
    {
        match &params[i].kind {
            ParamKind::Path => {
                match &args[i] {
                    ArgValue::Text(v) => {
                        let ph = String::from_str("{").concat(params[i].ident.as_str()).concat(
                            "}",
                        );
                        proof {
                            reveal_strlit("{");
                            reveal_strlit("}");
                            assert(ph@ =~= placeholder_of(params@[i as int].ident@));
                        }
                        cur = replace_all(cur.as_str(), ph.as_str(), v.as_str());
                    },
                    _ => {
                        return Err(
                            Error::InvalidArgument(
                                String::from_str("a path binding needs a text argument"),
                            ),
                        );
                    },
                }
            },
            _ => {},
        }
        i = i + 1;
    }
    Ok(cur)
}

/// Collects the query pairs of the call, in declaration order.
fn collect_query(params: &Vec<ParamMeta>, args: &Vec<ArgValue>) -> (r: Result<
    Vec<(String, String)>,
    Error,
>)
    requires
        params@.len() == args@.len(),
    ensures
        r matches Ok(q) ==> query_pairs(params@, args@, 0) == Some(pairs_view(q@)),
        r is Err <==> query_pairs(params@, args@, 0) is None,
        r matches Err(e) ==> e is InvalidArgument,
{
    let mut out: Vec<(String, String)> = Vec::new();
    let len = params.len();
    let mut i: usize = 0;
    proof {
        if let Some(rest) = query_pairs(params@, args@, 0) {
            assert(pairs_view(out@) + rest =~~= rest);
        }
    }
    while i < len
        invariant
            len == params@.len(),
            params@.len() == args@.len(),
            i <= len,
            query_pairs(params@, args@, i as int) matches Some(rest) ==> query_pairs(
                params@,
                args@,
                0,
            ) == Some(pairs_view(out@) + rest),
            query_pairs(params@, args@, i as int) is None ==> query_pairs(
                params@,
                args@,
                0,
            ) is None,
        decreases len - i,
    {
        match &params[i].kind {
            ParamKind::Query => {
                match &args[i] {
                    ArgValue::Pairs(ps) => {
                        let ghost out0 = out@;
                        let mut j: usize = 0;
                        while j < ps.len()
                            invariant
                                j <= ps@.len(),
                                out@ == out0 + ps@.subrange(0, j as int),
                            decreases ps@.len() - j,
                        {
                            out.push((ps[j].0.clone(), ps[j].1.clone()));
                            proof {
                                assert(out@ =~= out0 + ps@.subrange(0, j + 1 as int));
                            }
                            j = j + 1;
                        }
                        proof {
                            assert(ps@.subrange(0, ps@.len() as int) =~= ps@);
                            if let Some(rest) = query_pairs(params@, args@, i + 1) {
                                assert(pairs_view(out@) + rest =~~= pairs_view(out0) + (pairs_view(
                                    ps@,
                                ) + rest));
                            }
                        }
                    },
                    _ => {
                        return Err(
                            Error::InvalidArgument(
                                String::from_str("a query binding needs a field-set argument"),
                            ),
                        );
                    },
                }
            },
            _ => {},
        }
        i = i + 1;
    }
    proof {
        assert(pairs_view(out@) + Seq::<(Seq<char>, Seq<char>)>::empty() =~~= pairs_view(out@));
    }
    Ok(out)
}

/// Collects the headers contributed by header-bound arguments.
fn collect_headers(params: &Vec<ParamMeta>, args: &Vec<ArgValue>) -> (r: Result<
    Vec<(String, String)>,
    Error,
>)
    requires
        params@.len() == args@.len(),
    ensures
        r matches Ok(h) ==> header_args(params@, args@, 0) == Some(pairs_view(h@)),
        r is Err <==> header_args(params@, args@, 0) is None,
        r matches Err(e) ==> e is InvalidArgument,
{
    let mut out: Vec<(String, String)> = Vec::new();
    let len = params.len();
    let mut i: usize = 0;
    proof {
        if let Some(rest) = header_args(params@, args@, 0) {
            assert(pairs_view(out@) + rest =~~= rest);
        }
    }
    while i < len
        invariant
            len == params@.len(),
            params@.len() == args@.len(),
            i <= len,
            header_args(params@, args@, i as int) matches Some(rest) ==> header_args(
                params@,
                args@,
                0,
            ) == Some(pairs_view(out@) + rest),
            header_args(params@, args@, i as int) is None ==> header_args(
                params@,
                args@,
                0,
            ) is None,
        decreases len - i,
    {
        match &params[i].kind {
            ParamKind::Header(name) => {
                match &args[i] {
                    ArgValue::Text(v) => {
                        let ghost out0 = out@;
                        out.push((name.clone(), v.clone()));
                        proof {
                            if let Some(rest) = header_args(params@, args@, i + 1) {
                                assert(pairs_view(out@) + rest =~~= pairs_view(out0) + (seq![
                                    (name@, v@),
                                ] + rest));
                            }
                        }
                    },
                    _ => {
                        return Err(
                            Error::InvalidArgument(
                                String::from_str("a header binding needs a text argument"),
                            ),
                        );
                    },
                }
            },
            _ => {},
        }
        i = i + 1;
    }
    proof {
        assert(pairs_view(out@) + Seq::<(Seq<char>, Seq<char>)>::empty() =~~= pairs_view(out@));
    }
    Ok(out)
}

/// The body of the call: the last body-bound argument's JSON.
fn collect_body(params: &Vec<ParamMeta>, args: &Vec<ArgValue>) -> (r: Result<
    Option<String>,
    Error,
>)
    requires
        params@.len() == args@.len(),
    ensures
        r matches Ok(b) ==> body_arg(params@, args@, 0, None) == Some(opt_str_view(b)),
        r is Err <==> body_arg(params@, args@, 0, None) is None,
        r matches Err(e) ==> e is InvalidArgument,
{
    let mut cur: Option<String> = None;
    let len = params.len();
    let mut i: usize = 0;
    while i < len
        invariant
            len == params@.len(),
            params@.len() == args@.len(),
            i <= len,
            body_arg(params@, args@, 0, None) == body_arg(
                params@,
                args@,
                i as int,
                opt_str_view(cur),
            ),
        decreases len - i,
    {
        match &params[i].kind {
            ParamKind::Json => {
                match &args[i] {
                    ArgValue::JsonText(s) => {
                        cur = Some(s.clone());
                    },
                    _ => {
                        return Err(
                            Error::InvalidArgument(
                                String::from_str("a body binding needs a JSON argument"),
                            ),
                        );
                    },
                }
            },
            _ => {},
        }
        i = i + 1;
    }
    Ok(cur)
}

/// Form-encodes the UTF-8 bytes of `s` onto the end of `out`.
fn push_encoded(s: &str, out: &mut Vec<char>)
    ensures
        final(out)@ == old(out)@ + qe_str(s@),
{
    let bs = s.as_bytes_vec();
    let ghost all = bs@;
    let len = bs.len();
    let mut i: usize = 0;
    proof {
        assert(all == encode_utf8(s@));
        assert(all.skip(0) =~= all);
        assert(old(out)@ + qe_bytes(all) == old(out)@ + qe_str(s@));
    }
    while i < len
        invariant
            all == bs@,
            all == encode_utf8(s@),
            len == all.len(),
            i <= len,
            out@ + qe_bytes(all.skip(i as int)) == old(out)@ + qe_str(s@),
        decreases len - i,
    {
        let b = bs[i];
        let ghost out0 = out@;
        proof {
            assert(all.skip(i as int)[0] == all[i as int]);
            assert(all.skip(i as int).drop_first() =~= all.skip(i + 1));
        }
        if (48 <= b && b <= 57) || (65 <= b && b <= 90) || (97 <= b && b <= 122) || b == 42
            || b == 45 || b == 46 || b == 95 {
            out.push(b as char);
        } else if b == 32 {
            out.push('+');
        } else {
            out.push('%');
            let hi = b / 16;
            let lo = b % 16;
            if hi < 10 {
                out.push((48 + hi) as char);
            } else {
                out.push((55 + hi) as char);
            }
            if lo < 10 {
                out.push((48 + lo) as char);
            } else {
                out.push((55 + lo) as char);
            }
        }
        proof {
            assert(out@ =~= out0 + qe_byte(all[i as int]));
            assert(out@ + qe_bytes(all.skip(i + 1)) =~= out0 + qe_bytes(all.skip(i as int)));
        }
        i = i + 1;
    }
    proof {
        assert(all.skip(len as int) =~= Seq::<u8>::empty());
        assert(out@ + Seq::<char>::empty() =~= out@);
    }
}

/// The query string of a pair list, field order preserved.
pub fn build_query_string(ps: &Vec<(String, String)>) -> (r: String)
    ensures
        r@ == qs_of(pairs_view(ps@)),
{
    let mut out: Vec<char> = Vec::new();
    let len = ps.len();
    let mut i: usize = 0;
    proof {
        assert(pairs_view(ps@).skip(0) =~~= pairs_view(ps@));
    }
    while i < len
        invariant
            len == ps@.len(),
            i <= len,
            out@ + qs_of(pairs_view(ps@).skip(i as int)) == qs_of(pairs_view(ps@)),
        decreases len - i,
    {
        let ghost rest = pairs_view(ps@).skip(i as int);
        proof {
            assert(rest[0] == pairs_view(ps@)[i as int]);
            assert(rest.drop_first() =~~= pairs_view(ps@).skip(i + 1));
            assert(rest.len() == len - i);
        }
        let ghost out0 = out@;
        push_encoded(ps[i].0.as_str(), &mut out);
        out.push('=');
        push_encoded(ps[i].1.as_str(), &mut out);
        proof {
            assert(out@ =~= out0 + (qe_str(ps@[i as int].0@) + seq!['='] + qe_str(
                ps@[i as int].1@,
            )));
        }
        if i + 1 < len {
            out.push('&');
            proof {
                assert(out@ + qs_of(pairs_view(ps@).skip(i + 1)) =~= out0 + qs_of(rest));
            }
        } else {
            proof {
                assert(pairs_view(ps@).skip(i + 1) =~~= Seq::<(Seq<char>, Seq<char>)>::empty());
                assert(out@ + qs_of(pairs_view(ps@).skip(i + 1)) =~= out0 + qs_of(rest));
            }
        }
        i = i + 1;
    }
    proof {
        assert(pairs_view(ps@).skip(len as int) =~~= Seq::<(Seq<char>, Seq<char>)>::empty());
        assert(out@ =~= qs_of(pairs_view(ps@)));
    }
    chars_to_string(&out)
}

/// Builds the concrete request of one call: the route's descriptor
/// interpreted over the endpoint and the call's arguments.
pub fn build_request(endpoint: &str, route: &RouteDescriptor, args: &Vec<ArgValue>) -> (r: Result<
    RequestPlan,
    Error,
>)
    ensures
        r matches Ok(p) ==> plan_of(endpoint@, route@, args@) == (PlanOutcome::Plan {
            method: p.method,
            url: p.url@,
            headers: pairs_view(p.headers@),
            body: opt_str_view(p.body),
        }),
        r is Ok <==> plan_of(endpoint@, route@, args@) is Plan,
        r matches Err(e) ==> (e is InvalidArgument <==> plan_of(endpoint@, route@, args@) is ArgFault),
        r matches Err(e) ==> (e is UrlParse <==> plan_of(endpoint@, route@, args@) is UrlFault),
{
    if args.len() != route.params.len() {
        return Err(
            Error::InvalidArgument(String::from_str("one argument per parameter is needed")),
        );
    }
    let path = match instantiate_path(&route.config.path, &route.params, args) {
        Ok(p) => p,
        Err(e) => {
            return Err(e);
        },
    };
    let url0 = match join_url(endpoint, path.as_str()) {
        Some(u) => u,
        None => {
            return Err(Error::UrlParse(String::from_str("the path does not resolve")));
        },
    };
    let q = match collect_query(&route.params, args) {
        Ok(q) => q,
        Err(e) => {
            return Err(e);
        },
    };
    let hs = match collect_headers(&route.params, args) {
        Ok(h) => h,
        Err(e) => {
            return Err(e);
        },
    };
    let body = match collect_body(&route.params, args) {
        Ok(b) => b,
        Err(e) => {
            return Err(e);
        },
    };
    let url = if q.len() == 0 {
        url0
    } else {
        let sep = if contains_char(url0.as_str(), '?') {
            "&"
        } else {
            "?"
        };
        let qs = build_query_string(&q);
        let u = url0.concat(sep).concat(qs.as_str());
        proof {
            reveal_strlit("&");
            reveal_strlit("?");
            assert(u@ =~= url0@ + seq![
                if url0@.contains('?') {
                    '&'
                } else {
                    '?'
                },
            ] + qs_of(pairs_view(q@)));
        }
        u
    };
    let headers = concat_pairs(&route.config.headers, &hs);
    proof {
        assert(pairs_view(headers@) =~~= route@.config.headers + pairs_view(hs@));
    }
    Ok(RequestPlan { method: route.config.method, url, headers, body })
}

/// True of the status codes that count as success.
pub open spec fn status_is_success(status: u16) -> bool {
    200 <= status < 300
}

/// Checks the response status: any non-success status is terminal,
/// carrying the request URL, the exact status, and a bounded excerpt of
/// the body.
pub fn check_status(url: &str, status: u16, body: &str) -> (r: Result<(), Error>)
    ensures
        r is Ok <==> status_is_success(status),
        r matches Err(e) ==> e matches Error::Http { url: u, status: s, body_snippet: b }
            && u@ == url@ && s == status && b@ == snippet_of(body@, SNIPPET_LIMIT as int),
{
    if 200 <= status && status < 300 {
        Ok(())
    } else {
        Err(
            Error::Http {
                url: url.to_owned(),
                status,
                body_snippet: snippet(body, SNIPPET_LIMIT),
            },
        )
    }
}

/// True of strings that parse as JSON; what `serde_json` decides.
pub uninterp spec fn json_ok(s: Seq<char>) -> bool;

#[verifier::external_type_specification]
#[verifier::external_body]
pub struct ExJsonValue(serde_json::Value);

/// Relies on `serde_json::from_str::<Value>`: whether a string parses
/// as JSON depends on the string alone.
#[verifier::external_body]
fn parse_json_value(s: &str) -> (r: Result<serde_json::Value, String>)
    ensures
        r is Ok <==> json_ok(s@),
{
    match serde_json::from_str::<serde_json::Value>(s) {
        Ok(v) => Ok(v),
        Err(e) => Err(e.to_string()),
    }
}

/// Decodes a success body into its JSON value; a body that does not
/// parse is terminal, carrying the request URL, the parse failure and a
/// bounded excerpt of the body.
pub fn decode_body(url: &str, body: &str) -> (r: Result<serde_json::Value, Error>)
    ensures
        r is Ok <==> json_ok(body@),
        r matches Err(e) ==> e matches Error::Decode { url: u, source: _, body_snippet: b }
            && u@ == url@ && b@ == snippet_of(body@, SNIPPET_LIMIT as int),
{
    match parse_json_value(body) {
        Ok(v) => Ok(v),
        Err(msg) => Err(
            Error::Decode {
                url: url.to_owned(),
                source: msg,
                body_snippet: snippet(body, SNIPPET_LIMIT),
            },
        ),
    }
}

/// The whole response side of one call: status checked, then the body
/// decoded.
pub fn handle_response(url: &str, status: u16, body: &str) -> (r: Result<
    serde_json::Value,
    Error,
>)
    ensures
        r is Ok <==> (status_is_success(status) && json_ok(body@)),
        !status_is_success(status) ==> (r matches Err(e) && e matches Error::Http {
            url: u,
            status: s,
            body_snippet: b,
        } && u@ == url@ && s == status && b@ == snippet_of(body@, SNIPPET_LIMIT as int)),
        status_is_success(status) && !json_ok(body@) ==> (r matches Err(e)
            && e matches Error::Decode { url: u, source: _, body_snippet: b } && u@ == url@
            && b@ == snippet_of(body@, SNIPPET_LIMIT as int)),
{
    match check_status(url, status, body) {
        Ok(_) => decode_body(url, body),
        Err(e) => Err(e),
    }
}

} // verus!
