//! The configuration grammar.
//!
//! An annotation's arguments are a comma-separated list of `key = value`
//! settings and `key(nested_key = "value", ...)` groups.  Recognized keys
//! are `endpoint`, `path`, `timeout`, `connect_timeout`, `read_timeout`
//! (scalar settings) and `headers` (a group of identifier keys with
//! string values, whose names are normalized: `_` to `-`, lower-cased).
//! Unrecognized keys are ignored for forward compatibility; a recognized
//! key of the wrong literal kind or shape is a syntax error.

use vstd::prelude::*;
use crate::error::Error;
use crate::method::{Method, method_of};
use crate::schema::Attr;
use crate::text::{lower_chars, norm_chars, lower_string, norm_header_name, str_eq};
use crate::token::{Token, is_lit};

verus! {

/// The mathematical value of an attribute bag: every configuration item
/// an annotation can carry, as sequences of characters.
#[verifier::ext_equal]
pub ghost struct AttrBag {
    pub method: Option<Method>,
    pub endpoint: Option<Seq<char>>,
    pub path: Option<Seq<char>>,
    pub headers: Seq<(Seq<char>, Seq<char>)>,
    pub timeout: Option<u64>,
    pub connect_timeout: Option<u64>,
    pub read_timeout: Option<u64>,
}

/// The bag with nothing set.
pub open spec fn empty_bag() -> AttrBag {
    AttrBag {
        method: None,
        endpoint: None,
        path: None,
        headers: Seq::empty(),
        timeout: None,
        connect_timeout: None,
        read_timeout: None,
    }
}

pub open spec fn opt_str_view(o: Option<String>) -> Option<Seq<char>> {
    match o {
        Some(s) => Some(s@),
        None => None,
    }
}

pub open spec fn pairs_view(v: Seq<(String, String)>) -> Seq<(Seq<char>, Seq<char>)> {
    v.map_values(|p: (String, String)| (p.0@, p.1@))
}

/// The keys the grammar gives a meaning to.
pub open spec fn recognized_key(k: Seq<char>) -> bool {
    ||| k == "endpoint"@
    ||| k == "path"@
    ||| k == "headers"@
    ||| k == "timeout"@
    ||| k == "connect_timeout"@
    ||| k == "read_timeout"@
}

/// Parses the `key = value` pairs of a group, starting at token `i`
/// (just inside the opening parenthesis), up to and including the
/// closing parenthesis; yields the (key, value) token pairs and the
/// index of the first token after the group.  Keys may be identifiers
/// or string literals at this level; values are any literal.
pub open spec fn sp_pairs(t: Seq<Token>, i: int) -> Option<(Seq<(Token, Token)>, int)>
    decreases t.len() - i,
{
    if i < 0 || i >= t.len() {
        None
    } else if t[i] is RParen {
        Some((Seq::<(Token, Token)>::empty(), i + 1))
    } else if i + 3 > t.len() {
        None
    } else if !(t[i] is Ident || t[i] is StrLit) {
        None
    } else if !(t[i + 1] is Eq) {
        None
    } else if !is_lit(t[i + 2]) {
        None
    } else if i + 3 == t.len() {
        None
    } else if t[i + 3] is RParen {
        Some((seq![(t[i], t[i + 2])], i + 4))
    } else if t[i + 3] is Comma {
        match sp_pairs(t, i + 4) {
            Some(r) => Some((seq![(t[i], t[i + 2])] + r.0, r.1)),
            None => None,
        }
    } else {
        None
    }
}

/// Interprets group pairs as headers: every key must be a bare
/// identifier and every value a string; names are normalized.
pub open spec fn header_pairs(ps: Seq<(Token, Token)>) -> Option<Seq<(Seq<char>, Seq<char>)>>
    decreases ps.len(),
{
    if ps.len() == 0 {
        Some(Seq::<(Seq<char>, Seq<char>)>::empty())
    } else {
        match (ps[0].0, ps[0].1) {
            (Token::Ident(k), Token::StrLit(v)) => match header_pairs(ps.drop_first()) {
                Some(rest) => Some(seq![(norm_chars(k@), v@)] + rest),
                None => None,
            },
            _ => None,
        }
    }
}

/// One `key = value` setting applied to a bag; `k` is the key already
/// lower-cased.  Unrecognized keys leave the bag unchanged.
pub open spec fn apply_kv(b: AttrBag, k: Seq<char>, v: Token) -> Option<AttrBag> {
    if k == "endpoint"@ {
        match v {
            Token::StrLit(s) => Some(AttrBag { endpoint: Some(s@), ..b }),
            _ => None,
        }
    } else if k == "path"@ {
        match v {
            Token::StrLit(s) => Some(AttrBag { path: Some(s@), ..b }),
            _ => None,
        }
    } else if k == "timeout"@ {
        match v {
            Token::IntLit(n) => Some(AttrBag { timeout: Some(n), ..b }),
            _ => None,
        }
    } else if k == "connect_timeout"@ {
        match v {
            Token::IntLit(n) => Some(AttrBag { connect_timeout: Some(n), ..b }),
            _ => None,
        }
    } else if k == "read_timeout"@ {
        match v {
            Token::IntLit(n) => Some(AttrBag { read_timeout: Some(n), ..b }),
            _ => None,
        }
    } else if k == "headers"@ {
        None
    } else {
        Some(b)
    }
}

/// One group applied to a bag; `k` is the key already lower-cased.
/// `headers(...)` replaces the bag's header list; any other recognized
/// key refuses the group shape; unknown groups are ignored.
pub open spec fn apply_group(b: AttrBag, k: Seq<char>, ps: Seq<(Token, Token)>) -> Option<
    AttrBag,
> {
    if k == "headers"@ {
        match header_pairs(ps) {
            Some(hs) => Some(AttrBag { headers: hs, ..b }),
            None => None,
        }
    } else if recognized_key(k) {
        None
    } else {
        Some(b)
    }
}

/// The whole argument grammar: applies the comma-separated entries of
/// `t`, from token `i` on, to the bag `b`.  `None` is a syntax error.
pub open spec fn apply_attr_tokens(b: AttrBag, t: Seq<Token>, i: int) -> Option<AttrBag>
    decreases t.len() - i,
{
    if i < 0 {
        None
    } else if i >= t.len() {
        Some(b)
    } else {
        match t[i] {
            Token::Ident(k) => {
                if i + 1 >= t.len() {
                    // a bare trailing key
                    if recognized_key(lower_chars(k@)) {
                        None
                    } else {
                        Some(b)
                    }
                } else if t[i + 1] is Comma {
                    if recognized_key(lower_chars(k@)) {
                        None
                    } else {
                        apply_attr_tokens(b, t, i + 2)
                    }
                } else if t[i + 1] is Eq {
                    if i + 2 >= t.len() {
                        None
                    } else if !is_lit(t[i + 2]) {
                        None
                    } else {
                        match apply_kv(b, lower_chars(k@), t[i + 2]) {
                            Some(b2) => {
                                if i + 3 >= t.len() {
                                    Some(b2)
                                } else if t[i + 3] is Comma {
                                    apply_attr_tokens(b2, t, i + 4)
                                } else {
                                    None
                                }
                            },
                            None => None,
                        }
                    }
                } else if t[i + 1] is LParen {
                    match sp_pairs(t, i + 2) {
                        Some(r) => {
                            match apply_group(b, lower_chars(k@), r.0) {
                                Some(b2) => {
                                    if r.1 >= t.len() {
                                        Some(b2)
                                    } else if t[r.1] is Comma && i < r.1 {
                                        apply_attr_tokens(b2, t, r.1 + 1)
                                    } else {
                                        None
                                    }
                                },
                                None => None,
                            }
                        },
                        None => None,
                    }
                } else {
                    None
                }
            },
            _ => None,
        }
    }
}

/// The accumulated attribute properties of one annotation.
pub struct AttributeProperties {
    pub method: Option<Method>,
    pub endpoint: Option<String>,
    pub path: Option<String>,
    pub headers: Vec<(String, String)>,
    pub timeout: Option<u64>,
    pub connect_timeout: Option<u64>,
    pub read_timeout: Option<u64>,
}

/// A builder for [`AttributeProperties`]; the attribute parser drives it
/// key by key.
pub struct AttributePropertiesBuilder {
    pub method: Option<Method>,
    pub endpoint: Option<String>,
    pub path: Option<String>,
    pub headers: Vec<(String, String)>,
    pub timeout: Option<u64>,
    pub connect_timeout: Option<u64>,
    pub read_timeout: Option<u64>,
}

impl View for AttributeProperties {
    type V = AttrBag;

    open spec fn view(&self) -> AttrBag {
        AttrBag {
            method: self.method,
            endpoint: opt_str_view(self.endpoint),
            path: opt_str_view(self.path),
            headers: pairs_view(self.headers@),
            timeout: self.timeout,
            connect_timeout: self.connect_timeout,
            read_timeout: self.read_timeout,
        }
    }
}

impl View for AttributePropertiesBuilder {
    type V = AttrBag;

    open spec fn view(&self) -> AttrBag {
        AttrBag {
            method: self.method,
            endpoint: opt_str_view(self.endpoint),
            path: opt_str_view(self.path),
            headers: pairs_view(self.headers@),
            timeout: self.timeout,
            connect_timeout: self.connect_timeout,
            read_timeout: self.read_timeout,
        }
    }
}

impl AttributeProperties {
    /// A builder with nothing set.
    pub fn builder() -> (r: AttributePropertiesBuilder)
        ensures
            r@ == empty_bag(),
    {
        let b = AttributePropertiesBuilder {
            method: None,
            endpoint: None,
            path: None,
            headers: Vec::new(),
            timeout: None,
            connect_timeout: None,
            read_timeout: None,
        };
        proof {
            assert(b@ =~~= empty_bag());
        }
        b
    }
}

impl AttributePropertiesBuilder {
    /// Sets the HTTP method.
    pub fn method(self, m: Option<Method>) -> (r: Self)
        ensures
            r@ == (AttrBag { method: m, ..self@ }),
    {
        Self { method: m, ..self }
    }

    /// The finished properties.
    pub fn build(self) -> (r: AttributeProperties)
        ensures
            r@ == self@,
    {
        AttributeProperties {
            method: self.method,
            endpoint: self.endpoint,
            path: self.path,
            headers: self.headers,
            timeout: self.timeout,
            connect_timeout: self.connect_timeout,
            read_timeout: self.read_timeout,
        }
    }

    /// Parses one annotation's argument tokens into the builder.
    pub fn parse_args(self, toks: &Vec<Token>) -> (r: Result<Self, Error>)
        ensures
            r matches Ok(b2) ==> apply_attr_tokens(self@, toks@, 0) == Some(b2@),
            r is Err <==> apply_attr_tokens(self@, toks@, 0) is None,
            r matches Err(e) ==> e is ConfigSyntax,
    {
        let ghost start = self@;
        let mut cur = self;
        let len = toks.len();
        let mut i: usize = 0;
        loop
            invariant
                len == toks@.len(),
                i <= len,
                start == self@,
                apply_attr_tokens(start, toks@, 0) == apply_attr_tokens(cur@, toks@, i as int),
            decreases len - i,
        {
            if i >= len {
                return Ok(cur);
            }
            let lk = match &toks[i] {
                Token::Ident(k) => lower_string(k.as_str()),
                _ => {
                    return Err(Error::ConfigSyntax(String::from_str("expected a key")));
                },
            };
            if i + 1 >= len {
                if recognized_exec(lk.as_str()) {
                    return Err(Error::ConfigSyntax(String::from_str("key without a value")));
                } else {
                    return Ok(cur);
                }
            }
            match &toks[i + 1] {
                Token::Comma => {
                    if recognized_exec(lk.as_str()) {
                        return Err(Error::ConfigSyntax(String::from_str("key without a value")));
                    }
                    i = i + 2;
                },
                Token::Eq => {
                    if i + 2 >= len {
                        return Err(Error::ConfigSyntax(String::from_str("missing value")));
                    }
                    if !toks[i + 2].is_literal() {
                        return Err(Error::ConfigSyntax(String::from_str("expected a literal")));
                    }
                    cur = match apply_kv_exec(cur, &lk, &toks[i + 2]) {
                        Ok(c) => c,
                        Err(e) => {
                            return Err(e);
                        },
                    };
                    if i + 3 >= len {
                        return Ok(cur);
                    }
                    match &toks[i + 3] {
                        Token::Comma => {
                            i = i + 4;
                        },
                        _ => {
                            return Err(Error::ConfigSyntax(
                                String::from_str("expected a comma"),
                            ));
                        },
                    }
                },
                Token::LParen => {
                    let (ps, j) = match parse_pairs(toks, i + 2) {
                        Ok(p) => p,
                        Err(e) => {
                            return Err(e);
                        },
                    };
                    cur = match apply_group_exec(cur, &lk, &ps) {
                        Ok(c) => c,
                        Err(e) => {
                            return Err(e);
                        },
                    };
                    if j >= len {
                        return Ok(cur);
                    }
                    match &toks[j] {
                        Token::Comma => {
                            i = j + 1;
                        },
                        _ => {
                            return Err(Error::ConfigSyntax(
                                String::from_str("expected a comma"),
                            ));
                        },
                    }
                },
                _ => {
                    return Err(Error::ConfigSyntax(String::from_str("malformed entry")));
                },
            }
        }
    }
}

/// True of keys the grammar gives a meaning to.
fn recognized_exec(lk: &str) -> (r: bool)
    ensures
        r == recognized_key(lk@),
{
    str_eq(lk, "endpoint") || str_eq(lk, "path") || str_eq(lk, "headers") || str_eq(lk, "timeout")
        || str_eq(lk, "connect_timeout") || str_eq(lk, "read_timeout")
}

fn apply_kv_exec(b: AttributePropertiesBuilder, lk: &String, v: &Token) -> (r: Result<
    AttributePropertiesBuilder,
    Error,
>)
    ensures
        r matches Ok(b2) ==> apply_kv(b@, lk@, *v) == Some(b2@),
        r is Err <==> apply_kv(b@, lk@, *v) is None,
        r matches Err(e) ==> e is ConfigSyntax,
{
    let mut b = b;
    if str_eq(lk.as_str(), "endpoint") {
        match v {
            Token::StrLit(s) => {
                b.endpoint = Some(s.clone());
                Ok(b)
            },
            _ => Err(Error::ConfigSyntax(String::from_str("endpoint expects a string"))),
        }
    } else if str_eq(lk.as_str(), "path") {
        match v {
            Token::StrLit(s) => {
                b.path = Some(s.clone());
                Ok(b)
            },
            _ => Err(Error::ConfigSyntax(String::from_str("path expects a string"))),
        }
    } else if str_eq(lk.as_str(), "timeout") {
        match v {
            Token::IntLit(n) => {
                b.timeout = Some(*n);
                Ok(b)
            },
            _ => Err(Error::ConfigSyntax(String::from_str("timeout expects an integer"))),
        }
    } else if str_eq(lk.as_str(), "connect_timeout") {
        match v {
            Token::IntLit(n) => {
                b.connect_timeout = Some(*n);
                Ok(b)
            },
            _ => Err(Error::ConfigSyntax(String::from_str("connect_timeout expects an integer"))),
        }
    } else if str_eq(lk.as_str(), "read_timeout") {
        match v {
            Token::IntLit(n) => {
                b.read_timeout = Some(*n);
                Ok(b)
            },
            _ => Err(Error::ConfigSyntax(String::from_str("read_timeout expects an integer"))),
        }
    } else if str_eq(lk.as_str(), "headers") {
        Err(Error::ConfigSyntax(String::from_str("headers expects a group")))
    } else {
        Ok(b)
    }
}

fn apply_group_exec(b: AttributePropertiesBuilder, lk: &String, ps: &Vec<(Token, Token)>) -> (r:
    Result<AttributePropertiesBuilder, Error>)
    ensures
        r matches Ok(b2) ==> apply_group(b@, lk@, ps@) == Some(b2@),
        r is Err <==> apply_group(b@, lk@, ps@) is None,
        r matches Err(e) ==> e is ConfigSyntax,
{
    let mut b = b;
    if str_eq(lk.as_str(), "headers") {
        match headers_from_pairs(ps) {
            Ok(hv) => {
                b.headers = hv;
                Ok(b)
            },
            Err(e) => Err(e),
        }
    } else if recognized_exec(lk.as_str()) {
        Err(Error::ConfigSyntax(String::from_str("key does not take a group")))
    } else {
        Ok(b)
    }
}

fn headers_from_pairs(ps: &Vec<(Token, Token)>) -> (r: Result<Vec<(String, String)>, Error>)
    ensures
        r matches Ok(h) ==> header_pairs(ps@) == Some(pairs_view(h@)),
        r is Err <==> header_pairs(ps@) is None,
        r matches Err(e) ==> e is ConfigSyntax,
{
    let mut out: Vec<(String, String)> = Vec::new();
    let len = ps.len();
    let mut i: usize = 0;
    proof {
        assert(ps@.skip(0) =~= ps@);
        if let Some(rest) = header_pairs(ps@) {
            assert(pairs_view(out@) + rest =~~= rest);
        }
    }
    loop
        invariant
            len == ps@.len(),
            i <= len,
            header_pairs(ps@.skip(i as int)) matches Some(rest) ==> header_pairs(ps@) == Some(
                pairs_view(out@) + rest,
            ),
            header_pairs(ps@.skip(i as int)) is None ==> header_pairs(ps@) is None,
        decreases len - i,
    {
        if i >= len {
            proof {
                assert(ps@.skip(len as int) =~= Seq::<(Token, Token)>::empty());
                assert(pairs_view(out@) + Seq::<(Seq<char>, Seq<char>)>::empty() =~~= pairs_view(
                    out@,
                ));
            }
            return Ok(out);
        }
        let ghost rest0 = ps@.skip(i as int);
        proof {
            assert(rest0[0] == ps@[i as int]);
            assert(rest0.drop_first() =~= ps@.skip(i + 1));
        }
        match (&ps[i].0, &ps[i].1) {
            (Token::Ident(k), Token::StrLit(v)) => {
                let ghost out0 = out@;
                let nk = norm_header_name(k.as_str());
                out.push((nk, v.clone()));
                proof {
                    if let Some(r2) = header_pairs(ps@.skip(i + 1)) {
                        assert(pairs_view(out@) + r2 =~~= pairs_view(out0) + (seq![
                            (norm_chars(k@), v@),
                        ] + r2));
                    }
                }
                i = i + 1;
            },
            _ => {
                return Err(Error::ConfigSyntax(
                    String::from_str("headers expect identifier keys and string values"),
                ));
            },
        }
    }
}

fn parse_pairs(toks: &Vec<Token>, start: usize) -> (r: Result<(Vec<(Token, Token)>, usize), Error>)
    requires
        start <= toks@.len(),
    ensures
        r matches Ok(p) ==> sp_pairs(toks@, start as int) == Some((p.0@, p.1 as int)) && start
            < p.1 <= toks@.len(),
        r is Err <==> sp_pairs(toks@, start as int) is None,
        r matches Err(e) ==> e is ConfigSyntax,
{
    let len = toks.len();
    let mut acc: Vec<(Token, Token)> = Vec::new();
    let mut cur = start;
    proof {
        if let Some(r2) = sp_pairs(toks@, start as int) {
            assert(acc@ + r2.0 =~= r2.0);
        }
    }
    loop
        invariant
            len == toks@.len(),
            start <= cur <= len,
            sp_pairs(toks@, cur as int) matches Some(r2) ==> sp_pairs(toks@, start as int) == Some(
                (acc@ + r2.0, r2.1),
            ),
            sp_pairs(toks@, cur as int) is None ==> sp_pairs(toks@, start as int) is None,
        decreases len - cur,
    {
        if cur >= len {
            return Err(Error::ConfigSyntax(String::from_str("unclosed group")));
        }
        match &toks[cur] {
            Token::RParen => {
                proof {
                    assert(acc@ + Seq::<(Token, Token)>::empty() =~= acc@);
                }
                return Ok((acc, cur + 1));
            },
            _ => {},
        }
        if len - cur < 3 {
            return Err(Error::ConfigSyntax(String::from_str("malformed group entry")));
        }
        if !matches!(&toks[cur], Token::Ident(_) | Token::StrLit(_)) {
            return Err(Error::ConfigSyntax(String::from_str("malformed group key")));
        }
        if !matches!(&toks[cur + 1], Token::Eq) {
            return Err(Error::ConfigSyntax(String::from_str("malformed group entry")));
        }
        if !toks[cur + 2].is_literal() {
            return Err(Error::ConfigSyntax(String::from_str("expected a literal")));
        }
        if cur + 3 == len {
            return Err(Error::ConfigSyntax(String::from_str("unclosed group")));
        }
        let ghost acc0 = acc@;
        let pair = (toks[cur].duplicate(), toks[cur + 2].duplicate());
        match &toks[cur + 3] {
            Token::RParen => {
                acc.push(pair);
                proof {
                    assert(acc@ =~= acc0 + seq![(toks@[cur as int], toks@[cur as int + 2])]);
                }
                return Ok((acc, cur + 4));
            },
            Token::Comma => {
                acc.push(pair);
                proof {
                    if let Some(r2) = sp_pairs(toks@, cur as int + 4) {
                        assert(acc@ + r2.0 =~= acc0 + (seq![
                            (toks@[cur as int], toks@[cur as int + 2]),
                        ] + r2.0));
                    }
                }
                cur = cur + 4;
            },
            _ => {
                return Err(Error::ConfigSyntax(String::from_str("malformed group entry")));
            },
        }
    }
}


/// Restricts a parsed bag to the service level: no method, no path.
pub open spec fn service_bag(o: Option<AttrBag>) -> Option<AttrBag> {
    match o {
        Some(b) => Some(AttrBag { method: None, path: None, ..b }),
        None => None,
    }
}

/// Restricts a parsed bag to the route level: no endpoint.
pub open spec fn route_view(o: Option<AttrBag>) -> Option<AttrBag> {
    match o {
        Some(b) => Some(AttrBag { endpoint: None, ..b }),
        None => None,
    }
}

/// The service-wide configuration of an annotated interface.
pub struct FreshAttributes {
    pub endpoint: Option<String>,
    pub headers: Vec<(String, String)>,
    pub timeout: Option<u64>,
    pub connect_timeout: Option<u64>,
    pub read_timeout: Option<u64>,
}

impl View for FreshAttributes {
    type V = AttrBag;

    open spec fn view(&self) -> AttrBag {
        AttrBag {
            method: None,
            endpoint: opt_str_view(self.endpoint),
            path: None,
            headers: pairs_view(self.headers@),
            timeout: self.timeout,
            connect_timeout: self.connect_timeout,
            read_timeout: self.read_timeout,
        }
    }
}

/// The per-route configuration of one method annotation.
pub struct FreshRouteAttributes {
    pub method: Option<Method>,
    pub path: Option<String>,
    pub headers: Vec<(String, String)>,
    pub timeout: Option<u64>,
    pub connect_timeout: Option<u64>,
    pub read_timeout: Option<u64>,
}

impl View for FreshRouteAttributes {
    type V = AttrBag;

    open spec fn view(&self) -> AttrBag {
        AttrBag {
            method: self.method,
            endpoint: None,
            path: opt_str_view(self.path),
            headers: pairs_view(self.headers@),
            timeout: self.timeout,
            connect_timeout: self.connect_timeout,
            read_timeout: self.read_timeout,
        }
    }
}

impl FreshRouteAttributes {
    /// Fills in the default path when the annotation named none.
    pub fn set_path_if_none(&mut self, path: String)
        ensures
            final(self)@ == if old(self)@.path is Some {
                old(self)@
            } else {
                AttrBag { path: Some(path@), ..old(self)@ }
            },
    {
        if self.path.is_none() {
            self.path = Some(path);
        }
    }
}

/// Parses the arguments of a service-level annotation.
pub struct FreshAttributeParser;

impl FreshAttributeParser {
    /// The service configuration named by `input`, or the syntax error
    /// in it.
    pub fn parse(input: &Vec<Token>) -> (r: Result<FreshAttributes, Error>)
        ensures
            r matches Ok(a) ==> Some(a@) == service_bag(
                apply_attr_tokens(empty_bag(), input@, 0),
            ),
            r is Err <==> apply_attr_tokens(empty_bag(), input@, 0) is None,
            r matches Err(e) ==> e is ConfigSyntax,
    {
        let b = AttributeProperties::builder();
        let b = match b.parse_args(input) {
            Ok(b) => b,
            Err(e) => {
                return Err(e);
            },
        };
        let p = b.build();
        let a = FreshAttributes {
            endpoint: p.endpoint,
            headers: p.headers,
            timeout: p.timeout,
            connect_timeout: p.connect_timeout,
            read_timeout: p.read_timeout,
        };
        proof {
            assert(Some(a@) =~~= service_bag(apply_attr_tokens(empty_bag(), input@, 0)));
        }
        Ok(a)
    }
}

/// The route configuration accumulated over the verb-named annotations
/// of one method, applied left to right; `None` when no annotation is
/// verb-named.
pub open spec fn route_bag(b: AttrBag, attrs: Seq<Attr>, i: int) -> Option<AttrBag>
    decreases attrs.len() - i,
{
    if i < 0 {
        None
    } else if i >= attrs.len() {
        Some(b)
    } else {
        match method_of(attrs[i].name@) {
            Some(m) => match apply_attr_tokens(AttrBag { method: Some(m), ..b }, attrs[i].args@, 0) {
                Some(b2) => route_bag(b2, attrs, i + 1),
                None => None,
            },
            None => route_bag(b, attrs, i + 1),
        }
    }
}

/// True when some annotation is named after an HTTP method.
pub open spec fn has_verb(attrs: Seq<Attr>) -> bool {
    exists|j: int| 0 <= j < attrs.len() && #[trigger] method_of(attrs[j].name@) is Some
}

/// Parses the verb-named annotations of one method into its route
/// configuration.
pub struct FreshRouteAttributeParser;

impl FreshRouteAttributeParser {
    /// The route configuration of a method: `Ok(None)` when no
    /// annotation is verb-named (the method is not a route), otherwise
    /// the accumulated route attributes or the syntax error in them.
    pub fn parse(attrs: &Vec<Attr>) -> (r: Result<Option<FreshRouteAttributes>, Error>)
        ensures
            r matches Ok(Some(ra)) ==> has_verb(attrs@) && Some(ra@) == route_view(
                route_bag(empty_bag(), attrs@, 0),
            ),
            r matches Ok(o) && o is None ==> !has_verb(attrs@),
            r is Err <==> route_bag(empty_bag(), attrs@, 0) is None,
            r matches Err(e) ==> e is ConfigSyntax,
    {
        let mut b = AttributeProperties::builder();
        let mut saw = false;
        let len = attrs.len();
        let mut i: usize = 0;
        proof {
            assert(attrs@.take(0) =~= Seq::<Attr>::empty());
        }
        while i < len
            invariant
                len == attrs@.len(),
                i <= len,
                saw == has_verb(attrs@.take(i as int)),
                route_bag(empty_bag(), attrs@, 0) == route_bag(b@, attrs@, i as int),
            decreases len - i,
        {
            let a = &attrs[i];
            proof {
                assert(attrs@.take(i + 1 as int).drop_last() =~= attrs@.take(i as int));
                assert(attrs@.take(i + 1 as int)[i as int] == attrs@[i as int]);
            }
            match Method::from_str(a.name.as_str()) {
                Ok(m) => {
                    saw = true;
                    b = b.method(Some(m));
                    b = match b.parse_args(&a.args) {
                        Ok(b2) => b2,
                        Err(e) => {
                            return Err(e);
                        },
                    };
                    proof {
                        assert(has_verb(attrs@.take(i + 1 as int)));
                    }
                },
                Err(_) => {
                    proof {
                        if has_verb(attrs@.take(i + 1 as int)) {
                            let j = choose|j: int|
                                0 <= j < attrs@.take(i + 1 as int).len() && #[trigger] method_of(
                                    attrs@.take(i + 1 as int)[j].name@,
                                ) is Some;
                            if j < i {
                                assert(method_of(attrs@.take(i as int)[j].name@) is Some);
                            }
                        }
                    }
                },
            }
            i = i + 1;
        }
        proof {
            assert(attrs@.take(len as int) =~= attrs@);
        }
        if !saw {
            return Ok(None);
        }
        let p = b.build();
        let ra = FreshRouteAttributes {
            method: p.method,
            path: p.path,
            headers: p.headers,
            timeout: p.timeout,
            connect_timeout: p.connect_timeout,
            read_timeout: p.read_timeout,
        };
        proof {
            assert(Some(ra@) =~~= route_view(route_bag(empty_bag(), attrs@, 0)));
        }
        Ok(Some(ra))
    }
}

} // verus!

// The two public faces of the grammar: service-level attributes (no verb
// or path) and route-level attributes (verb and path, no endpoint).
