//! The transport configuration: an endpoint, default headers and
//! timeouts, validated at construction time.
//!
//! The configuration is plain data; building the actual network client
//! from it is the transport's business.  Validation calls the same
//! checks the transport applies: URL parsing through the `url` crate
//! and header validation through `reqwest`'s header types.

use vstd::prelude::*;
use vstd::utf8::encode_utf8;
use crate::attributes::pairs_view;
use crate::error::Error;
use crate::urls::{url_norm, parse_url};

verus! {

/// Milliseconds of the default for each timeout.
pub const DEFAULT_TIMEOUT_MS: u64 = 6000;

/// True of strings `reqwest` accepts as an HTTP header name.
pub uninterp spec fn header_name_ok(name: Seq<char>) -> bool;

/// True of one byte `reqwest` accepts inside a header value: the
/// horizontal tab, or anything from the space up except `DEL`.
pub open spec fn header_value_byte_ok(b: u8) -> bool {
    b == 9 || (32 <= b && b != 127)
}

/// True of strings `reqwest` accepts as an HTTP header value: every
/// byte of the UTF-8 form passes [`header_value_byte_ok`].
pub open spec fn header_value_ok(value: Seq<char>) -> bool {
    forall|i: int|
        0 <= i < encode_utf8(value).len() ==> header_value_byte_ok(
            #[trigger] encode_utf8(value)[i],
        )
}

/// Relies on `reqwest::header::HeaderName::from_bytes`: whether a
/// string is a valid header name depends on its characters alone.
#[verifier::external_body]
fn valid_header_name(name: &str) -> (r: bool)
    ensures
        r == header_name_ok(name@),
{
    reqwest::header::HeaderName::from_bytes(name.as_bytes()).is_ok()
}

/// Relies on `reqwest::header::HeaderValue::from_bytes`: it accepts a
/// byte sequence exactly when every byte is the tab or at least the
/// space and not `DEL`, which [`header_value_ok`] states of the
/// string's UTF-8 form.
#[verifier::external_body]
fn valid_header_value(value: &str) -> (r: bool)
    ensures
        r == header_value_ok(value@),
{
    reqwest::header::HeaderValue::from_bytes(value.as_bytes()).is_ok()
}

/// True when the pair is a header the transport accepts.
pub open spec fn header_pair_ok(p: (Seq<char>, Seq<char>)) -> bool {
    header_name_ok(p.0) && header_value_ok(p.1)
}

/// True when every pair is a header the transport accepts.
pub open spec fn all_headers_ok(hs: Seq<(Seq<char>, Seq<char>)>) -> bool {
    forall|i: int| 0 <= i < hs.len() ==> #[trigger] header_pair_ok(hs[i])
}

/// Checks every header pair against the transport's rules.
fn check_headers(hs: &Vec<(String, String)>) -> (r: bool)
    ensures
        r == all_headers_ok(pairs_view(hs@)),
{
    let mut i: usize = 0;
    while i < hs.len()
        invariant
            i <= hs@.len(),
            forall|j: int| 0 <= j < i ==> #[trigger] header_pair_ok(pairs_view(hs@)[j]),
        decreases hs@.len() - i,
    {
        let ok = valid_header_name(hs[i].0.as_str()) && valid_header_value(hs[i].1.as_str());
        if !ok {
            proof {
                assert(pairs_view(hs@)[i as int].0 == hs@[i as int].0@);
                assert(pairs_view(hs@)[i as int].1 == hs@[i as int].1@);
                assert(!header_pair_ok(pairs_view(hs@)[i as int]));
            }
            return false;
        }
        proof {
            assert(pairs_view(hs@)[i as int].0 == hs@[i as int].0@);
            assert(pairs_view(hs@)[i as int].1 == hs@[i as int].1@);
            assert(header_pair_ok(pairs_view(hs@)[i as int]));
        }
        i = i + 1;
    }
    true
}

/// The default header list: the client identifies itself, with the
/// library version suffixed.
pub open spec fn default_headers_view() -> Seq<(Seq<char>, Seq<char>)> {
    seq![("user-agent"@, "fresh-client/0.1.0"@)]
}

/// The headers a configuration starts from when none are given.
pub fn default_headers() -> (r: Vec<(String, String)>)
    ensures
        pairs_view(r@) == default_headers_view(),
{
    let mut v: Vec<(String, String)> = Vec::new();
    v.push((String::from_str("user-agent"), String::from_str("fresh-client/0.1.0")));
    proof {
        assert(pairs_view(v@) =~~= default_headers_view());
    }
    v
}

/// The transport configuration: a validated endpoint, default headers,
/// and timeouts in milliseconds.
pub struct HttpClientOption {
    pub endpoint: String,
    pub timeout: u64,
    pub headers: Vec<(String, String)>,
    pub read_timeout: u64,
    pub connect_timeout: u64,
}

impl HttpClientOption {
    /// The endpoint is an absolute URL in serialized form.
    pub open spec fn wf(&self) -> bool {
        url_norm(self.endpoint@) == Some(self.endpoint@)
    }

    /// An option set on the given endpoint with everything else
    /// defaulted; fails exactly when the endpoint is not an absolute
    /// URL.
    pub fn with_endpoint(endpoint: &str) -> (r: Result<HttpClientOption, Error>)
        ensures
            r matches Ok(o) ==> ({
                &&& url_norm(endpoint@) == Some(o.endpoint@)
                &&& o.wf()
                &&& o.timeout == DEFAULT_TIMEOUT_MS
                &&& o.connect_timeout == DEFAULT_TIMEOUT_MS
                &&& o.read_timeout == DEFAULT_TIMEOUT_MS
                &&& pairs_view(o.headers@) == default_headers_view()
            }),
            r is Err <==> url_norm(endpoint@) is None,
            r matches Err(e) ==> e is ConfigBuild,
    {
        Self::builder().endpoint(endpoint).build()
    }

    /// A builder with nothing set.
    pub fn builder() -> (r: HttpClientOptionBuilder)
        ensures
            r.endpoint is None,
            r.timeout is None,
            r.headers is None,
            r.read_timeout is None,
            r.connect_timeout is None,
    {
        HttpClientOptionBuilder {
            endpoint: None,
            timeout: None,
            headers: None,
            read_timeout: None,
            connect_timeout: None,
        }
    }
}

/// A builder for [`HttpClientOption`]; unset fields take defaults, and
/// `build` validates the endpoint.
pub struct HttpClientOptionBuilder {
    pub endpoint: Option<String>,
    pub timeout: Option<u64>,
    pub headers: Option<Vec<(String, String)>>,
    pub read_timeout: Option<u64>,
    pub connect_timeout: Option<u64>,
}

impl HttpClientOptionBuilder {
    /// Names the endpoint, kept as given until `build` validates it.
    pub fn endpoint(self, endpoint: &str) -> (r: Self)
        ensures
            r.endpoint matches Some(e) && e@ == endpoint@,
            r.timeout == self.timeout,
            r.headers == self.headers,
            r.read_timeout == self.read_timeout,
            r.connect_timeout == self.connect_timeout,
    {
        Self { endpoint: Some(endpoint.to_owned()), ..self }
    }

    /// Names the default headers.
    pub fn headers(self, headers: Vec<(String, String)>) -> (r: Self)
        ensures
            r.headers == Some(headers),
            r.endpoint == self.endpoint,
            r.timeout == self.timeout,
            r.read_timeout == self.read_timeout,
            r.connect_timeout == self.connect_timeout,
    {
        Self { headers: Some(headers), ..self }
    }

    /// Names the overall timeout, in milliseconds.
    pub fn timeout(self, ms: u64) -> (r: Self)
        ensures
            r.timeout == Some(ms),
            r.endpoint == self.endpoint,
            r.headers == self.headers,
            r.read_timeout == self.read_timeout,
            r.connect_timeout == self.connect_timeout,
    {
        Self { timeout: Some(ms), ..self }
    }

    /// Names the connect timeout, in milliseconds.
    pub fn connect_timeout(self, ms: u64) -> (r: Self)
        ensures
            r.connect_timeout == Some(ms),
            r.endpoint == self.endpoint,
            r.headers == self.headers,
            r.timeout == self.timeout,
            r.read_timeout == self.read_timeout,
    {
        Self { connect_timeout: Some(ms), ..self }
    }

    /// Names the read timeout, in milliseconds.
    pub fn read_timeout(self, ms: u64) -> (r: Self)
        ensures
            r.read_timeout == Some(ms),
            r.endpoint == self.endpoint,
            r.headers == self.headers,
            r.timeout == self.timeout,
            r.connect_timeout == self.connect_timeout,
    {
        Self { read_timeout: Some(ms), ..self }
    }

    /// Validates the endpoint and fills the defaults in.
    ///
    /// Fails exactly when no endpoint was named or the named one is not
    /// an absolute URL.
    pub fn build(self) -> (r: Result<HttpClientOption, Error>)
        ensures
            r matches Ok(o) ==> ({
                &&& self.endpoint matches Some(e) && url_norm(e@) == Some(o.endpoint@)
                &&& o.wf()
                &&& o.timeout == (if self.timeout is Some {
                    self.timeout->0
                } else {
                    DEFAULT_TIMEOUT_MS
                })
                &&& o.connect_timeout == (if self.connect_timeout is Some {
                    self.connect_timeout->0
                } else {
                    DEFAULT_TIMEOUT_MS
                })
                &&& o.read_timeout == (if self.read_timeout is Some {
                    self.read_timeout->0
                } else {
                    DEFAULT_TIMEOUT_MS
                })
                &&& pairs_view(o.headers@) == (if self.headers is Some {
                    pairs_view(self.headers->0@)
                } else {
                    default_headers_view()
                })
            }),
            r is Err <==> (self.endpoint is None || url_norm(self.endpoint->0@) is None),
            r matches Err(e) ==> e is ConfigBuild,
    {
        let raw = match self.endpoint {
            Some(e) => e,
            None => {
                return Err(Error::ConfigBuild(String::from_str("no endpoint was declared")));
            },
        };
        let endpoint = match parse_url(raw.as_str()) {
            Some(u) => u,
            None => {
                return Err(Error::ConfigBuild(String::from_str("the endpoint is not a URL")));
            },
        };
        let headers = match self.headers {
            Some(h) => h,
            None => default_headers(),
        };
        Ok(
            HttpClientOption {
                endpoint,
                timeout: match self.timeout {
                    Some(ms) => ms,
                    None => DEFAULT_TIMEOUT_MS,
                },
                headers,
                read_timeout: match self.read_timeout {
                    Some(ms) => ms,
                    None => DEFAULT_TIMEOUT_MS,
                },
                connect_timeout: match self.connect_timeout {
                    Some(ms) => ms,
                    None => DEFAULT_TIMEOUT_MS,
                },
            },
        )
    }
}

/// A ready client configuration: endpoint and headers both validated.
pub struct HttpClient {
    pub option: HttpClientOption,
}

impl HttpClient {
    /// Endpoint valid, every default header acceptable to the
    /// transport.
    pub open spec fn wf(&self) -> bool {
        &&& self.option.wf()
        &&& all_headers_ok(pairs_view(self.option.headers@))
    }

    /// Validates a configuration into a ready client.
    ///
    /// Fails exactly when the endpoint is not an absolute URL or some
    /// header is one the transport rejects.
    pub fn new(option: HttpClientOption) -> (r: Result<HttpClient, Error>)
        ensures
            r matches Ok(c) ==> ({
                &&& url_norm(option.endpoint@) == Some(c.option.endpoint@)
                &&& c.wf()
                &&& c.option.timeout == option.timeout
                &&& c.option.connect_timeout == option.connect_timeout
                &&& c.option.read_timeout == option.read_timeout
                &&& c.option.headers@ == option.headers@
            }),
            r is Err <==> (url_norm(option.endpoint@) is None || !all_headers_ok(
                pairs_view(option.headers@),
            )),
            r matches Err(e) ==> e is ConfigBuild,
    {
        let endpoint = match parse_url(option.endpoint.as_str()) {
            Some(u) => u,
            None => {
                return Err(Error::ConfigBuild(String::from_str("the endpoint is not a URL")));
            },
        };
        if !check_headers(&option.headers) {
            return Err(Error::ConfigBuild(String::from_str("a header was rejected")));
        }
        Ok(
            HttpClient {
                option: HttpClientOption {
                    endpoint,
                    timeout: option.timeout,
                    headers: option.headers,
                    read_timeout: option.read_timeout,
                    connect_timeout: option.connect_timeout,
                },
            },
        )
    }

    /// A client on the given endpoint with everything else defaulted.
    ///
    /// Succeeds exactly when the endpoint is an absolute URL (the
    /// default headers are ones the transport accepts).
    pub fn with_endpoint(endpoint: &str) -> (r: Result<HttpClient, Error>)
        ensures
            r matches Ok(c) ==> ({
                &&& url_norm(endpoint@) == Some(c.option.endpoint@)
                &&& c.wf()
                &&& c.option.timeout == DEFAULT_TIMEOUT_MS
                &&& c.option.connect_timeout == DEFAULT_TIMEOUT_MS
                &&& c.option.read_timeout == DEFAULT_TIMEOUT_MS
                &&& pairs_view(c.option.headers@) == default_headers_view()
            }),
            r is Err <==> (url_norm(endpoint@) is None || !all_headers_ok(
                default_headers_view(),
            )),
            r matches Err(e) ==> e is ConfigBuild,
    {
        let option = match HttpClientOption::builder().endpoint(endpoint).build() {
            Ok(o) => o,
            Err(e) => {
                return Err(e);
            },
        };
        Self::new(option)
    }

    /// The validated endpoint, in serialized form.
    pub fn endpoint(&self) -> (r: &str)
        ensures
            r@ == self.option.endpoint@,
    {
        self.option.endpoint.as_str()
    }

    /// The whole configuration.
    pub fn options(&self) -> (r: &HttpClientOption)
        ensures
            r == &self.option,
    {
        &self.option
    }
}

} // verus!
