//! The HTTP request methods a route annotation may name.

use vstd::prelude::*;
use crate::text::upper_chars;

verus! {

/// An HTTP request method.
#[derive(Clone, Copy, Debug, PartialEq, Eq, Structural)]
pub enum Method {
    Get,
    Post,
    Put,
    Head,
    Options,
    Delete,
    Patch,
    Trace,
}

/// The method named by `s`, compared without regard to ASCII case.
pub open spec fn method_of(s: Seq<char>) -> Option<Method> {
    let u = upper_chars(s);
    if u == "GET"@ {
        Some(Method::Get)
    } else if u == "POST"@ {
        Some(Method::Post)
    } else if u == "PUT"@ {
        Some(Method::Put)
    } else if u == "HEAD"@ {
        Some(Method::Head)
    } else if u == "OPTIONS"@ {
        Some(Method::Options)
    } else if u == "DELETE"@ {
        Some(Method::Delete)
    } else if u == "PATCH"@ {
        Some(Method::Patch)
    } else if u == "TRACE"@ {
        Some(Method::Trace)
    } else {
        None
    }
}

/// The canonical upper-case name of a method.
pub open spec fn method_name(m: Method) -> Seq<char> {
    match m {
        Method::Get => "GET"@,
        Method::Post => "POST"@,
        Method::Put => "PUT"@,
        Method::Head => "HEAD"@,
        Method::Options => "OPTIONS"@,
        Method::Delete => "DELETE"@,
        Method::Patch => "PATCH"@,
        Method::Trace => "TRACE"@,
    }
}

impl Method {
    /// Parses a method name, ignoring ASCII case; unknown names are
    /// rejected.
    pub fn from_str(s: &str) -> (r: Result<Method, String>)
        ensures
            r matches Ok(m) ==> method_of(s@) == Some(m),
            r is Err <==> method_of(s@) is None,
    {
        let u = crate::text::upper_string(s);
        if crate::text::str_eq(u.as_str(), "GET") {
            Ok(Method::Get)
        } else if crate::text::str_eq(u.as_str(), "POST") {
            Ok(Method::Post)
        } else if crate::text::str_eq(u.as_str(), "PUT") {
            Ok(Method::Put)
        } else if crate::text::str_eq(u.as_str(), "HEAD") {
            Ok(Method::Head)
        } else if crate::text::str_eq(u.as_str(), "OPTIONS") {
            Ok(Method::Options)
        } else if crate::text::str_eq(u.as_str(), "DELETE") {
            Ok(Method::Delete)
        } else if crate::text::str_eq(u.as_str(), "PATCH") {
            Ok(Method::Patch)
        } else if crate::text::str_eq(u.as_str(), "TRACE") {
            Ok(Method::Trace)
        } else {
            Err(String::from_str("Unsupported HTTP method: ").concat(s))
        }
    }

    /// The canonical upper-case name, as used on the wire.
    pub fn as_str(&self) -> (r: &'static str)
        ensures
            r@ == method_name(*self),
    {
        match self {
            Method::Get => "GET",
            Method::Post => "POST",
            Method::Put => "PUT",
            Method::Head => "HEAD",
            Method::Options => "OPTIONS",
            Method::Delete => "DELETE",
            Method::Patch => "PATCH",
            Method::Trace => "TRACE",
        }
    }
}


impl From<String> for Method {
    /// The named method; an unknown name falls back to `Get`.
    fn from(value: String) -> (r: Method) {
        match Method::from_str(value.as_str()) {
            Ok(m) => m,
            Err(_) => Method::Get,
        }
    }
}

impl vstd::std_specs::convert::FromSpecImpl<String> for Method {
    open spec fn obeys_from_spec() -> bool {
        true
    }

    open spec fn from_spec(value: String) -> Method {
        match method_of(value@) {
            Some(m) => m,
            None => Method::Get,
        }
    }
}

} // verus!
