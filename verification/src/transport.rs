use crate::error::AdminError;
use crate::numfmt::{dec_digits, u64_to_decimal};
use vstd::prelude::*;

verus! {

/// TLS parameters for the administrative endpoint.
///
/// Supplying a value selects the `https` scheme for the base origin. The
/// structure carries no certificate or identity material yet; it only
/// records that TLS was requested.
pub struct SslParams {}

/// The HTTP verbs the administrative API is driven with.
#[derive(Clone, Copy, Debug, PartialEq, Eq, Structural)]
pub enum Method {
    Get,
    Put,
    Delete,
}

/// One administrative HTTP request, ready to be resolved against the base
/// origin and sent: a verb, a path relative to the origin, and for `Put` the
/// body text.
#[derive(Debug)]
pub struct AdminRequest {
    pub method: Method,
    pub path: String,
    pub body: Option<String>,
}

impl AdminRequest {
    /// A request is well formed when only a `Put` carries a body.
    pub open spec fn wf(self) -> bool {
        self.body is Some ==> self.method is Put
    }
}

/// The base origin chosen for `host`, `port` and the given TLS parameters:
/// `https://host:port` when TLS parameters are present, `http://host:port`
/// otherwise.
pub open spec fn base_origin_spec(host: Seq<char>, port: u16, ssl: Option<SslParams>) -> Seq<
    char,
> {
    (if ssl is Some {
        "https://"@
    } else {
        "http://"@
    }) + host + ":"@ + dec_digits(port as nat)
}

/// Builds the base origin text for an administrative session.
///
/// The scheme is `https` exactly when TLS parameters were supplied, and the
/// origin is fixed for the life of the session.
pub fn base_origin(host: &str, port: u16, ssl: &Option<SslParams>) -> (r: String)
    ensures
        r@ == base_origin_spec(host@, port, *ssl),
{
    let mut s = match ssl {
        Some(_) => String::from_str("https://"),
        None => String::from_str("http://"),
    };
    s.append(host);
    s.append(":");
    let digits = u64_to_decimal(port as u64);
    s.append(digits.as_str());
    proof {
        assert(s@ =~= base_origin_spec(host@, port, *ssl));
    }
    s
}

/// Whether `status` is in the client-error or server-error range.
pub open spec fn is_error_status_spec(status: u16) -> bool {
    400 <= status < 600
}

/// Classifies a response status: error exactly for the 4xx and 5xx ranges.
pub fn is_error_status(status: u16) -> (r: bool)
    ensures
        r == is_error_status_spec(status),
{
    400 <= status && status < 600
}

/// Classifies a completed HTTP exchange.
///
/// A status in the error range becomes an `Http` error carrying that status
/// and the response body as its message; any other status hands the body on
/// unchanged for decoding.
pub fn classify_response(status: u16, body: String) -> (r: Result<String, AdminError>)
    ensures
        is_error_status_spec(status) ==> r == Err::<String, AdminError>(
            (AdminError::Http { status, message: body }),
        ),
        !is_error_status_spec(status) ==> r == Ok::<String, AdminError>(body),
{
    if is_error_status(status) {
        Err(AdminError::Http { status, message: body })
    } else {
        Ok(body)
    }
}

} // verus!
