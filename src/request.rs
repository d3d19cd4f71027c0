//! The request to perform: every decision about it, made from an [`Opt`].

use vstd::prelude::*;
use vstd::utf8::encode_utf8;

use crate::opt::{
    body_notice, body_rejected, opt_view, sent_body, BodyError, BodyNotice, ConfigError, Opt,
};

pub use crate::opt::RequestError;

verus! {

/// The method of a request, as the transport is told it.
pub enum HttpMethod {
    Get,
    Put,
    Post,
    /// Any other method, sent as a custom verb.
    Custom(String),
}

/// Everything the transport is told about one request.
pub struct RequestPlan {
    /// Target URL.
    pub url: String,
    /// The URL is empty: a warning is due, the request is still made.
    pub url_missing: bool,
    /// Echo the configuration and trace the transfer.
    pub verbose: bool,
    /// Header lines, forwarded as they are, in this order.
    pub headers: Vec<String>,
    /// The SigV4 scope, when signing.
    pub aws_sigv4: Option<String>,
    /// User name handed to the transport (the access key).
    pub username: Option<String>,
    /// Password handed to the transport (the secret key).
    pub password: Option<String>,
    pub method: HttpMethod,
    /// The declared body length, for every method but GET.
    pub post_field_size: Option<usize>,
    /// The body.
    pub body: String,
    /// Whether the body is handed to the transport to read.
    pub attach_body: bool,
    /// A note on the body, for the user.
    pub notice: Option<BodyNotice>,
}

/// The names of the three methods the transport knows by name.
pub open spec fn get_name() -> Seq<char> {
    seq!['G', 'E', 'T']
}

pub open spec fn put_name() -> Seq<char> {
    seq!['P', 'U', 'T']
}

pub open spec fn post_name() -> Seq<char> {
    seq!['P', 'O', 'S', 'T']
}

/// The method named `m`: GET, PUT and POST by their exact names, any other as a custom verb.
pub open spec fn method_matches(m: Seq<char>, method: HttpMethod) -> bool {
    if m == get_name() {
        method is Get
    } else if m == put_name() {
        method is Put
    } else if m == post_name() {
        method is Post
    } else {
        method matches HttpMethod::Custom(c) && c@ == m
    }
}

/// The error that `plan_request` gives, if any: the pairing of region and
/// service first, then the scope, then the body.
pub open spec fn plan_error(opt: Opt) -> Option<RequestError> {
    if (opt.region is Some) != (opt.service is Some) {
        Some(RequestError::Config(ConfigError::UnpairedRegionService))
    } else if opt.scope_of() is Err {
        Some(RequestError::Config(opt.scope_of()->Err_0))
    } else if body_rejected(opt_view(opt.post_data), opt.signing_active()) {
        Some(RequestError::Body(BodyError::DecodedNotUtf8))
    } else {
        None
    }
}

/// What a plan holds for a configuration that gives no error.
pub open spec fn plans(opt: Opt, p: RequestPlan) -> bool {
    let body = encode_utf8(p.body@);
    &&& p.url@ == opt.url@
    &&& p.url_missing == (opt.url@.len() == 0)
    &&& p.verbose == (opt.verbose > 0)
    &&& p.headers@ == opt.header@
    &&& (opt.scope_of() matches Ok(s) && (if s.len() == 0 {
        p.aws_sigv4 is None
    } else {
        p.aws_sigv4 matches Some(x) && x@ == s
    }))
    &&& opt_view(p.username) == opt_view(opt.access_key)
    &&& opt_view(p.password) == opt_view(opt.secret_key)
    &&& method_matches(opt.method@, p.method)
    &&& body == sent_body(opt_view(opt.post_data), opt.signing_active())
    &&& p.notice == body_notice(
        opt_view(opt.post_data),
        opt.signing_active(),
        opt.verbose > 0,
    )
    &&& (p.method is Get ==> p.post_field_size is None && !p.attach_body)
    &&& (!(p.method is Get) ==> p.post_field_size == Some(body.len() as usize) && p.attach_body
        == (body.len() > 0))
}

/// A copy of an optional string.
fn clone_option(s: &Option<String>) -> (r: Option<String>)
    ensures
        opt_view(r) == opt_view(*s),
{
    match s {
        Some(x) => Some(x.clone()),
        None => None,
    }
}

/// A copy of a list of lines, in order.
fn clone_lines(lines: &Vec<String>) -> (r: Vec<String>)
    ensures
        r@ == lines@,
{
    let mut out: Vec<String> = Vec::new();
    let mut i: usize = 0;
    while i < lines.len()
        invariant
            i <= lines.len(),
            out@ == lines@.subrange(0, i as int),
        decreases lines.len() - i,
    {
        out.push(lines[i].clone());
        i = i + 1;
    }
    assert(out@ =~= lines@);
    out
}

/// Decides the request for a configuration: its scope, credentials, headers,
/// method, body and how the body is handed over.
pub fn plan_request(opt: &Opt) -> (r: Result<RequestPlan, RequestError>)
    ensures
        r is Err <==> plan_error(*opt) is Some,
        r matches Err(e) ==> plan_error(*opt) == Some(e),
        r matches Ok(p) ==> plan_error(*opt) is None && plans(*opt, p),
{
    if let Err(e) = opt.check_region_service() {
        return Err(RequestError::Config(e));
    }
    let scope = match opt.sigv4_scope() {
        Ok(s) => s,
        Err(e) => {
            return Err(RequestError::Config(e));
        },
    };
    let encoded = match Opt::auto_urlencode(
        opt.post_data.as_ref(),
        !scope.as_str().is_empty(),
        opt.verbose > 0,
    ) {
        Ok(b) => b,
        Err(e) => {
            return Err(RequestError::Body(e));
        },
    };
    let aws_sigv4 = if scope.as_str().is_empty() {
        None
    } else {
        Some(scope)
    };
    let get = "GET".to_owned();
    let put = "PUT".to_owned();
    let post = "POST".to_owned();
    proof {
        reveal_strlit("GET");
        reveal_strlit("PUT");
        reveal_strlit("POST");
        assert(get@ =~= get_name());
        assert(put@ =~= put_name());
        assert(post@ =~= post_name());
    }
    let body_len = encoded.body.as_str().as_bytes().len();
    let (method, post_field_size, attach_body) = if opt.method == get {
        (HttpMethod::Get, None, false)
    } else if opt.method == put {
        (HttpMethod::Put, Some(body_len), body_len > 0)
    } else if opt.method == post {
        (HttpMethod::Post, Some(body_len), body_len > 0)
    } else {
        (HttpMethod::Custom(opt.method.clone()), Some(body_len), body_len > 0)
    };
    Ok(
        RequestPlan {
            url: opt.url.clone(),
            url_missing: opt.url.as_str().is_empty(),
            verbose: opt.verbose > 0,
            headers: clone_lines(&opt.header),
            aws_sigv4,
            username: clone_option(&opt.access_key),
            password: clone_option(&opt.secret_key),
            method,
            post_field_size,
            body: encoded.body,
            attach_body,
            notice: encoded.notice,
        },
    )
}

} // verus!
