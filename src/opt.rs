//! The resolved configuration of one request, and the two policies derived
//! from it: the SigV4 signing scope and the body that is sent.

use vstd::prelude::*;
use vstd::string::StringExecFns;
use vstd::utf8::{encode_utf8, valid_utf8};

use crate::percent::{lemma_decode_shortens_or_keeps, percent_decode, percent_encode, url_decode, url_encode};

verus! {

/// The configuration of one request, as given on the command line.
pub struct Opt {
    /// Verbosity: 0 is silent, more echoes the configuration and traces the transfer.
    pub verbose: u8,
    /// AWS access key.
    pub access_key: Option<String>,
    /// AWS secret key.
    pub secret_key: Option<String>,
    /// Request method, `GET` by default.
    pub method: String,
    /// Raw header lines, `Name: Value`, in the order given.
    pub header: Vec<String>,
    /// Explicit SigV4 scope.
    pub aws_sigv4: Option<String>,
    /// Region, to build the scope from.
    pub region: Option<String>,
    /// Service, to build the scope from.
    pub service: Option<String>,
    /// Reserved switch for another transport.
    pub disable_libcurl: bool,
    /// Request body.
    pub post_data: Option<String>,
    /// Target URL.
    pub url: String,
}

/// A configuration that cannot be turned into a request.
#[derive(Debug, Clone, Copy, PartialEq, Eq)]
pub enum ConfigError {
    /// Exactly one of region and service is given.
    UnpairedRegionService,
    /// Both keys are given without an explicit scope, and region or service is missing.
    MissingRegionOrService,
}

/// Why no request can be made from a configuration.
#[derive(Debug, Clone, Copy, PartialEq, Eq)]
pub enum RequestError {
    Config(ConfigError),
    Body(BodyError),
}

/// A body that cannot be checked for percent-encoding.
#[derive(Debug, Clone, Copy, PartialEq, Eq)]
pub enum BodyError {
    /// Percent-decoding the body gives bytes that are not UTF-8.
    DecodedNotUtf8,
}

/// A diagnostic note on the body, for the user.
#[derive(Debug, Clone, Copy, PartialEq, Eq)]
pub enum BodyNotice {
    /// The body was taken as already percent-encoded and sent as it is.
    AlreadyEncoded,
    /// The body was percent-encoded, as SigV4 signing needs.
    MustEncode,
}

/// The body to send, with the note to show about it.
pub struct EncodedBody {
    pub body: String,
    pub notice: Option<BodyNotice>,
}

/// The scope built from a region and a service: `aws:amz:<region>:<service>`.
pub open spec fn derived_scope(region: Seq<char>, service: Seq<char>) -> Seq<char> {
    seq!['a', 'w', 's', ':', 'a', 'm', 'z', ':'] + region + seq![':'] + service
}

/// Whether a body is taken as already percent-encoded: decoding it makes it shorter.
pub open spec fn already_encoded(b: Seq<u8>) -> bool {
    percent_decode(b).len() < b.len()
}

/// Whether the body policy fails: signing, and the decoded body is not UTF-8.
pub open spec fn body_rejected(post: Option<Seq<char>>, signing: bool) -> bool {
    signing && (post matches Some(s) && !valid_utf8(percent_decode(encode_utf8(s))))
}

/// The bytes sent as body: none without a body; the body itself without
/// signing or when already encoded; else its percent-encoding.
pub open spec fn sent_body(post: Option<Seq<char>>, signing: bool) -> Seq<u8> {
    match post {
        None => Seq::empty(),
        Some(s) => if !signing || already_encoded(encode_utf8(s)) {
            encode_utf8(s)
        } else {
            percent_encode(encode_utf8(s))
        },
    }
}

/// The note on the body: always when it is encoded, only when verbose when it
/// is taken as already encoded, never without signing.
pub open spec fn body_notice(post: Option<Seq<char>>, signing: bool, verbose: bool) -> Option<
    BodyNotice,
> {
    match post {
        None => None,
        Some(s) => if !signing {
            None
        } else if already_encoded(encode_utf8(s)) {
            if verbose {
                Some(BodyNotice::AlreadyEncoded)
            } else {
                None
            }
        } else {
            Some(BodyNotice::MustEncode)
        },
    }
}

/// With signing, a body that percent-decoding shortens is sent unchanged, and
/// one whose decoding keeps its length is sent percent-encoded; every body is
/// one or the other.
pub proof fn lemma_encoding_heuristic(b: Seq<char>)
    ensures
        already_encoded(encode_utf8(b)) ==> sent_body(Some(b), true) == encode_utf8(b),
        percent_decode(encode_utf8(b)).len() == encode_utf8(b).len() ==> sent_body(Some(b), true)
            == percent_encode(encode_utf8(b)),
        already_encoded(encode_utf8(b)) || percent_decode(encode_utf8(b)).len() == encode_utf8(
            b,
        ).len(),
{
    lemma_decode_shortens_or_keeps(encode_utf8(b));
}

/// The characters of an optional borrowed string.
pub open spec fn opt_ref_view(s: Option<&String>) -> Option<Seq<char>> {
    match s {
        Some(x) => Some(x@),
        None => None,
    }
}

/// The characters of an optional string.
pub open spec fn opt_view(s: Option<String>) -> Option<Seq<char>> {
    match s {
        Some(x) => Some(x@),
        None => None,
    }
}

impl Opt {
    /// Whether the request is signed: the scope is known and not empty.
    pub open spec fn signing_active(&self) -> bool {
        self.scope_of() matches Ok(s) && s.len() > 0
    }

    /// Whether both keys are given.
    pub open spec fn has_credentials(&self) -> bool {
        self.access_key is Some && self.secret_key is Some
    }

    /// The scope that `sigv4_scope` gives, or its error.
    pub open spec fn scope_of(&self) -> Result<Seq<char>, ConfigError> {
        match self.aws_sigv4 {
            Some(x) => Ok(x@),
            None => if self.has_credentials() {
                match (self.region, self.service) {
                    (Some(g), Some(v)) => Ok(derived_scope(g@, v@)),
                    _ => Err(ConfigError::MissingRegionOrService),
                }
            } else {
                Ok(Seq::empty())
            },
        }
    }

    /// Region and service are given together or not at all.
    pub fn check_region_service(&self) -> (r: Result<(), ConfigError>)
        ensures
            r is Ok <==> (self.region is Some == self.service is Some),
            r is Err ==> r matches Err(ConfigError::UnpairedRegionService),
    {
        if self.region.is_some() != self.service.is_some() {
            Err(ConfigError::UnpairedRegionService)
        } else {
            Ok(())
        }
    }

    /// The SigV4 scope: the explicit one if given; else, with both keys,
    /// the one built from region and service; else empty (no signing).
    pub fn sigv4_scope(&self) -> (r: Result<String, ConfigError>)
        ensures
            r is Ok == self.scope_of() is Ok,
            r matches Ok(s) ==> self.scope_of() == Ok::<Seq<char>, ConfigError>(s@),
            r matches Err(e) ==> self.scope_of() == Err::<Seq<char>, ConfigError>(e),
            self.aws_sigv4 matches Some(x) ==> (r matches Ok(s) && s@ == x@),
            self.aws_sigv4 is None && self.has_credentials() ==> match (self.region, self.service) {
                (Some(g), Some(v)) => (r matches Ok(s) && s@ == derived_scope(g@, v@)),
                _ => r matches Err(ConfigError::MissingRegionOrService),
            },
            self.aws_sigv4 is None && !self.has_credentials() ==> (r matches Ok(s) && s@.len()
                == 0),
    {
        match &self.aws_sigv4 {
            Some(s) => Ok(s.clone()),
            None => {
                if self.access_key.is_some() && self.secret_key.is_some() {
                    match (&self.region, &self.service) {
                        (Some(g), Some(v)) => {
                            let mut out = "aws:amz:".to_owned();
                            out.append(g.as_str());
                            out.append(":");
                            out.append(v.as_str());
                            proof {
                                reveal_strlit("aws:amz:");
                                reveal_strlit(":");
                                assert(out@ =~= derived_scope(g@, v@));
                            }
                            Ok(out)
                        },
                        _ => Err(ConfigError::MissingRegionOrService),
                    }
                } else {
                    Ok(String::new())
                }
            },
        }
    }
    /// The body to send. Without signing it is the body as given. With
    /// signing, a body that percent-decoding shortens is taken as already
    /// encoded and sent as it is; any other is percent-encoded. No body gives
    /// an empty one.
    pub fn auto_urlencode(post_data: Option<&String>, enable_aws_sigv4: bool, verbose: bool) -> (r:
        Result<EncodedBody, BodyError>)
        ensures
            r is Err <==> body_rejected(opt_ref_view(post_data), enable_aws_sigv4),
            r matches Err(e) ==> e == BodyError::DecodedNotUtf8,
            r matches Ok(e) ==> encode_utf8(e.body@) == sent_body(
                opt_ref_view(post_data),
                enable_aws_sigv4,
            ),
            r matches Ok(e) ==> e.notice == body_notice(
                opt_ref_view(post_data),
                enable_aws_sigv4,
                verbose,
            ),
    {
        match post_data {
            Some(s) => {
                if enable_aws_sigv4 {
                    match url_decode(s.as_str()) {
                        Ok(decoded) => {
                            if decoded.as_str().as_bytes().len() < s.as_str().as_bytes().len() {
                                let notice = if verbose {
                                    Some(BodyNotice::AlreadyEncoded)
                                } else {
                                    None
                                };
                                Ok(EncodedBody { body: s.clone(), notice })
                            } else {
                                Ok(
                                    EncodedBody {
                                        body: url_encode(s.as_str()),
                                        notice: Some(BodyNotice::MustEncode),
                                    },
                                )
                            }
                        },
                        Err(_) => Err(BodyError::DecodedNotUtf8),
                    }
                } else {
                    Ok(EncodedBody { body: s.clone(), notice: None })
                }
            },
            None => Ok(EncodedBody { body: String::new(), notice: None }),
        }
    }

    /// The body of this request, handled as for signing exactly when the
    /// request is signed. A scope that cannot be derived is an error.
    pub fn get_postdata(&self) -> (r: Result<EncodedBody, RequestError>)
        ensures
            r is Err <==> (self.scope_of() is Err || body_rejected(
                opt_view(self.post_data),
                self.signing_active(),
            )),
            r matches Err(e) ==> e == (if self.scope_of() is Err {
                RequestError::Config(self.scope_of()->Err_0)
            } else {
                RequestError::Body(BodyError::DecodedNotUtf8)
            }),
            r matches Ok(e) ==> encode_utf8(e.body@) == sent_body(
                opt_view(self.post_data),
                self.signing_active(),
            ),
            r matches Ok(e) ==> e.notice == body_notice(
                opt_view(self.post_data),
                self.signing_active(),
                self.verbose > 0,
            ),
    {
        let scope = match self.sigv4_scope() {
            Ok(s) => s,
            Err(e) => {
                return Err(RequestError::Config(e));
            },
        };
        match Opt::auto_urlencode(
            self.post_data.as_ref(),
            !scope.as_str().is_empty(),
            self.verbose > 0,
        ) {
            Ok(b) => Ok(b),
            Err(e) => Err(RequestError::Body(e)),
        }
    }
}

} // verus!
