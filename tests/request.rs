use awscurl::opt::{BodyError, BodyNotice, ConfigError, Opt};
use awscurl::request::{plan_request, HttpMethod, RequestError};

fn base(url: &str, method: &str) -> Opt {
    Opt {
        verbose: 0,
        access_key: None,
        secret_key: None,
        method: method.to_string(),
        header: Vec::new(),
        aws_sigv4: None,
        region: None,
        service: None,
        disable_libcurl: false,
        post_data: None,
        url: url.to_string(),
    }
}

fn signed(post_data: &str) -> Opt {
    let mut o = base("http://x/test", "POST");
    o.access_key = Some("AK".to_string());
    o.secret_key = Some("SK".to_string());
    o.region = Some("us-east-1".to_string());
    o.service = Some("execute-api".to_string());
    o.post_data = Some(post_data.to_string());
    o
}

#[test]
fn scenario_plain_get() {
    let p = plan_request(&base("http://x/test", "GET")).unwrap();
    assert!(matches!(p.method, HttpMethod::Get));
    assert_eq!(p.url, "http://x/test");
    assert!(!p.url_missing);
    assert!(!p.attach_body);
    assert_eq!(p.post_field_size, None);
    assert_eq!(p.body, "");
    assert_eq!(p.aws_sigv4, None);
    assert_eq!(p.username, None);
    assert_eq!(p.password, None);
    assert!(p.headers.is_empty());
}

#[test]
fn scenario_signed_post_is_encoded() {
    let p = plan_request(&signed("a b")).unwrap();
    assert_eq!(p.aws_sigv4.as_deref(), Some("aws:amz:us-east-1:execute-api"));
    assert_eq!(p.body, "a%20b");
    assert!(matches!(p.method, HttpMethod::Post));
    assert_eq!(p.post_field_size, Some(5));
    assert!(p.attach_body);
    assert_eq!(p.username.as_deref(), Some("AK"));
    assert_eq!(p.password.as_deref(), Some("SK"));
    assert_eq!(p.notice, Some(BodyNotice::MustEncode));
}

#[test]
fn scenario_signed_post_already_encoded() {
    let p = plan_request(&signed("a%20b")).unwrap();
    assert_eq!(p.aws_sigv4.as_deref(), Some("aws:amz:us-east-1:execute-api"));
    assert_eq!(p.body, "a%20b");
    assert_eq!(p.post_field_size, Some(5));
    assert_eq!(p.notice, None);
}

#[test]
fn already_encoded_notice_only_when_verbose() {
    let mut o = signed("a%20b");
    o.verbose = 2;
    let p = plan_request(&o).unwrap();
    assert_eq!(p.notice, Some(BodyNotice::AlreadyEncoded));
    assert!(p.verbose);
}

#[test]
fn explicit_scope_wins() {
    let mut o = signed("x");
    o.aws_sigv4 = Some("aws:amz:eu-west-1:s3".to_string());
    assert_eq!(o.sigv4_scope().unwrap(), "aws:amz:eu-west-1:s3");
    let mut bare = base("http://x", "GET");
    bare.aws_sigv4 = Some("osc".to_string());
    assert_eq!(bare.sigv4_scope().unwrap(), "osc");
}

#[test]
fn scope_built_from_region_and_service() {
    let mut o = base("http://x", "GET");
    o.access_key = Some("a".to_string());
    o.secret_key = Some("s".to_string());
    o.region = Some("r".to_string());
    o.service = Some("s".to_string());
    assert_eq!(o.sigv4_scope().unwrap(), "aws:amz:r:s");
}

#[test]
fn no_scope_without_both_keys() {
    let mut o = base("http://x", "GET");
    o.access_key = Some("a".to_string());
    o.region = Some("r".to_string());
    o.service = Some("s".to_string());
    assert_eq!(o.sigv4_scope().unwrap(), "");
    let p = plan_request(&o).unwrap();
    assert_eq!(p.aws_sigv4, None);
    assert_eq!(p.username.as_deref(), Some("a"));
    assert_eq!(p.password, None);
    assert_eq!(base("http://x", "GET").sigv4_scope().unwrap(), "");
}

#[test]
fn keys_without_region_is_an_error() {
    let mut o = base("http://x", "GET");
    o.access_key = Some("a".to_string());
    o.secret_key = Some("s".to_string());
    assert_eq!(o.sigv4_scope(), Err(ConfigError::MissingRegionOrService));
    assert!(matches!(
        plan_request(&o),
        Err(RequestError::Config(ConfigError::MissingRegionOrService))
    ));
}

#[test]
fn region_without_service_is_an_error() {
    let mut o = base("http://x", "GET");
    o.region = Some("r".to_string());
    assert_eq!(o.check_region_service(), Err(ConfigError::UnpairedRegionService));
    assert!(matches!(
        plan_request(&o),
        Err(RequestError::Config(ConfigError::UnpairedRegionService))
    ));
}

#[test]
fn decoded_body_not_utf8_is_an_error() {
    let o = signed("%FF");
    assert!(matches!(
        o.get_postdata(),
        Err(RequestError::Body(BodyError::DecodedNotUtf8))
    ));
    assert!(matches!(
        plan_request(&o),
        Err(RequestError::Body(BodyError::DecodedNotUtf8))
    ));
}

#[test]
fn body_unchanged_without_signing() {
    let mut o = base("http://x", "PUT");
    o.post_data = Some("a b".to_string());
    let p = plan_request(&o).unwrap();
    assert_eq!(p.body, "a b");
    assert!(matches!(p.method, HttpMethod::Put));
    assert_eq!(p.post_field_size, Some(3));
    assert!(p.attach_body);
    assert_eq!(p.notice, None);
}

#[test]
fn get_never_attaches_body() {
    let mut o = signed("payload");
    o.method = "GET".to_string();
    let p = plan_request(&o).unwrap();
    assert!(matches!(p.method, HttpMethod::Get));
    assert!(!p.attach_body);
    assert_eq!(p.post_field_size, None);
}

#[test]
fn custom_method_declares_byte_length() {
    let mut o = base("http://x", "DELETE");
    o.post_data = Some("é".to_string());
    let p = plan_request(&o).unwrap();
    match p.method {
        HttpMethod::Custom(m) => assert_eq!(m, "DELETE"),
        _ => panic!("expected a custom method"),
    }
    assert_eq!(p.post_field_size, Some(2));
    assert!(p.attach_body);
}

#[test]
fn empty_body_is_not_attached() {
    let p = plan_request(&base("http://x", "PATCH")).unwrap();
    assert_eq!(p.post_field_size, Some(0));
    assert!(!p.attach_body);
}

#[test]
fn headers_forwarded_in_order() {
    let mut o = base("http://x", "GET");
    o.header = vec!["A: 1".to_string(), "B: 2".to_string()];
    let p = plan_request(&o).unwrap();
    assert_eq!(p.headers, vec!["A: 1".to_string(), "B: 2".to_string()]);
}

#[test]
fn missing_url_is_flagged() {
    let p = plan_request(&base("", "GET")).unwrap();
    assert!(p.url_missing);
}

#[test]
fn encoding_of_reserved_bytes() {
    let body = "k=v&x/é~-._";
    let r = Opt::auto_urlencode(Some(&body.to_string()), true, false).unwrap();
    assert_eq!(r.body, "k%3Dv%26x%2F%C3%A9~-._");
    assert_eq!(r.notice, Some(BodyNotice::MustEncode));
}

#[test]
fn lone_percent_is_encoded() {
    let r = Opt::auto_urlencode(Some(&"100%".to_string()), true, true).unwrap();
    assert_eq!(r.body, "100%25");
}

#[test]
fn absent_body_is_empty() {
    let r = Opt::auto_urlencode(None, true, true).unwrap();
    assert_eq!(r.body, "");
    assert_eq!(r.notice, None);
}

#[test]
fn single_key_leaves_body_unchanged() {
    let mut o = base("http://x", "POST");
    o.access_key = Some("AK".to_string());
    o.post_data = Some("a b".to_string());
    let b = o.get_postdata().unwrap();
    assert_eq!(b.body, "a b");
    assert_eq!(b.notice, None);
    let p = plan_request(&o).unwrap();
    assert_eq!(p.body, "a b");
    assert_eq!(p.notice, None);
    assert_eq!(p.aws_sigv4, None);
    assert_eq!(p.username.as_deref(), Some("AK"));
}

#[test]
fn empty_explicit_scope_leaves_body_unchanged() {
    let mut o = base("http://x", "POST");
    o.aws_sigv4 = Some(String::new());
    o.post_data = Some("a b".to_string());
    assert_eq!(o.get_postdata().unwrap().body, "a b");
    let p = plan_request(&o).unwrap();
    assert_eq!(p.body, "a b");
    assert_eq!(p.aws_sigv4, None);
}

#[test]
fn explicit_scope_encodes_body() {
    let mut o = base("http://x", "POST");
    o.aws_sigv4 = Some("aws:amz:us-east-1:s3".to_string());
    o.post_data = Some("a b".to_string());
    let b = o.get_postdata().unwrap();
    assert_eq!(b.body, "a%20b");
    assert_eq!(b.notice, Some(BodyNotice::MustEncode));
}

#[test]
fn body_needs_a_derivable_scope() {
    let mut o = base("http://x", "POST");
    o.access_key = Some("a".to_string());
    o.secret_key = Some("s".to_string());
    o.post_data = Some("a b".to_string());
    assert!(matches!(
        o.get_postdata(),
        Err(RequestError::Config(ConfigError::MissingRegionOrService))
    ));
}
