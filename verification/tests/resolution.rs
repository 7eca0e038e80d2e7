use s3_endpoint::{
    AddressingStyle, Endpoint, EndpointConfig, EndpointError, InvalidUriError, Parameter, Resolution,
    ResolverError, RuleOutcome, Uri,
};

/// The request that the first step asks to put to the rules.
fn request_of(config: EndpointConfig) -> Vec<Parameter> {
    match Endpoint::set_endpoint(config) {
        Resolution::Evaluate(request) => request,
        Resolution::Finished(result) => panic!("settled without the rules: {result:?}"),
    }
}

/// The result with which the first step ends a resolution.
fn settled(config: EndpointConfig) -> Result<Endpoint, EndpointError> {
    match Endpoint::set_endpoint(config) {
        Resolution::Finished(result) => result,
        Resolution::Evaluate(request) => panic!("asked the rules: {request:?}"),
    }
}

/// A resolution in which the rules answer with the given URL, split into
/// authority and path.
fn resolve_with_url(config: EndpointConfig, authority: &str, path: &str) -> Result<Endpoint, EndpointError> {
    match Endpoint::set_endpoint(config) {
        Resolution::Finished(result) => result,
        Resolution::Evaluate(_) => {
            Endpoint::from_rule_outcome(RuleOutcome::Url(Uri::new("https", authority, path, "")))
        }
    }
}

fn region_parameter(name: &str) -> Parameter {
    Parameter::Region(name.to_string())
}

fn text_of(result: Result<Endpoint, EndpointError>) -> String {
    result.unwrap().get_uri().text()
}

#[test]
fn region_alone_resolves_to_the_regional_endpoint() {
    let config = EndpointConfig::new("us-east-1").unwrap();
    assert_eq!(request_of(config.clone()), vec![region_parameter("us-east-1")]);
    let result = resolve_with_url(config, "s3.us-east-1.amazonaws.com", "");
    assert_eq!(text_of(result), "https://s3.us-east-1.amazonaws.com");
}

#[test]
fn dual_stack_resolves_to_the_dual_stack_endpoint() {
    let config = EndpointConfig::new("us-east-1").unwrap().use_dual_stack(true);
    assert_eq!(
        request_of(config.clone()),
        vec![region_parameter("us-east-1"), Parameter::UseDualStack(true)]
    );
    let result = resolve_with_url(config, "s3.dualstack.us-east-1.amazonaws.com", "");
    assert_eq!(text_of(result), "https://s3.dualstack.us-east-1.amazonaws.com");
}

#[test]
fn path_style_keeps_the_bucket_out_of_the_endpoint() {
    let config = EndpointConfig::new("us-east-1")
        .unwrap()
        .addressing_style(AddressingStyle::Path)
        .bucket("my-bucket");
    assert_eq!(
        request_of(config.clone()),
        vec![
            region_parameter("us-east-1"),
            Parameter::Bucket("my-bucket".to_string()),
            Parameter::ForcePathStyle(true),
        ]
    );
    // The rules answer a path-style request with the bucket in the path.
    let result = resolve_with_url(config, "s3.us-east-1.amazonaws.com", "/my-bucket");
    let endpoint = result.unwrap();
    assert_eq!(endpoint.get_uri().text(), "https://s3.us-east-1.amazonaws.com");
    assert_eq!(endpoint.get_uri().authority(), "s3.us-east-1.amazonaws.com");
    assert_eq!(endpoint.get_uri().path(), "");
}

#[test]
fn accelerate_resolves_to_the_accelerate_endpoint() {
    let config = EndpointConfig::new("us-east-1").unwrap().use_accelerate(true);
    assert_eq!(
        request_of(config.clone()),
        vec![region_parameter("us-east-1"), Parameter::Accelerate(true)]
    );
    let result = resolve_with_url(config, "s3-accelerate.amazonaws.com", "");
    assert_eq!(text_of(result), "https://s3-accelerate.amazonaws.com");
}

#[test]
fn fips_with_accelerate_is_not_resolved() {
    let config = EndpointConfig::new("us-east-1").unwrap().use_fips(true).use_accelerate(true);
    assert_eq!(
        request_of(config),
        vec![region_parameter("us-east-1"), Parameter::UseFips(true), Parameter::Accelerate(true)]
    );
    // The rules refuse the two together.
    let refusal = ResolverError::EndpointNotResolved("Accelerate cannot be used with FIPS".to_string());
    let result = Endpoint::from_rule_outcome(RuleOutcome::NotResolved(refusal.clone()));
    assert_eq!(result, Err(EndpointError::UnresolvedEndpoint(refusal)));
}

#[test]
fn virtual_hosted_style_keeps_the_bucket_in_the_host() {
    let config = EndpointConfig::new("eu-west-1").unwrap().bucket("s3-bucket-test");
    let result = resolve_with_url(config, "s3-bucket-test.s3.eu-west-1.amazonaws.com", "");
    assert_eq!(text_of(result), "https://s3-bucket-test.s3.eu-west-1.amazonaws.com");
}

#[test]
fn automatic_style_with_a_dotted_bucket_name_ends_at_the_regional_host() {
    let config = EndpointConfig::new("eu-west-1").unwrap().bucket("s3-bucket.test");
    // Nothing forces path style: the rules choose it for this name.
    assert_eq!(
        request_of(config.clone()),
        vec![region_parameter("eu-west-1"), Parameter::Bucket("s3-bucket.test".to_string())]
    );
    let result = resolve_with_url(config, "s3.eu-west-1.amazonaws.com", "/s3-bucket.test");
    assert_eq!(text_of(result), "https://s3.eu-west-1.amazonaws.com");
}

#[test]
fn endpoint_uri_takes_precedence_over_everything_else() {
    let uri = Uri::new("https", "s3.dualstack.eu-west-1.amazonaws.com", "", "");
    let plain = EndpointConfig::new("us-east-1").unwrap().endpoint(uri.clone());
    let loaded = EndpointConfig::new("ap-southeast-2")
        .unwrap()
        .bucket("my-bucket")
        .addressing_style(AddressingStyle::Path)
        .use_dual_stack(true)
        .use_fips(true)
        .use_accelerate(true)
        .endpoint(uri.clone());
    for config in [plain, loaded] {
        let endpoint = settled(config).unwrap();
        assert_eq!(endpoint.get_uri(), uri);
        assert_eq!(endpoint.get_uri().text(), "https://s3.dualstack.eu-west-1.amazonaws.com");
    }
}

#[test]
fn endpoint_uri_may_have_any_scheme_and_a_port() {
    let uri = Uri::new("http", "localhost:9000", "", "");
    let config = EndpointConfig::new("us-east-1").unwrap().endpoint(uri.clone());
    let endpoint = settled(config).unwrap();
    assert_eq!(endpoint.get_uri(), uri);
    assert_eq!(endpoint.get_uri().text(), "http://localhost:9000");
}

#[test]
fn endpoint_uri_with_path_or_query_is_an_invalid_endpoint() {
    let with_path = Uri::new("https", "example.com", "/bucket", "");
    let with_root = Uri::new("https", "example.com", "/", "");
    let with_query = Uri::new("https", "example.com", "", "versions");
    let with_both = Uri::new("https", "example.com", "/bucket", "versions");
    for uri in [with_path, with_root, with_query, with_both] {
        let config = EndpointConfig::new("us-east-1").unwrap().bucket("b").endpoint(uri);
        // The resolution ends here: the rules are not asked.
        assert_eq!(settled(config), Err(EndpointError::InvalidEndpoint));
    }
}

#[test]
fn resolution_is_the_same_each_time() {
    let config = EndpointConfig::new("us-east-1").unwrap().bucket("my-bucket").use_dual_stack(true);
    assert_eq!(request_of(config.clone()), request_of(config.clone()));
    let first = resolve_with_url(config.clone(), "my-bucket.s3.dualstack.us-east-1.amazonaws.com", "");
    let second = resolve_with_url(config, "my-bucket.s3.dualstack.us-east-1.amazonaws.com", "");
    assert_eq!(first, second);
    assert_eq!(text_of(first), text_of(second));

    let fixed = EndpointConfig::new("us-east-1").unwrap().endpoint(Uri::new("https", "example.com", "", ""));
    assert_eq!(settled(fixed.clone()), settled(fixed.clone()));
    assert_eq!(text_of(settled(fixed.clone())), text_of(settled(fixed)));
}

#[test]
fn resolved_endpoint_has_neither_path_nor_query() {
    let urls = [
        Uri::new("https", "s3.us-east-1.amazonaws.com", "", ""),
        Uri::new("https", "s3.us-east-1.amazonaws.com", "/my-bucket", ""),
        Uri::new("https", "s3.us-east-1.amazonaws.com", "/my-bucket", "x-id=GetObject"),
        Uri::new("https", "s3.us-east-1.amazonaws.com", "", "x-id=GetObject"),
    ];
    for url in urls {
        let endpoint = Endpoint::from_rule_outcome(RuleOutcome::Url(url)).unwrap();
        let uri = endpoint.get_uri();
        assert_eq!(uri.path(), "");
        assert_eq!(uri.query_string(), "");
        assert!(!uri.has_path_or_query());
        assert_eq!(uri.text(), "https://s3.us-east-1.amazonaws.com");
    }
}

#[test]
fn url_that_is_no_uri_is_an_invalid_uri() {
    let result = Endpoint::from_rule_outcome(RuleOutcome::InvalidUrl(InvalidUriError::CouldNotParse(34)));
    assert_eq!(result, Err(EndpointError::InvalidUri(InvalidUriError::CouldNotParse(34))));
    let result = Endpoint::from_rule_outcome(RuleOutcome::InvalidUrl(InvalidUriError::InvalidUtf8));
    assert_eq!(result, Err(EndpointError::InvalidUri(InvalidUriError::InvalidUtf8)));
    // The cause is handed on as it is, whichever it is.
    let cause = InvalidUriError::CannotContainPathOrQueryString;
    let result = Endpoint::from_rule_outcome(RuleOutcome::InvalidUrl(cause));
    assert_eq!(result, Err(EndpointError::InvalidUri(cause)));
}

#[test]
fn url_of_bytes_that_are_no_text_is_an_invalid_uri() {
    let outcome = match Uri::from_bytes(b"https", &[b's', b'3', 0xff], b"", b"") {
        Ok(uri) => RuleOutcome::Url(uri),
        Err(cause) => RuleOutcome::InvalidUrl(cause),
    };
    assert_eq!(
        Endpoint::from_rule_outcome(outcome),
        Err(EndpointError::InvalidUri(InvalidUriError::InvalidUtf8))
    );
}

#[test]
fn failure_of_the_rules_is_an_unresolved_endpoint() {
    let message = "Path-style addressing cannot be used with S3 Accelerate";
    let result = Endpoint::from_rule_outcome(RuleOutcome::NotResolved(
        ResolverError::EndpointNotResolved(message.to_string()),
    ));
    match result {
        Err(EndpointError::UnresolvedEndpoint(ResolverError::EndpointNotResolved(cause))) => {
            assert_eq!(cause, message)
        }
        other => panic!("{other:?}"),
    }
    let result = Endpoint::from_rule_outcome(RuleOutcome::NotResolved(ResolverError::CrtError(1051)));
    assert_eq!(result, Err(EndpointError::UnresolvedEndpoint(ResolverError::CrtError(1051))));
}

#[test]
fn endpoint_from_uri_keeps_the_uri() {
    for text in [
        "s3.us-east-1.amazonaws.com",
        "s3.dualstack.us-east-1.amazonaws.com",
        "s3-fips.us-east-1.amazonaws.com",
        "s3-fips.dualstack.us-east-1.amazonaws.com",
        "s3-accelerate.amazonaws.com",
        "accesspoint.s3-global.amazonaws.com",
    ] {
        let uri = Uri::new("https", text, "", "");
        let endpoint = Endpoint::from_uri(uri.clone()).unwrap();
        assert_eq!(endpoint.get_uri(), uri);
        assert_eq!(endpoint.get_uri().text(), format!("https://{text}"));
    }
}

#[test]
fn endpoint_from_uri_refuses_path_and_query() {
    assert_eq!(Endpoint::from_uri(Uri::new("https", "example.com", "/", "")), Err(EndpointError::InvalidEndpoint));
    assert_eq!(Endpoint::from_uri(Uri::new("https", "example.com", "/a/b", "")), Err(EndpointError::InvalidEndpoint));
    assert_eq!(Endpoint::from_uri(Uri::new("https", "example.com", "", "a=b")), Err(EndpointError::InvalidEndpoint));
    assert_eq!(Endpoint::from_uri(Uri::new("https", "example.com", "/a", "a=b")), Err(EndpointError::InvalidEndpoint));
    assert_eq!(
        Endpoint::from_uri(Uri::new("https", "s3.us-east-1.amazonaws.com", "/my-bucket", "list-type=2")),
        Err(EndpointError::InvalidEndpoint)
    );
}

#[test]
fn endpoint_from_uri_and_resolution_refuse_the_same_uris_alike() {
    let uris = [
        Uri::new("https", "s3.us-east-1.amazonaws.com", "/my-bucket", "list-type=2"),
        Uri::new("https", "s3.us-east-1.amazonaws.com", "", ""),
        Uri::new("http", "localhost:9000", "/", ""),
    ];
    for uri in uris {
        let config = EndpointConfig::new("us-east-1").unwrap().endpoint(uri.clone());
        assert_eq!(settled(config), Endpoint::from_uri(uri));
    }
}

#[test]
fn endpoint_equality_and_clone_go_by_the_uri() {
    let endpoint = Endpoint::from_uri(Uri::new("https", "example.com", "", "")).unwrap();
    let same = Endpoint::from_rule_outcome(RuleOutcome::Url(Uri::new("https", "example.com", "/x", ""))).unwrap();
    let other = Endpoint::from_uri(Uri::new("https", "example.org", "", "")).unwrap();
    assert_eq!(endpoint, same);
    assert_eq!(endpoint.clone(), endpoint);
    assert_ne!(endpoint, other);
}

#[test]
fn errors_convert_into_endpoint_errors() {
    assert_eq!(
        EndpointError::from(InvalidUriError::InvalidUtf8),
        EndpointError::InvalidUri(InvalidUriError::InvalidUtf8)
    );
    assert_eq!(
        EndpointError::from(InvalidUriError::CouldNotParse(7)),
        EndpointError::InvalidUri(InvalidUriError::CouldNotParse(7))
    );
    assert_eq!(
        EndpointError::from(ResolverError::CrtError(3)),
        EndpointError::UnresolvedEndpoint(ResolverError::CrtError(3))
    );
    let converted: EndpointError = ResolverError::EndpointNotResolved("no".to_string()).into();
    assert_eq!(
        converted,
        EndpointError::UnresolvedEndpoint(ResolverError::EndpointNotResolved("no".to_string()))
    );
}

#[test]
fn error_equality_is_over_kind_and_value() {
    let not_resolved = |text: &str| ResolverError::EndpointNotResolved(text.to_string());
    assert_eq!(not_resolved("a"), not_resolved("a"));
    assert_ne!(not_resolved("a"), not_resolved("b"));
    assert_ne!(not_resolved("1"), ResolverError::CrtError(1));
    assert_ne!(ResolverError::CrtError(1), ResolverError::CrtError(2));
    assert_eq!(not_resolved("a").clone(), not_resolved("a"));
    assert_ne!(EndpointError::InvalidEndpoint, EndpointError::InvalidUri(InvalidUriError::InvalidUtf8));
    assert_ne!(
        EndpointError::InvalidUri(InvalidUriError::CouldNotParse(1)),
        EndpointError::InvalidUri(InvalidUriError::CouldNotParse(2))
    );
    assert_ne!(
        EndpointError::UnresolvedEndpoint(not_resolved("a")),
        EndpointError::UnresolvedEndpoint(not_resolved("b"))
    );
    assert_eq!(EndpointError::InvalidEndpoint.clone(), EndpointError::InvalidEndpoint);
    assert_eq!(
        EndpointError::UnresolvedEndpoint(not_resolved("a")).clone(),
        EndpointError::UnresolvedEndpoint(not_resolved("a"))
    );
}
