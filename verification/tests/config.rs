use ngrok::config::common::{default_forwards_to, AppProtocol, AppProtocolParseError};
use ngrok::config::http::{HttpTunnelBuilder, Scheme};
use ngrok::config::labeled::LabeledTunnelBuilder;
use ngrok::config::oauth::OauthOptions;
use ngrok::config::oidc::OidcOptions;
use ngrok::config::policies::{Action, InvalidPolicy, Policy, Rule};
use ngrok::config::tcp::TcpTunnelBuilder;
use ngrok::config::tls::TlsTunnelBuilder;
use ngrok::proto::{BindOpts, ProxyProto};
use ngrok::urls::parse_url;

const METADATA: &str = "testmeta";
const TEST_FORWARD: &str = "testforward";
const TEST_FORWARD_PROTO: &str = "http2";
const ALLOW_CIDR: &str = "0.0.0.0/0";
const DENY_CIDR: &str = "10.1.1.1/32";
const CA_CERT: &[u8] = "test ca cert".as_bytes();
const CA_CERT2: &[u8] = "test ca cert2".as_bytes();
const DOMAIN: &str = "test domain";
const ALLOW_AGENT: &str = r"bar/(\d)+";
const DENY_AGENT: &str = r"foo/(\d)+";
const REMOTE_ADDR: &str = "4.tcp.ngrok.io:1337";
const KEY: &[u8] = "test cert".as_bytes();
const CERT: &[u8] = "test cert".as_bytes();
const LABEL_KEY: &str = "edge";
const LABEL_VAL: &str = "edghts_2IC6RJ6CQnuh7waciWyaGKc50Nt";

// The policy of the original fixture, built by calls.
fn test_policy() -> Policy {
    let mut inbound = Rule::new("test_in");
    inbound.add_expression("req.Method == 'PUT'");
    inbound.add_action(Action::new("deny", None).unwrap());
    let mut outbound = Rule::new("test_out");
    outbound.add_expression("res.StatusCode == '200'");
    outbound.add_action(Action::new("custom-response", Some("{\"status_code\":201}")).unwrap());
    let mut policy = Policy::new();
    policy.add_inbound(inbound);
    policy.add_outbound(outbound);
    policy
}

#[test]
fn http_test_interface_to_proto() {
    let mut builder = HttpTunnelBuilder::new();
    builder
        .allow_user_agent(ALLOW_AGENT)
        .deny_user_agent(DENY_AGENT)
        .allow_cidr(ALLOW_CIDR)
        .deny_cidr(DENY_CIDR)
        .proxy_proto(ProxyProto::V2)
        .metadata(METADATA)
        .scheme(Scheme::from_str("hTtPs").unwrap())
        .domain(DOMAIN)
        .mutual_tlsca(CA_CERT.to_vec())
        .mutual_tlsca(CA_CERT2.to_vec())
        .compression()
        .websocket_tcp_conversion()
        .circuit_breaker(0.5f64.to_bits())
        .request_header("X-Req-Yup", "true")
        .response_header("X-Res-Yup", "true")
        .remove_request_header("X-Req-Nope")
        .remove_response_header("X-Res-Nope")
        .oauth(&OauthOptions::new("google"))
        .oauth(
            &OauthOptions::new("google")
                .allow_email("<user>@<domain>")
                .allow_domain("<domain>")
                .scope("<scope>"),
        )
        .oidc(&OidcOptions::new("<url>", "<id>", "<secret>"))
        .oidc(
            &OidcOptions::new("<url>", "<id>", "<secret>")
                .allow_email("<user>@<domain>")
                .allow_domain("<domain>")
                .scope("<scope>"),
        )
        .webhook_verification("twilio", "asdf")
        .basic_auth("ngrok", "online1line")
        .forwards_to(TEST_FORWARD)
        .app_protocol("http2")
        .policies(&test_policy());
    let tunnel_cfg = builder.options;

    assert_eq!(TEST_FORWARD, tunnel_cfg.forwards_to("unused"));
    assert_eq!(TEST_FORWARD_PROTO, tunnel_cfg.forwards_proto());
    let extra = tunnel_cfg.extra();
    assert_eq!(String::default(), extra.token.0);
    assert_eq!(METADATA, extra.metadata);
    assert_eq!(String::default(), extra.ip_policy_ref);

    assert_eq!("https", tunnel_cfg.proto());

    let opts = tunnel_cfg.opts().unwrap();
    assert!(matches!(opts, BindOpts::Http { .. }));
    if let BindOpts::Http(endpoint) = opts {
        assert_eq!(DOMAIN, endpoint.hostname);
        assert_eq!(String::default(), endpoint.subdomain);
        assert!(matches!(endpoint.proxy_proto, ProxyProto::V2 { .. }));

        let ip_restriction = endpoint.ip_restriction.unwrap();
        assert_eq!(Vec::from([ALLOW_CIDR]), ip_restriction.allow_cidrs);
        assert_eq!(Vec::from([DENY_CIDR]), ip_restriction.deny_cidrs);

        let mutual_tls = endpoint.mutual_tls_ca.unwrap();
        let mut agg = CA_CERT.to_vec();
        agg.extend(CA_CERT2.to_vec());
        assert_eq!(agg, mutual_tls.mutual_tls_ca);

        assert!(endpoint.compression.is_some());
        assert!(endpoint.websocket_tcp_converter.is_some());
        assert_eq!(0.5f64, f64::from_bits(endpoint.circuit_breaker.unwrap().error_threshold_bits));

        let request_headers = endpoint.request_headers.unwrap();
        assert_eq!(["x-req-yup:true"].to_vec(), request_headers.add);
        assert_eq!(["x-req-nope"].to_vec(), request_headers.remove);

        let response_headers = endpoint.response_headers.unwrap();
        assert_eq!(["x-res-yup:true"].to_vec(), response_headers.add);
        assert_eq!(["x-res-nope"].to_vec(), response_headers.remove);

        let webhook = endpoint.webhook_verification.unwrap();
        assert_eq!("twilio", webhook.provider);
        assert_eq!("asdf", webhook.secret.0);
        assert!(webhook.sealed_secret.is_empty());

        let creds = endpoint.basic_auth.unwrap().credentials;
        assert_eq!(1, creds.len());
        assert_eq!("ngrok", creds[0].username);
        assert_eq!("online1line", creds[0].cleartext_password);
        assert!(creds[0].hashed_password.is_empty());

        let oauth = endpoint.oauth.unwrap();
        assert_eq!("google", oauth.provider);
        assert_eq!(["<user>@<domain>"].to_vec(), oauth.allow_emails);
        assert_eq!(["<domain>"].to_vec(), oauth.allow_domains);
        assert_eq!(["<scope>"].to_vec(), oauth.scopes);
        assert_eq!(String::default(), oauth.client_id);
        assert_eq!(String::default(), oauth.client_secret.0);
        assert!(oauth.sealed_client_secret.is_empty());

        let oidc = endpoint.oidc.unwrap();
        assert_eq!("<url>", oidc.issuer_url);
        assert_eq!(["<user>@<domain>"].to_vec(), oidc.allow_emails);
        assert_eq!(["<domain>"].to_vec(), oidc.allow_domains);
        assert_eq!(["<scope>"].to_vec(), oidc.scopes);
        assert_eq!("<id>", oidc.client_id);
        assert_eq!("<secret>", oidc.client_secret.0);
        assert!(oidc.sealed_client_secret.is_empty());

        let user_agent_filter = endpoint.user_agent_filter.unwrap();
        assert_eq!(Vec::from([ALLOW_AGENT]), user_agent_filter.allow);
        assert_eq!(Vec::from([DENY_AGENT]), user_agent_filter.deny);
    }

    assert!(tunnel_cfg.labels().is_empty());
}

#[test]
fn tcp_test_interface_to_proto() {
    let mut builder = TcpTunnelBuilder::new();
    builder
        .allow_cidr(ALLOW_CIDR)
        .deny_cidr(DENY_CIDR)
        .proxy_proto(ProxyProto::V2)
        .metadata(METADATA)
        .remote_addr(REMOTE_ADDR)
        .forwards_to(TEST_FORWARD)
        .policy(&test_policy());
    let tunnel_cfg = builder.options;

    assert_eq!(TEST_FORWARD, tunnel_cfg.forwards_to("unused"));

    let extra = tunnel_cfg.extra();
    assert_eq!(String::default(), extra.token.0);
    assert_eq!(METADATA, extra.metadata);
    assert_eq!(String::default(), extra.ip_policy_ref);

    assert_eq!("tcp", tunnel_cfg.proto());

    let opts = tunnel_cfg.opts().unwrap();
    assert!(matches!(opts, BindOpts::Tcp { .. }));
    if let BindOpts::Tcp(endpoint) = opts {
        assert_eq!(REMOTE_ADDR, endpoint.addr);
        assert!(matches!(endpoint.proxy_proto, ProxyProto::V2 { .. }));

        let ip_restriction = endpoint.ip_restriction.unwrap();
        assert_eq!(Vec::from([ALLOW_CIDR]), ip_restriction.allow_cidrs);
        assert_eq!(Vec::from([DENY_CIDR]), ip_restriction.deny_cidrs);
    }

    assert!(tunnel_cfg.labels().is_empty());
}

#[test]
fn tls_test_interface_to_proto() {
    let tunnel_cfg = TlsTunnelBuilder::new()
        .allow_cidr(ALLOW_CIDR)
        .deny_cidr(DENY_CIDR)
        .proxy_proto(ProxyProto::V2)
        .metadata(METADATA)
        .domain(DOMAIN)
        .mutual_tlsca(CA_CERT.to_vec())
        .mutual_tlsca(CA_CERT2.to_vec())
        .termination(CERT.to_vec(), KEY.to_vec())
        .forwards_to(TEST_FORWARD)
        .options;

    assert_eq!(TEST_FORWARD, tunnel_cfg.forwards_to("unused"));

    let extra = tunnel_cfg.extra();
    assert_eq!(String::default(), extra.token.0);
    assert_eq!(METADATA, extra.metadata);
    assert_eq!(String::default(), extra.ip_policy_ref);

    assert_eq!("tls", tunnel_cfg.proto());

    let opts = tunnel_cfg.opts().unwrap();
    assert!(matches!(opts, BindOpts::Tls { .. }));
    if let BindOpts::Tls(endpoint) = opts {
        assert_eq!(DOMAIN, endpoint.hostname);
        assert_eq!(String::default(), endpoint.subdomain);
        assert!(matches!(endpoint.proxy_proto, ProxyProto::V2 { .. }));
        assert!(!endpoint.mutual_tls_at_agent);

        let ip_restriction = endpoint.ip_restriction.unwrap();
        assert_eq!(Vec::from([ALLOW_CIDR]), ip_restriction.allow_cidrs);
        assert_eq!(Vec::from([DENY_CIDR]), ip_restriction.deny_cidrs);

        let tls_termination = endpoint.tls_termination.unwrap();
        assert_eq!(CERT, tls_termination.cert);
        assert_eq!(KEY, tls_termination.key.0);
        assert!(tls_termination.sealed_key.is_empty());

        let mutual_tls = endpoint.mutual_tls_at_edge.unwrap();
        let mut agg = CA_CERT.to_vec();
        agg.extend(CA_CERT2.to_vec());
        assert_eq!(agg, mutual_tls.mutual_tls_ca);
    }

    assert!(tunnel_cfg.labels().is_empty());
}

#[test]
fn labeled_test_interface_to_proto() {
    let mut builder = LabeledTunnelBuilder::new();
    builder.metadata(METADATA).label(LABEL_KEY, LABEL_VAL);
    let tunnel_cfg = builder.options;

    let default = default_forwards_to("myhost", "/usr/bin/app", 42);
    assert_eq!(default, tunnel_cfg.forwards_to(default.as_str()));

    let extra = tunnel_cfg.extra();
    assert_eq!(String::default(), extra.token.0);
    assert_eq!(METADATA, extra.metadata);
    assert_eq!(String::default(), extra.ip_policy_ref);

    assert_eq!("", tunnel_cfg.proto());

    assert!(tunnel_cfg.opts().is_none());

    let labels = tunnel_cfg.labels();
    assert_eq!(1, labels.len());
    assert_eq!(Some(LABEL_VAL.to_string()), labels.get(&LABEL_KEY.to_string()));
}

#[test]
fn tls_termination_needs_cert_and_key() {
    let cfg = TlsTunnelBuilder::new().domain(DOMAIN).options;
    if let Some(BindOpts::Tls(endpoint)) = cfg.opts() {
        assert!(endpoint.tls_termination.is_none());
        assert!(endpoint.mutual_tls_at_edge.is_none());
        assert!(endpoint.ip_restriction.is_none());
    } else {
        panic!("expected a TLS endpoint");
    }
}

#[test]
fn http_defaults_leave_options_out() {
    let cfg = HttpTunnelBuilder::new().options;
    assert_eq!("https", cfg.proto());
    assert_eq!("fallback", cfg.forwards_to("fallback"));
    assert_eq!("", cfg.forwards_proto());
    assert!(cfg.verify_upstream_tls());
    if let Some(BindOpts::Http(endpoint)) = cfg.opts() {
        assert!(endpoint.circuit_breaker.is_none());
        assert!(endpoint.request_headers.is_none());
        assert!(endpoint.basic_auth.is_none());
        assert!(endpoint.user_agent_filter.is_none());
        assert!(endpoint.ip_restriction.is_none());
        assert!(matches!(endpoint.proxy_proto, ProxyProto::Disabled));
        assert_eq!("", endpoint.hostname);
    } else {
        panic!("expected an HTTP endpoint");
    }
}

#[test]
fn http_scheme_and_negative_zero_breaker() {
    let mut builder = HttpTunnelBuilder::new();
    builder.scheme(Scheme::HTTP).circuit_breaker((-0.0f64).to_bits());
    assert_eq!("http", builder.options.proto());
    if let Some(BindOpts::Http(endpoint)) = builder.options.opts() {
        assert!(endpoint.circuit_breaker.is_none());
    } else {
        panic!("expected an HTTP endpoint");
    }
    assert!(Scheme::from_str("ftp").is_err());
    assert!(matches!(Scheme::from_str("http"), Ok(Scheme::HTTP)));
}

#[test]
fn header_names_are_case_insensitive() {
    let mut builder = HttpTunnelBuilder::new();
    builder.request_header("X-Foo", "one").request_header("x-FOO", "two");
    if let Some(BindOpts::Http(endpoint)) = builder.options.opts() {
        let headers = endpoint.request_headers.unwrap();
        assert_eq!(vec!["x-foo:two".to_string()], headers.add);
        assert!(headers.remove.is_empty());
    } else {
        panic!("expected an HTTP endpoint");
    }
}

#[test]
fn host_header_rewrite_when_forwarding() {
    let url = parse_url("http://example.com:8080/x").unwrap();
    let mut builder = HttpTunnelBuilder::new();
    builder.host_header_rewrite(true).for_forwarding_to(&url);
    assert_eq!("http://example.com:8080/x", builder.options.forwards_to("unused"));
    if let Some(BindOpts::Http(endpoint)) = builder.options.opts() {
        assert_eq!(vec!["host:example.com".to_string()], endpoint.request_headers.unwrap().add);
    } else {
        panic!("expected an HTTP endpoint");
    }

    let mut plain = HttpTunnelBuilder::new();
    plain.for_forwarding_to(&url);
    if let Some(BindOpts::Http(endpoint)) = plain.options.opts() {
        assert!(endpoint.request_headers.is_none());
    } else {
        panic!("expected an HTTP endpoint");
    }
}

#[test]
fn app_protocol_parses_ignoring_case() {
    assert!(matches!(AppProtocol::from_str("HTTP2"), Ok(AppProtocol::HTTP2)));
    assert!(matches!(AppProtocol::from_str("http1"), Ok(AppProtocol::HTTP1)));
    assert!(matches!(AppProtocol::from_str(""), Ok(AppProtocol::Unspecified)));
    assert!(matches!(AppProtocol::from_str("http3"), Err(AppProtocolParseError::Unsupported(_))));
}

#[test]
fn action_config_is_compacted() {
    let action = Action::new("custom-response", Some("{ \"status_code\" : 201 }")).unwrap();
    assert_eq!(Some("{\"status_code\":201}".to_string()), action.config);
    assert!(matches!(Action::new("deny", Some("asdf")), Err(InvalidPolicy::SerializationError(_))));
    let proto = action.to_proto();
    assert_eq!("custom-response", proto.type_);
    assert_eq!(b"{\"status_code\":201}".to_vec(), proto.config);
}

#[test]
fn policy_to_proto_keeps_rules_in_order() {
    let p = test_policy().to_proto();
    assert_eq!(1, p.inbound.len());
    assert_eq!(1, p.outbound.len());
    assert_eq!("test_in", p.inbound[0].name);
    assert_eq!(vec!["req.Method == 'PUT'".to_string()], p.inbound[0].expressions);
    assert_eq!("deny", p.inbound[0].actions[0].type_);
    assert!(p.inbound[0].actions[0].config.is_empty());
    assert_eq!("test_out", p.outbound[0].name);
}

#[test]
fn default_forwards_to_names_the_process() {
    assert_eq!("app://myhost//usr/bin/app?pid=42".to_string(), default_forwards_to("myhost", "/usr/bin/app", 42));
}

#[test]
fn test_builders() {
    let policy2 = Policy::new()
        .add_inbound(
            Rule::new("test_in")
                .add_expression("req.Method == 'PUT'")
                .add_action(Action::new("deny", None).unwrap())
                .clone(),
        )
        .add_outbound(
            Rule::new("test_out")
                .add_expression("res.StatusCode == '200'")
                .add_action(Action::new("custom-response", Some("{\"status_code\":201}")).unwrap())
                .clone(),
        )
        .to_owned();
    // The policy of the original JSON fixture, field by field.
    assert_eq!(1, policy2.inbound.len());
    assert_eq!(1, policy2.outbound.len());
    let inbound = &policy2.inbound[0];
    let outbound = &policy2.outbound[0];
    assert_eq!("test_in", inbound.name);
    assert_eq!(vec!["req.Method == 'PUT'".to_string()], inbound.expressions);
    assert_eq!(1, inbound.actions.len());
    assert_eq!("deny", inbound.actions[0].type_);
    assert_eq!(None, inbound.actions[0].config);
    assert_eq!("test_out", outbound.name);
    assert_eq!(vec!["res.StatusCode == '200'".to_string()], outbound.expressions);
    assert_eq!(1, outbound.actions.len());
    assert_eq!("custom-response", outbound.actions[0].type_);
    assert_eq!(Some("{\"status_code\":201}".to_string()), outbound.actions[0].config);
}

#[test]
fn defaults_match_the_documented_ones() {
    assert_eq!(Scheme::HTTPS, Scheme::default());
    assert_eq!(AppProtocol::Unspecified, AppProtocol::default());
    assert_eq!(ProxyProto::Disabled, ProxyProto::default());
    let p = Policy::default();
    assert!(p.inbound.is_empty() && p.outbound.is_empty());
    let a = Action::default();
    assert!(a.type_.is_empty() && a.config.is_none());
}

#[test]
fn disabled_app_cert_verification_stops_upstream_verification() {
    let mut b = TcpTunnelBuilder::new();
    assert!(!b.options.disable_app_cert_verification());
    assert!(b.options.verify_upstream_tls());
    b.disable_app_cert_verification();
    b.disable_app_cert_verification();
    assert!(b.options.disable_app_cert_verification());
    assert!(!b.options.verify_upstream_tls());
}
