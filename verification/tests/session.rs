use ngrok::agent::{check_proxy_url, connect_failure, not_connected_error, session_settings, AgentBuilder};
use ngrok::proto::{
    AuthResp, AuthRespExtra, BindExtra, BindOpts, BindResp, BindRespExtra, NgrokError, SecretString,
    StartTunnelWithLabelResp, TcpEndpoint,
};
use ngrok::rpc::RpcError;
use ngrok::session::{
    bound_after_label, bound_after_listen, os_name, rebound_id, sanitize_ua_string, server_host_port,
    starts_by_label, unsupported_error, AcceptError, BoundTunnel, ConnectError, EdgeInfo, EndpointInfo,
    SessionBuilder,
};
use ngrok::strmap::StringMap;

fn tunnel(proto: &str) -> BoundTunnel {
    let mut labels = StringMap::new();
    labels.insert("edge".to_string(), "edghts_1".to_string());
    BoundTunnel {
        proto: proto.to_string(),
        opts: Some(BindOpts::Tcp(TcpEndpoint::empty())),
        extra: BindExtra {
            token: SecretString(String::new()),
            ip_policy_ref: String::new(),
            metadata: "meta".to_string(),
            bindings: Vec::new(),
            pooling_enabled: false,
        },
        labels,
        forwards_to: "app://host".to_string(),
    }
}

#[test]
fn test_sanitize_ua() {
    assert_eq!(sanitize_ua_string("library/official/rust"), "library-official-rust");
    assert_eq!(sanitize_ua_string("something@really☺weird"), "something#really#weird");
}

#[test]
fn sanitize_keeps_token_characters() {
    assert_eq!(sanitize_ua_string("a+b,c-d.e_f~g|h`i^j!k#l$m%n&o'p*q"), "a+b,c-d.e_f~g|h`i^j!k#l$m%n&o'p*q");
    assert_eq!(sanitize_ua_string("a b(c)"), "a#b#c#");
}

#[test]
fn user_agent_lists_clients_most_recent_first() {
    let b = SessionBuilder::new("0.1.0").client_info("my app", "1.2/3", Some("linux; x86"));
    assert_eq!("my#app/1.2-3 (linux; x86) ngrok-rust/0.1.0", b.user_agent());
    let b = SessionBuilder::new("0.1.0");
    assert_eq!("ngrok-rust/0.1.0", b.user_agent());
}

#[test]
fn session_defaults() {
    let b = SessionBuilder::new("9.9.9");
    assert_eq!("tunnel.ngrok.com:443", b.server_addr);
    assert_eq!(Ok((10_000_000_000, 15_000_000_000)), b.heartbeat_nanos().map_err(|_| ()));
    assert_eq!("", b.auth_id());
}

#[test]
fn heartbeat_beyond_i64_is_refused() {
    let b = SessionBuilder::new("1").heartbeat_interval(1u128 << 70);
    match b.heartbeat_nanos() {
        Err(ConnectError::InvalidHeartbeatInterval(n)) => assert_eq!(1u128 << 70, n),
        _ => panic!("expected an invalid interval"),
    }
    let b = SessionBuilder::new("1").heartbeat_tolerance(u128::MAX);
    let err = b.heartbeat_nanos().err().unwrap();
    assert!(matches!(err, ConnectError::InvalidHeartbeatTolerance(_)));
    assert_eq!(format!("invalid heartbeat tolerance: {}", u128::MAX), err.to_display_string());
    assert_eq!(None, err.error_code());
    assert_eq!(err.to_display_string(), err.msg());
}

#[test]
fn auth_extra_reports_the_client() {
    let b = SessionBuilder::new("0.1.0")
        .authtoken("tok")
        .metadata("m")
        .heartbeat_interval(5)
        .client_info("app", "2", None);
    let x = b.auth_extra("macos", "aarch64", true, false, true).ok().unwrap();
    assert_eq!("darwin", x.os);
    assert_eq!("aarch64", x.arch);
    assert_eq!("tok", x.auth_token.0);
    assert_eq!("m", x.metadata);
    assert_eq!("2", x.version);
    assert_eq!("app", x.client_type);
    assert_eq!("app/2 ngrok-rust/0.1.0", x.user_agent);
    assert_eq!(5, x.heartbeat_interval);
    assert_eq!(15_000_000_000, x.heartbeat_tolerance);
    assert_eq!(Some(String::new()), x.restart_unsupported_error);
    assert_eq!(
        Some("the agent has not defined a callback for this operation".to_string()),
        x.stop_unsupported_error
    );
    assert_eq!(Some(String::new()), x.update_unsupported_error);
    assert_eq!("", x.cookie.0);
}

#[test]
fn after_auth_keeps_cookie_and_id() {
    let b = SessionBuilder::new("0.1.0");
    let resp = AuthResp {
        version: "2".to_string(),
        client_id: "sess_1".to_string(),
        extra: AuthRespExtra {
            version: None,
            region: None,
            cookie: Some(SecretString("c".to_string())),
            account_name: None,
            session_duration: None,
            plan_name: None,
            banner: None,
        },
    };
    let b = b.after_auth(resp);
    assert_eq!("sess_1", b.auth_id());
    assert_eq!("c", b.cookie.unwrap().0);
}

#[test]
fn os_names() {
    assert_eq!("darwin", os_name("macos"));
    assert_eq!("linux", os_name("linux"));
    assert_eq!(Some(String::new()), unsupported_error(true));
}

#[test]
fn server_addresses() {
    let (h, p) = server_host_port("tunnel.ngrok.com:443").ok().unwrap();
    assert_eq!(("tunnel.ngrok.com".to_string(), 443), (h, p));
    let (h, p) = server_host_port("example.com").ok().unwrap();
    assert_eq!(("example.com".to_string(), 443), (h, p));
    let (h, p) = server_host_port("example.com:+8080:extra").ok().unwrap();
    assert_eq!(("example.com".to_string(), 8080), (h, p));
    let err = server_host_port("example.com:http").err().unwrap();
    assert!(matches!(err, ConnectError::InvalidServerPort(_)));
    assert_eq!("invalid server port", err.to_display_string());
    assert!(server_host_port("example.com:70000").is_err());
    assert!(server_host_port("example.com:").is_err());
}

#[test]
fn connect_errors_and_retries() {
    assert!(!ConnectError::Canceled.is_retryable());
    assert!(ConnectError::InvalidHeartbeatInterval(1).is_retryable());
    assert_eq!("the connect function gave up", ConnectError::Canceled.to_display_string());
    let auth = ConnectError::Auth(RpcError::Response(ngrok::proto::ErrResp::from_message(
        "bad token\nERR_NGROK_105",
    )));
    assert_eq!("authentication failure", auth.to_display_string());
    assert_eq!("bad token", auth.msg());
    assert_eq!(Some("ERR_NGROK_105".to_string()), auth.error_code());
}

#[test]
fn binding_tunnels() {
    assert!(starts_by_label(""));
    assert!(!starts_by_label("tcp"));

    let resp = BindResp {
        client_id: "tun_1".to_string(),
        url: "tcp://1.tcp.ngrok.io:1234".to_string(),
        proto: "tcp".to_string(),
        bind_opts: BindOpts::Tcp(TcpEndpoint::empty()),
        extra: BindRespExtra { token: SecretString("t".to_string()) },
    };
    let (info, bound) = bound_after_listen(tunnel("tcp"), resp);
    assert_eq!("tun_1", info.id);
    assert_eq!("tcp://1.tcp.ngrok.io:1234", EndpointInfo::url(&info));
    assert_eq!("tcp", EndpointInfo::proto(&info));
    assert_eq!("meta", info.metadata);
    assert_eq!("app://host", info.forwards_to);
    assert!(EdgeInfo::labels(&info).is_empty());
    assert_eq!("t", bound.extra.token.0);
    assert_eq!("meta", bound.extra.metadata);

    let (info, bound) = bound_after_label(tunnel(""), StartTunnelWithLabelResp { id: "tun_2".to_string() });
    assert_eq!("tun_2", info.id);
    assert_eq!("", info.url);
    assert_eq!(Some("edghts_1".to_string()), EdgeInfo::labels(&info).get(&"edge".to_string()));
    assert_eq!("", bound.proto);

    assert_eq!("new", rebound_id("old", Some("new")));
    assert_eq!("old", rebound_id("old", Some("")));
    assert_eq!("old", rebound_id("old", None));
}

#[test]
fn accept_error_texts() {
    let e = AcceptError::ListenerClosed { message: "gone".to_string(), error_code: Some("ERR_NGROK_1".to_string()) };
    assert_eq!("listener closed: gone, ERR_NGROK_1", e.to_display_string());
    let e = AcceptError::ListenerClosed { message: "gone".to_string(), error_code: None };
    assert_eq!("listener closed: gone", e.to_display_string());
}

#[test]
fn agent_settings_become_session_settings() {
    let mut b = AgentBuilder::new();
    b.authtoken("tok")
        .connect_url("connect.example.com:443")
        .client_info("first", "1", None)
        .client_info("second", "2", Some("c"))
        .heartbeat_tolerance(7);
    let s = session_settings(&b.config, "0.1.0");
    assert_eq!("tok", s.authtoken.as_ref().unwrap().0);
    assert_eq!("connect.example.com:443", s.server_addr);
    assert_eq!(Some(7), s.heartbeat_tolerance);
    assert_eq!("second/2 (c) first/1 ngrok-rust/0.1.0", s.user_agent());
    assert!(b.config.auto_connect);
}

#[test]
fn agent_errors() {
    match not_connected_error() {
        RpcError::Response(e) => assert_eq!("agent not connected and auto_connect is disabled", e.msg),
        _ => panic!("expected a response error"),
    }
    match connect_failure(&ConnectError::Canceled) {
        RpcError::Response(e) => assert_eq!("failed to connect: the connect function gave up", e.msg),
        _ => panic!("expected a response error"),
    }
    let mut b = AgentBuilder::new();
    b.proxy_url("not a url");
    match check_proxy_url(&b.config) {
        Err(RpcError::Response(e)) => assert!(e.msg.starts_with("invalid proxy URL 'not a url': ")),
        _ => panic!("expected an invalid proxy URL"),
    }
    b.proxy_url("http://proxy.example.com:3128");
    assert!(check_proxy_url(&b.config).is_ok());
}

fn kept_tunnel(proto: &str) -> ngrok::session::BoundTunnel {
    ngrok::session::BoundTunnel {
        proto: proto.to_string(),
        opts: None,
        extra: ngrok::proto::BindExtra::default(),
        labels: StringMap::new(),
        forwards_to: "app://here".to_string(),
    }
}

#[test]
fn reconnect_rebinds_each_tunnel_under_its_key() {
    assert!(matches!(
        ngrok::session::reconnect_allowed(true),
        Err(ngrok::session::ConnectError::Canceled)
    ));
    assert!(ngrok::session::reconnect_allowed(false).is_ok());
    let old = vec![
        ("tn_http".to_string(), kept_tunnel("https")),
        ("tn_label".to_string(), kept_tunnel("")),
        ("tn_label2".to_string(), kept_tunnel("")),
    ];
    let ids = vec![None, Some("tn_new".to_string()), Some(String::new())];
    let r = ngrok::session::rebound_tunnels(old, ids);
    let keys: Vec<&str> = r.iter().map(|(k, _)| k.as_str()).collect();
    assert_eq!(vec!["tn_http", "tn_new", "tn_label2"], keys);
    assert_eq!("https", r[0].1.proto);
    assert_eq!("app://here", r[1].1.forwards_to);
}

#[test]
fn auth_extra_names_the_heartbeat_setting_out_of_range() {
    let b = ngrok::session::SessionBuilder::new("1.0").heartbeat_tolerance(10_000_000_000_000_000_000);
    match b.auth_extra("linux", "x86_64", false, false, false) {
        Err(ngrok::session::ConnectError::InvalidHeartbeatTolerance(n)) => assert_eq!(10_000_000_000_000_000_000, n),
        _ => panic!("expected an invalid heartbeat tolerance"),
    }
    let b = ngrok::session::SessionBuilder::new("1.0").heartbeat_interval(u128::MAX);
    assert!(matches!(
        b.auth_extra("linux", "x86_64", false, false, false),
        Err(ngrok::session::ConnectError::InvalidHeartbeatInterval(n)) if n == u128::MAX
    ));
}
