//! Agents: the configuration an agent connects with, and the session
//! settings and errors it derives from it.

use vstd::prelude::*;

use crate::proto::ErrResp;
use crate::rpc::RpcError;
use crate::session::{connect_error_text, ConnectError, SessionBuilder};
use crate::text::{copy_bytes, opt_view, owned, push_str};
use crate::urls::{parse_url, spec_parse_url};

verus! {

/// The configuration an agent connects with.
#[derive(Clone)]
pub struct AgentConfig {
    pub authtoken: Option<String>,
    pub metadata: Option<String>,
    pub description: Option<String>,
    /// The address of the ngrok service.
    pub server_host: Option<String>,
    /// A CA certificate in PEM format to check the service against.
    pub ca_cert: Option<Vec<u8>>,
    /// A proxy to connect through.
    pub proxy_url: Option<String>,
    /// How often heartbeats are sent, in nanoseconds.
    pub heartbeat_interval: Option<u128>,
    /// How long a heartbeat response may take, in nanoseconds.
    pub heartbeat_tolerance: Option<u128>,
    /// Client types and versions, in the order they were added.
    pub client_info: Vec<(String, String, Option<String>)>,
    /// Whether starting an endpoint connects the agent when it is not
    /// connected.
    pub auto_connect: bool,
}

/// Whether an agent configuration holds the defaults: nothing set, and
/// connecting automatically.
pub open spec fn is_default_agent_config(c: AgentConfig) -> bool {
    &&& c.authtoken is None
    &&& c.metadata is None
    &&& c.description is None
    &&& c.server_host is None
    &&& c.ca_cert is None
    &&& c.proxy_url is None
    &&& c.heartbeat_interval is None
    &&& c.heartbeat_tolerance is None
    &&& c.client_info@.len() == 0
    &&& c.auto_connect
}

impl Default for AgentConfig {
    fn default() -> (r: AgentConfig)
        ensures
            is_default_agent_config(r),
    {
        AgentConfig {
            authtoken: None,
            metadata: None,
            description: None,
            server_host: None,
            ca_cert: None,
            proxy_url: None,
            heartbeat_interval: None,
            heartbeat_tolerance: None,
            client_info: Vec::new(),
            auto_connect: true,
        }
    }
}

/// A builder for an agent's configuration.
pub struct AgentBuilder {
    pub config: AgentConfig,
}

impl AgentBuilder {
    /// A builder holding the default configuration.
    pub fn new() -> (r: AgentBuilder)
        ensures
            is_default_agent_config(r.config),
    {
        AgentBuilder { config: AgentConfig::default() }
    }

    /// Sets the authtoken.
    pub fn authtoken(&mut self, token: &str) -> (r: &mut Self)
        ensures
            opt_view(r.config.authtoken) == Some(token@),
            r.config == (AgentConfig { authtoken: r.config.authtoken, ..old(self).config }),
            *final(self) == *final(r),
    {
        self.config.authtoken = Some(owned(token));
        self
    }

    /// Sets the authtoken, or clears it with `None` (as when the environment
    /// holds none).
    pub fn authtoken_opt(&mut self, token: Option<String>) -> (r: &mut Self)
        ensures
            r.config == (AgentConfig { authtoken: token, ..old(self).config }),
            *final(self) == *final(r),
    {
        self.config.authtoken = token;
        self
    }

    /// Sets the address of the ngrok service.
    pub fn connect_url(&mut self, url: &str) -> (r: &mut Self)
        ensures
            opt_view(r.config.server_host) == Some(url@),
            r.config == (AgentConfig { server_host: r.config.server_host, ..old(self).config }),
            *final(self) == *final(r),
    {
        self.config.server_host = Some(owned(url));
        self
    }

    /// Sets the CA certificate in PEM format to check the service against.
    pub fn connect_cas(&mut self, bytes: Vec<u8>) -> (r: &mut Self)
        ensures
            r.config == (AgentConfig { ca_cert: Some(bytes), ..old(self).config }),
            *final(self) == *final(r),
    {
        self.config.ca_cert = Some(bytes);
        self
    }

    /// Sets the agent's metadata.
    pub fn metadata(&mut self, meta: &str) -> (r: &mut Self)
        ensures
            opt_view(r.config.metadata) == Some(meta@),
            r.config == (AgentConfig { metadata: r.config.metadata, ..old(self).config }),
            *final(self) == *final(r),
    {
        self.config.metadata = Some(owned(meta));
        self
    }

    /// Sets the agent's description.
    pub fn description(&mut self, desc: &str) -> (r: &mut Self)
        ensures
            opt_view(r.config.description) == Some(desc@),
            r.config == (AgentConfig { description: r.config.description, ..old(self).config }),
            *final(self) == *final(r),
    {
        self.config.description = Some(owned(desc));
        self
    }

    /// Sets a proxy to connect through.
    pub fn proxy_url(&mut self, url: &str) -> (r: &mut Self)
        ensures
            opt_view(r.config.proxy_url) == Some(url@),
            r.config == (AgentConfig { proxy_url: r.config.proxy_url, ..old(self).config }),
            *final(self) == *final(r),
    {
        self.config.proxy_url = Some(owned(url));
        self
    }

    /// Sets how often heartbeats are sent, in nanoseconds.
    pub fn heartbeat_interval(&mut self, nanos: u128) -> (r: &mut Self)
        ensures
            r.config == (AgentConfig { heartbeat_interval: Some(nanos), ..old(self).config }),
            *final(self) == *final(r),
    {
        self.config.heartbeat_interval = Some(nanos);
        self
    }

    /// Sets how long a heartbeat response may take, in nanoseconds.
    pub fn heartbeat_tolerance(&mut self, nanos: u128) -> (r: &mut Self)
        ensures
            r.config == (AgentConfig { heartbeat_tolerance: Some(nanos), ..old(self).config }),
            *final(self) == *final(r),
    {
        self.config.heartbeat_tolerance = Some(nanos);
        self
    }

    /// Adds a client type and version, with optional comments.
    pub fn client_info(&mut self, client_type: &str, version: &str, comments: Option<&str>) -> (r: &mut Self)
        ensures
            r.config.client_info@.len() == old(self).config.client_info@.len() + 1,
            r.config.client_info@.drop_last() == old(self).config.client_info@,
            r.config.client_info@.last().0@ == client_type@,
            r.config.client_info@.last().1@ == version@,
            opt_view(r.config.client_info@.last().2) == match comments {
                Some(c) => Some(c@),
                None => None,
            },
            r.config == (AgentConfig { client_info: r.config.client_info, ..old(self).config }),
            *final(self) == *final(r),
    {
        let comments = match comments {
            Some(c) => Some(owned(c)),
            None => None,
        };
        let ghost before = self.config.client_info@;
        self.config.client_info.push((owned(client_type), owned(version), comments));
        assert(self.config.client_info@.drop_last() =~= before);
        self
    }

    /// Sets whether starting an endpoint connects the agent.
    pub fn auto_connect(&mut self, auto: bool) -> (r: &mut Self)
        ensures
            r.config == (AgentConfig { auto_connect: auto, ..old(self).config }),
            *final(self) == *final(r),
    {
        self.config.auto_connect = auto;
        self
    }
}

/// An RPC error carrying a message of the agent's own, with no code.
pub fn agent_error(msg: String) -> (r: RpcError)
    ensures
        r matches RpcError::Response(e) && e.msg == msg && e.error_code is None,
{
    RpcError::Response(ErrResp { msg, error_code: None })
}

/// The error for an agent that is not connected and may not connect by
/// itself.
pub fn not_connected_error() -> (r: RpcError)
    ensures
        r matches RpcError::Response(e) && e.msg@ == "agent not connected and auto_connect is disabled"@
            && e.error_code is None,
{
    agent_error(owned("agent not connected and auto_connect is disabled"))
}

/// The error for a failed connect.
pub fn connect_failure(e: &ConnectError) -> (r: RpcError)
    ensures
        r matches RpcError::Response(x) && x.msg@ == "failed to connect: "@ + connect_error_text(*e)
            && x.error_code is None,
{
    let mut m = owned("failed to connect: ");
    let shown = e.to_display_string();
    push_str(&mut m, shown.as_str());
    agent_error(m)
}

/// Checks the proxy URL of a configuration: none, or one that parses; the
/// error names the URL and the parse error.
pub fn check_proxy_url(config: &AgentConfig) -> (r: Result<(), RpcError>)
    ensures
        match config.proxy_url {
            None => r is Ok,
            Some(p) => match spec_parse_url(p@) {
                Ok(_) => r is Ok,
                Err(e) => r matches Err(RpcError::Response(x)) && x.msg@ == "invalid proxy URL '"@ + p@
                    + "': "@ + e && x.error_code is None,
            },
        },
{
    match &config.proxy_url {
        None => Ok(()),
        Some(p) => match parse_url(p.as_str()) {
            Ok(_) => Ok(()),
            Err(e) => {
                let mut m = owned("invalid proxy URL '");
                push_str(&mut m, p.as_str());
                push_str(&mut m, "': ");
                push_str(&mut m, e.as_str());
                Err(agent_error(m))
            },
        },
    }
}

/// The session settings an agent configuration gives, on top of the
/// defaults for this library version: the authtoken, metadata, service
/// address, CA certificate and heartbeat settings that are set, and the
/// client information, each added in front of those before it.
pub fn session_settings(config: &AgentConfig, version: &str) -> (r: SessionBuilder)
    ensures
        match config.authtoken {
            Some(t) => r.authtoken matches Some(s) && s.0@ == t@,
            None => r.authtoken is None,
        },
        opt_view(r.metadata) == opt_view(config.metadata),
        r.server_addr@ == match config.server_host {
            Some(h) => h@,
            None => "tunnel.ngrok.com:443"@,
        },
        match config.ca_cert {
            Some(c) => r.ca_cert matches Some(x) && x@ == c@,
            None => r.ca_cert is None,
        },
        r.heartbeat_interval == config.heartbeat_interval,
        r.heartbeat_tolerance == config.heartbeat_tolerance,
        r.versions@.len() == config.client_info@.len() + 1,
        r.versions@.last().0@ == "ngrok-rust"@,
        r.versions@.last().1@ == version@,
        forall|i: int|
            0 <= i < config.client_info@.len() ==> {
                let c = #[trigger] config.client_info@[config.client_info@.len() - 1 - i];
                let v = r.versions@[i];
                v.0@ == c.0@ && v.1@ == c.1@ && opt_view(v.2) == opt_view(c.2)
            },
        r.cookie is None,
        r.id is None,
{
    let mut b = SessionBuilder::new(version);
    match &config.authtoken {
        Some(t) => {
            b = b.authtoken(t.as_str());
        },
        None => {},
    }
    match &config.metadata {
        Some(m) => {
            b = b.metadata(m.as_str());
        },
        None => {},
    }
    match &config.server_host {
        Some(h) => {
            b = b.server_addr(h.as_str());
        },
        None => {},
    }
    match &config.ca_cert {
        Some(c) => {
            b = b.ca_cert(copy_bytes(c));
        },
        None => {},
    }
    match config.heartbeat_interval {
        Some(n) => {
            b = b.heartbeat_interval(n);
        },
        None => {},
    }
    match config.heartbeat_tolerance {
        Some(n) => {
            b = b.heartbeat_tolerance(n);
        },
        None => {},
    }
    let n = config.client_info.len();
    let mut i: usize = 0;
    while i < n
        invariant
            n == config.client_info@.len(),
            i <= n,
            b.versions@.len() == i + 1,
            b.versions@.last().0@ == "ngrok-rust"@,
            b.versions@.last().1@ == version@,
            forall|k: int|
                0 <= k < i ==> {
                    let c = #[trigger] config.client_info@[i - 1 - k];
                    let v = b.versions@[k];
                    v.0@ == c.0@ && v.1@ == c.1@ && opt_view(v.2) == opt_view(c.2)
                },
            match config.authtoken {
                Some(t) => b.authtoken matches Some(s) && s.0@ == t@,
                None => b.authtoken is None,
            },
            opt_view(b.metadata) == opt_view(config.metadata),
            b.server_addr@ == match config.server_host {
                Some(h) => h@,
                None => "tunnel.ngrok.com:443"@,
            },
            match config.ca_cert {
                Some(c) => b.ca_cert matches Some(x) && x@ == c@,
                None => b.ca_cert is None,
            },
            b.heartbeat_interval == config.heartbeat_interval,
            b.heartbeat_tolerance == config.heartbeat_tolerance,
            b.cookie is None,
            b.id is None,
        decreases n - i,
    {
        let entry = &config.client_info[i];
        let comments = match &entry.2 {
            Some(c) => Some(c.as_str()),
            None => None,
        };
        let ghost old_versions = b.versions@;
        b = b.client_info(entry.0.as_str(), entry.1.as_str(), comments);
        proof {
            assert forall|k: int| 0 <= k < i + 1 implies {
                let c = #[trigger] config.client_info@[i + 1 - 1 - k];
                let v = b.versions@[k];
                v.0@ == c.0@ && v.1@ == c.1@ && opt_view(v.2) == opt_view(c.2)
            } by {
                if k > 0 {
                    assert(b.versions@[k] == old_versions[k - 1]);
                    assert(config.client_info@[i + 1 - 1 - k] == config.client_info@[i - 1 - (k - 1)]);
                }
            };
            assert(b.versions@.last() == old_versions.last());
        }
        i = i + 1;
    }
    b
}

} // verus!
