//! SSH tunnels run by the `ssh` program: its command line, the port the
//! tunnel listens on, and the source configuration that goes through it.
use vstd::prelude::*;

use crate::databases::configs::{PGSourceConfig, SourceConfig, TunnelConfig};
use crate::text::{concat_str, decimal_string, decimal_text, owned, push_arg, texts};

verus! {

broadcast use vstd::string::group_string_axioms;

/// A tunnel: its settings, and the local port where it is open.
#[derive(Debug, Clone)]
pub struct Tunnel {
    pub config: TunnelConfig,
    pub local_port: Option<u16>,
}

/// The arguments of `ssh` forwarding `127.0.0.1:<local_port>` to the
/// source's host and port, logged in as the source's user with the tunnel's
/// key.
pub open spec fn ssh_tunnel_args(key_path: Seq<char>, local_port: u16, host: Seq<char>, port: u16, username: Seq<char>) -> Seq<Seq<char>> {
    seq![
        "-i"@,
        key_path,
        "-L"@,
        "127.0.0.1:"@ + decimal_text(local_port as nat) + ":"@ + host + ":"@ + decimal_text(port as nat),
        "-N"@,
        username + "@"@ + host,
        "-o"@,
        "StrictHostKeyChecking=no"@,
        "-o"@,
        "ExitOnForwardFailure=yes"@,
    ]
}

impl Tunnel {
    /// The port the tunnel listens on, where it is open.
    pub closed spec fn port(&self) -> Option<u16> {
        self.local_port
    }

    /// A tunnel that is not open yet.
    pub fn new(config: TunnelConfig) -> (r: Self)
        ensures
            r.config == config,
            r.port() is None,
    {
        Tunnel { config, local_port: None }
    }

    /// The arguments of `ssh` for a tunnel on `local_port` to `source`.
    pub fn ssh_args(&self, local_port: u16, source: &SourceConfig) -> (v: Vec<String>)
        ensures
            match *source {
                SourceConfig::PG(c) => texts(v@) == ssh_tunnel_args(self.config.key_path@, local_port, c.host@, c.port, c.username@),
            },
    {
        let SourceConfig::PG(c) = source;
        let mut v: Vec<String> = Vec::new();
        let lp = decimal_string(local_port as u64);
        let rp = decimal_string(c.port as u64);
        let a = concat_str("127.0.0.1:", lp.as_str());
        let b = concat_str(a.as_str(), ":");
        let d = concat_str(b.as_str(), c.host.as_str());
        let e = concat_str(d.as_str(), ":");
        let forward = concat_str(e.as_str(), rp.as_str());
        let f = concat_str(c.username.as_str(), "@");
        let login = concat_str(f.as_str(), c.host.as_str());
        push_arg(&mut v, "-i");
        push_arg(&mut v, self.config.key_path.as_str());
        push_arg(&mut v, "-L");
        push_arg(&mut v, forward.as_str());
        push_arg(&mut v, "-N");
        push_arg(&mut v, login.as_str());
        push_arg(&mut v, "-o");
        push_arg(&mut v, "StrictHostKeyChecking=no");
        push_arg(&mut v, "-o");
        push_arg(&mut v, "ExitOnForwardFailure=yes");
        proof {
            assert(texts(v@) =~= ssh_tunnel_args(self.config.key_path@, local_port, c.host@, c.port, c.username@));
        }
        v
    }

    /// Records that the tunnel is open on `local_port`.
    pub fn mark_established(&mut self, local_port: u16)
        ensures
            final(self).port() == Some(local_port),
            final(self).config == old(self).config,
    {
        self.local_port = Some(local_port);
    }

    /// Records that the tunnel was closed.
    pub fn mark_closed(&mut self)
        ensures
            final(self).port() is None,
            final(self).config == old(self).config,
    {
        self.local_port = None;
    }

    /// The port the tunnel listens on, where it is open.
    pub fn get_local_port(&self) -> (r: Option<u16>)
        ensures
            r == self.port(),
    {
        self.local_port
    }

    /// The source as reached through the open tunnel: the same, with host
    /// `127.0.0.1` and the tunnel's port; `None` where the tunnel is not open.
    pub fn get_tunneled_config(&self, source_config: &SourceConfig) -> (r: Option<SourceConfig>)
        ensures
            match self.port() {
                None => r is None,
                Some(p) => match *source_config {
                    SourceConfig::PG(c) => r matches Some(SourceConfig::PG(t)) && t.host@ == "127.0.0.1"@ && t.port == p
                        && t.name == c.name && t.database == c.database && t.username == c.username && t.password
                        == c.password && t.tunnel_config == c.tunnel_config,
                },
            },
    {
        match self.local_port {
            None => None,
            Some(p) => {
                let SourceConfig::PG(c) = source_config;
                Some(
                    SourceConfig::PG(
                        PGSourceConfig {
                            name: c.name.clone(),
                            database: c.database.clone(),
                            host: owned("127.0.0.1"),
                            port: p,
                            username: c.username.clone(),
                            password: match &c.password {
                                Some(x) => Some(x.clone()),
                                None => None,
                            },
                            tunnel_config: match &c.tunnel_config {
                                Some(t) => Some(
                                    TunnelConfig { use_tunnel: t.use_tunnel, key_path: t.key_path.clone(), username: t.username.clone() },
                                ),
                                None => None,
                            },
                        },
                    ),
                )
            },
        }
    }
}

} // verus!
