//! What the server starts for a configuration.
//!
//! gRPC modes share one TCP port; UDP runs on the same port number. The
//! sockets, the gRPC runtime and TLS files are handled by the application;
//! this module decides which services run and with which options.

use vstd::prelude::*;
use vstd::string::StringExecFns;

use crate::dialout::gnmi::GnmiConfig;
use crate::dialout::gpb_v3::V3Config;
use crate::dialout::normal::DialoutConfig;
use crate::dialout::udp::UdpConfig;
use crate::error::AppError;
use crate::models::{grpc_modes_of, DialoutMode, ServerConfig};
use crate::text::{decimal, push_decimal, push_text};

verus! {

/// Main server that manages all dialout modes.
#[derive(Debug, Clone)]
pub struct Server {
    pub config: ServerConfig,
}

/// The services that a start brings up.
#[derive(Debug, Clone)]
pub struct StartPlan {
    /// The modes named in the start message (the 2-layer mode when none is
    /// configured).
    pub modes: Vec<DialoutMode>,
    /// Serve the gRPC 2-layer service.
    pub serve_normal: bool,
    /// Serve the gRPC 3-layer service (and load the proto registry for it).
    pub serve_gpb: bool,
    /// Serve the gNMI service.
    pub serve_gnmi: bool,
    /// Options of the 2-layer service.
    pub dialout_config: DialoutConfig,
    /// Options of the gNMI service.
    pub gnmi_config: GnmiConfig,
    /// Options of the 3-layer service.
    pub v3_config: V3Config,
    /// The UDP listener's options, when UDP is configured.
    pub udp_config: Option<UdpConfig>,
}

/// The modes that a start announces.
pub open spec fn announced_modes(c: ServerConfig) -> Seq<DialoutMode> {
    if c.modes@.len() == 0 {
        seq![DialoutMode::Normal]
    } else {
        c.modes@
    }
}

/// The plan for a configuration: each gRPC service runs when its mode is
/// configured, UDP runs when configured, and all share the output options.
pub open spec fn plan_matches(c: ServerConfig, p: StartPlan) -> bool {
    &&& p.modes@ == announced_modes(c)
    &&& p.serve_normal == c.modes@.contains(DialoutMode::Normal)
    &&& p.serve_gpb == c.modes@.contains(DialoutMode::Gpb)
    &&& p.serve_gnmi == c.modes@.contains(DialoutMode::Gnmi)
    &&& p.dialout_config == DialoutConfig {
        orignal: c.orignal,
        format_json: c.format_json,
        including_default: c.including_default,
        performance_mode: c.performance_mode,
    }
    &&& p.gnmi_config == GnmiConfig {
        orignal: c.orignal,
        format_json: c.format_json,
        including_default: c.including_default,
        performance_mode: c.performance_mode,
    }
    &&& p.v3_config == V3Config {
        orignal: c.orignal,
        format_json: c.format_json,
        including_default: c.including_default,
        performance_mode: c.performance_mode,
    }
    &&& p.udp_config == (if c.modes@.contains(DialoutMode::Udp) {
        Some(
            UdpConfig {
                port: c.port,
                orignal: c.orignal,
                format_json: c.format_json,
                including_default: c.including_default,
                performance_mode: c.performance_mode,
            },
        )
    } else {
        None
    })
}

/// Whether `m` is in `v`.
fn contains_mode(v: &Vec<DialoutMode>, m: DialoutMode) -> (b: bool)
    ensures
        b == v@.contains(m),
{
    let n = v.len();
    let mut i: usize = 0;
    while i < n
        invariant
            n == v@.len(),
            0 <= i <= n,
            forall|j: int| 0 <= j < i ==> v@[j] != m,
        decreases n - i,
    {
        if v[i] == m {
            return true;
        }
        i = i + 1;
    }
    false
}

/// A gRPC mode is among the gRPC modes of a list exactly when it is in the
/// list.
proof fn lemma_grpc_modes_contains(modes: Seq<DialoutMode>, m: DialoutMode)
    requires
        m != DialoutMode::Udp,
    ensures
        grpc_modes_of(modes).contains(m) == modes.contains(m),
{
    broadcast use vstd::seq_lib::group_filter_ensures;
    let g = grpc_modes_of(modes);
    if modes.contains(m) {
        let i = choose|i: int| 0 <= i < modes.len() && modes[i] == m;
        assert(g.contains(modes[i]));
    }
    if g.contains(m) {
        modes.lemma_filter_contains_rev(|x: DialoutMode| x != DialoutMode::Udp, m);
    }
}

impl Server {
    /// Create a new Server with the given configuration.
    pub fn new(config: ServerConfig) -> (s: Self)
        ensures
            s.config == config,
    {
        Server { config }
    }

    /// Decide the services of a start. It fails, with a configuration error,
    /// exactly when no mode is configured.
    pub fn plan_start(&self) -> (r: Result<StartPlan, AppError>)
        ensures
            self.config.modes@.len() == 0 ==> (r matches Err(AppError::Config(msg)) && msg@
                == "No dialout modes configured"@),
            self.config.modes@.len() != 0 ==> r is Ok && plan_matches(self.config, r->Ok_0),
    {
        let c = &self.config;
        let modes: Vec<DialoutMode> = if c.modes.len() == 0 {
            vec![DialoutMode::Normal]
        } else {
            c.modes.clone()
        };
        let grpc_modes = c.grpc_modes();
        let has_udp = c.has_udp();
        proof {
            lemma_grpc_modes_contains(c.modes@, DialoutMode::Normal);
            lemma_grpc_modes_contains(c.modes@, DialoutMode::Gpb);
            lemma_grpc_modes_contains(c.modes@, DialoutMode::Gnmi);
            if c.modes@.len() != 0 {
                let m = c.modes@[0];
                assert(c.modes@.contains(m));
                if m != DialoutMode::Udp {
                    lemma_grpc_modes_contains(c.modes@, m);
                }
            }
        }
        if grpc_modes.len() == 0 && !has_udp {
            return Err(AppError::Config(String::from_str("No dialout modes configured")));
        }
        let udp_config = if has_udp {
            Some(
                UdpConfig {
                    port: c.port,
                    orignal: c.orignal,
                    format_json: c.format_json,
                    including_default: c.including_default,
                    performance_mode: c.performance_mode,
                },
            )
        } else {
            None
        };
        Ok(
            StartPlan {
                modes,
                serve_normal: contains_mode(&grpc_modes, DialoutMode::Normal),
                serve_gpb: contains_mode(&grpc_modes, DialoutMode::Gpb),
                serve_gnmi: contains_mode(&grpc_modes, DialoutMode::Gnmi),
                dialout_config: DialoutConfig {
                    orignal: c.orignal,
                    format_json: c.format_json,
                    including_default: c.including_default,
                    performance_mode: c.performance_mode,
                },
                gnmi_config: GnmiConfig {
                    orignal: c.orignal,
                    format_json: c.format_json,
                    including_default: c.including_default,
                    performance_mode: c.performance_mode,
                },
                v3_config: V3Config {
                    orignal: c.orignal,
                    format_json: c.format_json,
                    including_default: c.including_default,
                    performance_mode: c.performance_mode,
                },
                udp_config,
            },
        )
    }
}


/// The message for a port that is taken on IPv4.
pub open spec fn port_in_use_text(port: u16) -> Seq<char> {
    "端口 "@ + decimal(port as nat) + " 已被占用，请更换其他端口后重试 (Port "@ + decimal(port as nat)
        + " is already in use)"@
}

/// The message for a port that is taken on IPv6.
pub open spec fn port_in_use_v6_text(port: u16) -> Seq<char> {
    "端口 "@ + decimal(port as nat) + " 已被占用 (IPv6)，请更换其他端口后重试 (Port "@ + decimal(
        port as nat,
    ) + " is already in use on IPv6)"@
}

/// The verdict on a port from three probes: whether it could be bound on
/// IPv4, whether it could be bound on IPv6, and whether IPv6 works at all.
/// A port taken on IPv4 is refused; one taken on IPv6 is refused only where
/// IPv6 works.
pub fn port_verdict(port: u16, v4_free: bool, v6_free: bool, ipv6_works: bool) -> (r: Result<
    (),
    String,
>)
    ensures
        !v4_free ==> (r matches Err(m) && m@ == port_in_use_text(port)),
        v4_free && !v6_free && ipv6_works ==> (r matches Err(m) && m@ == port_in_use_v6_text(port)),
        v4_free && (v6_free || !ipv6_works) ==> r is Ok,
{
    if !v4_free {
        let mut m = String::from_str("端口 ");
        push_decimal(&mut m, port as u64);
        push_text(&mut m, " 已被占用，请更换其他端口后重试 (Port ");
        push_decimal(&mut m, port as u64);
        push_text(&mut m, " is already in use)");
        return Err(m);
    }
    if v6_free || !ipv6_works {
        return Ok(());
    }
    let mut m = String::from_str("端口 ");
    push_decimal(&mut m, port as u64);
    push_text(&mut m, " 已被占用 (IPv6)，请更换其他端口后重试 (Port ");
    push_decimal(&mut m, port as u64);
    push_text(&mut m, " is already in use on IPv6)");
    Err(m)
}

/// The TLS directory to use among candidates, given whether each holds the
/// certificate chain: the first that does.
pub fn tls_dir_choice(has_cert_chain: &Vec<bool>) -> (r: Option<usize>)
    ensures
        match r {
            Some(i) => i < has_cert_chain@.len() && has_cert_chain@[i as int] && forall|j: int|
                0 <= j < i ==> !has_cert_chain@[j],
            None => forall|j: int| 0 <= j < has_cert_chain@.len() ==> !has_cert_chain@[j],
        },
{
    let n = has_cert_chain.len();
    let mut i: usize = 0;
    while i < n
        invariant
            n == has_cert_chain@.len(),
            0 <= i <= n,
            forall|j: int| 0 <= j < i ==> !has_cert_chain@[j],
        decreases n - i,
    {
        if has_cert_chain[i] {
            return Some(i);
        }
        i = i + 1;
    }
    None
}


/// A start keeps the configuration's output options: the 2-layer, gNMI,
/// 3-layer and UDP services all run with the configuration's original,
/// format, default-value and performance options; each gRPC service runs
/// exactly when its mode is configured, and UDP runs, on the configured
/// port, exactly when its mode is configured.
pub proof fn law_plan_keeps_output_options(c: ServerConfig, p: StartPlan)
    requires
        plan_matches(c, p),
    ensures
        p.dialout_config.orignal == c.orignal,
        p.dialout_config.format_json == c.format_json,
        p.dialout_config.including_default == c.including_default,
        p.dialout_config.performance_mode == c.performance_mode,
        p.gnmi_config.orignal == c.orignal,
        p.gnmi_config.format_json == c.format_json,
        p.gnmi_config.including_default == c.including_default,
        p.gnmi_config.performance_mode == c.performance_mode,
        p.v3_config.orignal == c.orignal,
        p.v3_config.format_json == c.format_json,
        p.v3_config.including_default == c.including_default,
        p.v3_config.performance_mode == c.performance_mode,
        p.serve_normal <==> c.modes@.contains(DialoutMode::Normal),
        p.serve_gpb <==> c.modes@.contains(DialoutMode::Gpb),
        p.serve_gnmi <==> c.modes@.contains(DialoutMode::Gnmi),
        p.udp_config is Some <==> c.modes@.contains(DialoutMode::Udp),
        p.udp_config matches Some(u) ==> {
            &&& u.port == c.port
            &&& u.orignal == c.orignal
            &&& u.format_json == c.format_json
            &&& u.including_default == c.including_default
            &&& u.performance_mode == c.performance_mode
        },
{
}

} // verus!
