//! Plain data types shared by the collector's modes.

use vstd::prelude::*;
use vstd::string::StringExecFns;

use std::borrow::Cow;

use crate::text::{str_eq, string_clear, string_with_capacity};

verus! {

/// UDP header option (fragmentation info).
#[derive(Debug, Clone, Copy, PartialEq, Eq)]
pub struct UdpHeaderOption {
    pub option_type: u8,
    pub length: u8,
    pub segment_number: u16,
    pub last: bool,
}

/// Parsed UDP header (standard format).
#[derive(Debug, Clone, Copy, PartialEq, Eq)]
pub struct UDPHeader {
    pub version: u16,
    pub header_length: u16,
    pub et: u16,
    pub message_length: u16,
    pub message_generator_id: u32,
    pub message_id: u32,
    pub option: Option<UdpHeaderOption>,
}

/// Parsed UDP header (mobile/standard format with S bit).
#[derive(Debug, Clone, Copy, PartialEq, Eq)]
pub struct UDPHeaderMobile {
    pub version: u16,
    pub standard: u16,
    pub header_length: u16,
    pub et: u16,
    pub message_length: u16,
    pub message_domain_id: u32,
    pub message_id: u32,
    pub option: Option<UdpHeaderOption>,
}


/// The collector's message and client counters.
///
/// Like the atomic counters they model, they wrap around on overflow.
#[derive(Debug, Clone, Copy, PartialEq, Eq)]
pub struct GlobalStats {
    pub msg_count: u64,
    pub client_count: u64,
}

/// `n + 1`, wrapping around at `u64::MAX`.
pub open spec fn wrapping_succ(n: u64) -> u64 {
    if n == u64::MAX {
        0
    } else {
        (n + 1) as u64
    }
}

impl GlobalStats {
    /// Both counters at zero.
    pub fn new() -> (s: Self)
        ensures
            s.msg_count == 0,
            s.client_count == 0,
    {
        GlobalStats { msg_count: 0, client_count: 0 }
    }
}

/// Count one more message (each dialout mode calls this once per message).
pub fn incr_msg_count(stats: &mut GlobalStats)
    ensures
        final(stats).msg_count == wrapping_succ(old(stats).msg_count),
        final(stats).client_count == old(stats).client_count,
{
    stats.msg_count = stats.msg_count.wrapping_add(1);
}

/// Count one more client connection.
pub fn incr_client_count(stats: &mut GlobalStats)
    ensures
        final(stats).client_count == wrapping_succ(old(stats).client_count),
        final(stats).msg_count == old(stats).msg_count,
{
    stats.client_count = stats.client_count.wrapping_add(1);
}

/// The current message count.
pub fn get_global_msg_count(stats: &GlobalStats) -> (n: u64)
    ensures
        n == stats.msg_count,
{
    stats.msg_count
}

/// The current client count.
pub fn get_global_client_count(stats: &GlobalStats) -> (n: u64)
    ensures
        n == stats.client_count,
{
    stats.client_count
}

/// Reset both counters (done when a server starts).
pub fn reset_global_stats(stats: &mut GlobalStats)
    ensures
        final(stats).msg_count == 0,
        final(stats).client_count == 0,
{
    stats.msg_count = 0;
    stats.client_count = 0;
}

/// gRPC dialout mode enumeration.
#[derive(Debug, Clone, Copy, PartialEq, Eq, Hash, Structural)]
pub enum DialoutMode {
    /// gRPC 2-layer dial-out
    Normal,
    /// gRPC 3-layer dial-out (GPB)
    Gpb,
    /// gRPC gNMI dial-out
    Gnmi,
    /// UDP 2-layer dial-out
    Udp,
}

/// The human-readable name of a mode.
pub open spec fn mode_name(m: DialoutMode) -> Seq<char> {
    match m {
        DialoutMode::Normal => "gRPC 2-layer dial-out"@,
        DialoutMode::Gpb => "gRPC 3-layer dial-out"@,
        DialoutMode::Gnmi => "gRPC gNMI dialout"@,
        DialoutMode::Udp => "UDP 2-layer dialout"@,
    }
}

/// The mode that a lower-case mode key names.
pub open spec fn mode_from_key(s: Seq<char>) -> Option<DialoutMode> {
    if s == "normal"@ {
        Some(DialoutMode::Normal)
    } else if s == "gpb"@ {
        Some(DialoutMode::Gpb)
    } else if s == "gnmi"@ {
        Some(DialoutMode::Gnmi)
    } else if s == "udp"@ {
        Some(DialoutMode::Udp)
    } else {
        None
    }
}

impl DialoutMode {
    /// Returns a human-readable mode name.
    pub fn as_str(&self) -> (s: &'static str)
        ensures
            s@ == mode_name(*self),
    {
        match self {
            DialoutMode::Normal => "gRPC 2-layer dial-out",
            DialoutMode::Gpb => "gRPC 3-layer dial-out",
            DialoutMode::Gnmi => "gRPC gNMI dialout",
            DialoutMode::Udp => "UDP 2-layer dialout",
        }
    }

    /// The mode named by a key (`normal`, `gpb`, `gnmi` or `udp`); `None` for
    /// any other text.
    pub fn from_str_lossy(s: &str) -> (m: Option<DialoutMode>)
        ensures
            m == mode_from_key(s@),
    {
        if str_eq(s, "normal") {
            Some(DialoutMode::Normal)
        } else if str_eq(s, "gpb") {
            Some(DialoutMode::Gpb)
        } else if str_eq(s, "gnmi") {
            Some(DialoutMode::Gnmi)
        } else if str_eq(s, "udp") {
            Some(DialoutMode::Udp)
        } else {
            None
        }
    }
}

/// Server configuration.
#[derive(Debug, Clone)]
pub struct ServerConfig {
    /// The dial-out modes to run together (none means the 2-layer mode).
    pub modes: Vec<DialoutMode>,
    pub port: u16,
    pub tls: bool,
    /// Output original data without parsing
    pub orignal: bool,
    /// Format JSON output with indentation
    pub format_json: bool,
    /// Include default value fields in output
    pub including_default: bool,
    /// Performance mode: only count messages
    pub performance_mode: bool,
    /// gRPC debug verbosity level
    pub debug: String,
    /// gRPC trace types
    pub trace: Option<String>,
    /// Output to log file
    pub log_output: bool,
    /// Log file max count
    pub logfile_num: usize,
    /// Log file max size in MB
    pub logfile_size: usize,
    /// Only output to log file (suppress UI)
    pub only_log_file: bool,
}

/// The modes of `modes` that are served over gRPC, in order.
pub open spec fn grpc_modes_of(modes: Seq<DialoutMode>) -> Seq<DialoutMode> {
    modes.filter(|m: DialoutMode| m != DialoutMode::Udp)
}

impl Default for ServerConfig {
    fn default() -> (c: Self)
        ensures
            c.modes@ == seq![DialoutMode::Normal],
            c.port == 50051,
            !c.tls,
            !c.orignal,
            c.format_json,
            c.including_default,
            !c.performance_mode,
            c.debug@ == "error"@,
            c.trace is None,
            !c.log_output,
            c.logfile_num == 50,
            c.logfile_size == 50,
            !c.only_log_file,
    {
        ServerConfig {
            modes: vec![DialoutMode::Normal],
            port: 50051,
            tls: false,
            orignal: false,
            format_json: true,
            including_default: true,
            performance_mode: false,
            debug: String::from_str("error"),
            trace: None,
            log_output: false,
            logfile_num: 50,
            logfile_size: 50,
            only_log_file: false,
        }
    }
}

impl ServerConfig {
    /// The configured modes served over gRPC (all but UDP), in order.
    pub fn grpc_modes(&self) -> (g: Vec<DialoutMode>)
        ensures
            g@ == grpc_modes_of(self.modes@),
    {
        let mut g: Vec<DialoutMode> = Vec::new();
        let n = self.modes.len();
        let mut i: usize = 0;
        while i < n
            invariant
                n == self.modes@.len(),
                0 <= i <= n,
                g@ == grpc_modes_of(self.modes@.take(i as int)),
            decreases n - i,
        {
            let m = self.modes[i];
            proof {
                let t = self.modes@.take(i + 1);
                assert(t.drop_last() =~= self.modes@.take(i as int));
                reveal_with_fuel(Seq::<_>::filter, 1);
            }
            if m != DialoutMode::Udp {
                g.push(m);
            }
            i = i + 1;
        }
        assert(self.modes@.take(n as int) =~= self.modes@);
        g
    }

    /// Whether UDP is among the configured modes.
    pub fn has_udp(&self) -> (b: bool)
        ensures
            b == self.modes@.contains(DialoutMode::Udp),
    {
        let n = self.modes.len();
        let mut i: usize = 0;
        while i < n
            invariant
                n == self.modes@.len(),
                0 <= i <= n,
                forall|j: int| 0 <= j < i ==> self.modes@[j] != DialoutMode::Udp,
            decreases n - i,
        {
            if self.modes[i] == DialoutMode::Udp {
                return true;
            }
            i = i + 1;
        }
        false
    }
}

/// Pre-allocated message buffer for building formatted output.
#[derive(Debug, Clone)]
pub struct MessageBuffer {
    inner: String,
}

impl View for MessageBuffer {
    type V = Seq<char>;

    closed spec fn view(&self) -> Seq<char> {
        self.inner@
    }
}

impl MessageBuffer {
    /// An empty buffer with room for `capacity` bytes.
    pub fn with_capacity(capacity: usize) -> (b: Self)
        requires
            capacity <= isize::MAX,
        ensures
            b@ == Seq::<char>::empty(),
    {
        MessageBuffer { inner: string_with_capacity(capacity) }
    }

    /// Empties the buffer.
    pub fn clear(&mut self)
        ensures
            final(self)@ == Seq::<char>::empty(),
    {
        string_clear(&mut self.inner);
    }

    /// Appends `s`.
    pub fn push_str(&mut self, s: &str)
        ensures
            final(self)@ == old(self)@ + s@,
    {
        self.inner.append(s);
    }

    /// Appends a borrowed or owned string.
    pub fn push_cow(&mut self, s: Cow<'_, str>)
        ensures
            final(self)@ == old(self)@ + s@,
    {
        match s {
            Cow::Borrowed(b) => self.inner.append(b),
            Cow::Owned(o) => self.inner.append(o.as_str()),
        }
    }

    /// The text built so far.
    pub fn into_string(self) -> (s: String)
        ensures
            s@ == self@,
    {
        self.inner
    }

    /// The text built so far.
    pub fn as_str(&self) -> (s: &str)
        ensures
            s@ == self@,
    {
        self.inner.as_str()
    }
}

/// The key that names a mode in front-end configurations.
pub open spec fn mode_key(m: DialoutMode) -> Seq<char> {
    match m {
        DialoutMode::Normal => "normal"@,
        DialoutMode::Gpb => "gpb"@,
        DialoutMode::Gnmi => "gnmi"@,
        DialoutMode::Udp => "udp"@,
    }
}

/// Every mode is named by its key, and a key names only its own mode:
/// reading the key of any mode gives that mode back, and whatever text
/// names a mode is that mode's key.
pub proof fn law_mode_keys_name_their_modes(m: DialoutMode, s: Seq<char>)
    ensures
        mode_from_key(mode_key(m)) == Some(m),
        mode_from_key(s) == Some(m) ==> s == mode_key(m),
{
    reveal_strlit("normal");
    reveal_strlit("gpb");
    reveal_strlit("gnmi");
    reveal_strlit("udp");
    assert("normal"@.len() == 6 && "gpb"@.len() == 3 && "gnmi"@.len() == 4 && "udp"@.len() == 3);
    assert("gpb"@[0] != "udp"@[0]);
}

} // verus!
