//! The configuration and statistics that the desktop front end exchanges
//! with the collector, and the decisions taken on them.

use vstd::prelude::*;
use vstd::string::StringExecFns;

use crate::models::{law_mode_keys_name_their_modes, mode_from_key, mode_key, DialoutMode, ServerConfig};
use crate::text::{chars_of, decimal, push_decimal, push_text, str_eq, string_of_chars};

verus! {

/// Configuration payload sent from the frontend.
#[derive(Debug, Clone)]
pub struct GuiConfig {
    /// Selected modes (one, such as `["normal"]`, or several).
    pub modes: Vec<String>,
    pub port: u16,
    pub tls: bool,
    pub orignal: bool,
    pub format_json: bool,
    pub performance_mode: bool,
    pub log_output: bool,
    pub only_log_file: bool,
    pub logfile_size: usize,
    pub logfile_num: usize,
}

/// Response of the statistics request.
#[derive(Debug, Clone, Copy, PartialEq, Eq)]
pub struct StatsResponse {
    pub is_running: bool,
    pub message_count: u64,
    pub client_count: u64,
    pub uptime_secs: u64,
}

/// Default maximum log file size (MB) when the frontend sends none.
pub fn default_logfile_size() -> (n: usize)
    ensures
        n == 100,
{
    100
}

/// Default maximum number of log files when the frontend sends none.
pub fn default_logfile_num() -> (n: usize)
    ensures
        n == 50,
{
    50
}

/// The error text for a mode key that names no mode.
pub open spec fn unknown_mode_message(s: Seq<char>) -> Seq<char> {
    "Unknown mode: '"@ + s + "'"@
}

/// The modes named by a list of keys, or the error for the first key that
/// names none.
pub open spec fn parse_mode_keys(ss: Seq<Seq<char>>) -> Result<Seq<DialoutMode>, Seq<char>>
    decreases ss.len(),
{
    if ss.len() == 0 {
        Ok(Seq::empty())
    } else {
        match parse_mode_keys(ss.drop_last()) {
            Err(e) => Err(e),
            Ok(v) => match mode_from_key(ss.last()) {
                Some(m) => Ok(v.push(m)),
                None => Err(unknown_mode_message(ss.last())),
            },
        }
    }
}

/// The keys of a list of strings.
pub open spec fn keys_view(v: Seq<String>) -> Seq<Seq<char>> {
    v.map_values(|s: String| s@)
}

/// The modes that a frontend configuration selects: the 2-layer mode when
/// none is selected.
pub open spec fn spec_gui_modes(c: GuiConfig) -> Result<Seq<DialoutMode>, Seq<char>> {
    if c.modes@.len() == 0 {
        Ok(seq![DialoutMode::Normal])
    } else {
        parse_mode_keys(keys_view(c.modes@))
    }
}

/// The label of a log file for the selected mode keys.
pub open spec fn log_mode_label(keys: Seq<Seq<char>>) -> Seq<char> {
    if keys.len() > 1 {
        "multi_mode"@
    } else if keys.len() == 0 {
        "server"@
    } else if keys[0] == "normal"@ {
        "grpc_2_layer"@
    } else if keys[0] == "gpb"@ {
        "grpc_3_layer"@
    } else if keys[0] == "gnmi"@ {
        "grpc_gnmi"@
    } else if keys[0] == "udp"@ {
        "udp_2_layer"@
    } else {
        "server"@
    }
}

impl GuiConfig {
    /// The modes that this configuration selects.
    pub fn dialout_modes(&self) -> (r: Result<Vec<DialoutMode>, String>)
        ensures
            match r {
                Ok(v) => spec_gui_modes(*self) == Ok::<Seq<DialoutMode>, Seq<char>>(v@),
                Err(e) => spec_gui_modes(*self) == Err::<Seq<DialoutMode>, Seq<char>>(e@),
            },
    {
        if self.modes.len() == 0 {
            let v = vec![DialoutMode::Normal];
            assert(v@ =~= seq![DialoutMode::Normal]);
            return Ok(v);
        }
        let ghost keys = keys_view(self.modes@);
        let n = self.modes.len();
        let mut out: Vec<DialoutMode> = Vec::new();
        let mut i: usize = 0;
        while i < n
            invariant
                n == self.modes@.len(),
                keys == keys_view(self.modes@),
                0 <= i <= n,
                parse_mode_keys(keys.take(i as int)) == Ok::<Seq<DialoutMode>, Seq<char>>(out@),
            decreases n - i,
        {
            proof {
                assert(keys.take(i + 1).drop_last() =~= keys.take(i as int));
            }
            let s = self.modes[i].as_str();
            match DialoutMode::from_str_lossy(s) {
                Some(m) => {
                    out.push(m);
                },
                None => {
                    let mut msg = String::from_str("Unknown mode: '");
                    push_text(&mut msg, s);
                    push_text(&mut msg, "'");
                    proof {
                        lemma_parse_prefix_error(keys, i as int + 1);
                    }
                    return Err(msg);
                },
            }
            i = i + 1;
        }
        assert(keys.take(n as int) =~= keys);
        Ok(out)
    }

    /// The server configuration for the given modes.
    pub fn to_server_config(&self, modes: Vec<DialoutMode>) -> (c: ServerConfig)
        ensures
            c.modes == modes,
            c.port == self.port,
            c.tls == self.tls,
            c.orignal == self.orignal,
            c.format_json == self.format_json,
            c.including_default,
            c.performance_mode == self.performance_mode,
            c.debug@ == "error"@,
            c.trace is None,
            c.log_output == self.log_output,
            c.logfile_num == self.logfile_num,
            c.logfile_size == self.logfile_size,
            c.only_log_file == self.only_log_file,
    {
        ServerConfig {
            modes,
            port: self.port,
            tls: self.tls,
            orignal: self.orignal,
            format_json: self.format_json,
            including_default: true,
            performance_mode: self.performance_mode,
            debug: String::from_str("error"),
            trace: None,
            log_output: self.log_output,
            logfile_num: self.logfile_num,
            logfile_size: self.logfile_size,
            only_log_file: self.only_log_file,
        }
    }

    /// The name of the log file opened at `timestamp`:
    /// `<label>_server_<port>_<timestamp>.log`.
    pub fn log_file_name(&self, timestamp: &str) -> (s: String)
        ensures
            s@ == log_mode_label(keys_view(self.modes@)) + "_server_"@ + decimal(self.port as nat)
                + "_"@ + timestamp@ + ".log"@,
    {
        let label: &str = if self.modes.len() > 1 {
            "multi_mode"
        } else if self.modes.len() == 0 {
            "server"
        } else {
            let first = self.modes[0].as_str();
            if str_eq(first, "normal") {
                "grpc_2_layer"
            } else if str_eq(first, "gpb") {
                "grpc_3_layer"
            } else if str_eq(first, "gnmi") {
                "grpc_gnmi"
            } else if str_eq(first, "udp") {
                "udp_2_layer"
            } else {
                "server"
            }
        };
        let mut s = String::from_str(label);
        push_text(&mut s, "_server_");
        push_decimal(&mut s, self.port as u64);
        push_text(&mut s, "_");
        push_text(&mut s, timestamp);
        push_text(&mut s, ".log");
        s
    }
}

/// Once a prefix of keys fails, every longer prefix fails the same way.
proof fn lemma_parse_prefix_error(keys: Seq<Seq<char>>, i: int)
    requires
        0 < i <= keys.len(),
        parse_mode_keys(keys.take(i)) is Err,
    ensures
        parse_mode_keys(keys) == parse_mode_keys(keys.take(i)),
    decreases keys.len() - i,
{
    if i == keys.len() {
        assert(keys.take(i) =~= keys);
    } else {
        assert(keys.take(i + 1).drop_last() =~= keys.take(i));
        lemma_parse_prefix_error(keys, i + 1);
    }
}


/// A log message's rendering with one pair of surrounding double quotes
/// removed, when it has them.
pub open spec fn spec_strip_debug_quotes(s: Seq<char>) -> Seq<char> {
    if s.len() >= 1 && s[0] == '"' && s.last() == '"' {
        s.subrange(1, s.len() - 1)
    } else {
        s
    }
}

/// The text of a log message from its debug rendering: a quoted string
/// loses its surrounding quotes. A rendering that is a single `"` would make
/// the slice bounds cross, which `requires` leaves out.
pub fn strip_debug_quotes(s: &str) -> (r: String)
    requires
        !(s@.len() == 1 && s@[0] == '"'),
    ensures
        r@ == spec_strip_debug_quotes(s@),
{
    let v = chars_of(s);
    let n = v.len();
    if n >= 1 && v[0] == '"' && v[n - 1] == '"' {
        string_of_chars(&v, 1, n - 1)
    } else {
        string_of_chars(&v, 0, n)
    }
}

/// The keys of a list of modes.
pub open spec fn keys_of_modes(ms: Seq<DialoutMode>) -> Seq<Seq<char>> {
    ms.map_values(|m: DialoutMode| mode_key(m))
}

/// A front-end configuration that lists modes by their keys selects exactly
/// those modes, in order.
pub proof fn law_mode_keys_select_their_modes(ms: Seq<DialoutMode>)
    ensures
        parse_mode_keys(keys_of_modes(ms)) == Ok::<Seq<DialoutMode>, Seq<char>>(ms),
    decreases ms.len(),
{
    let ks = keys_of_modes(ms);
    if ms.len() > 0 {
        law_mode_keys_select_their_modes(ms.drop_last());
        assert(ks.drop_last() =~= keys_of_modes(ms.drop_last()));
        law_mode_keys_name_their_modes(ms.last(), mode_key(ms.last()));
        assert(ks.last() == mode_key(ms.last()));
        assert(ms.drop_last().push(ms.last()) =~= ms);
        assert(parse_mode_keys(ks) == Ok::<Seq<DialoutMode>, Seq<char>>(
            ms.drop_last().push(ms.last()),
        ));
    } else {
        assert(ks =~= Seq::<Seq<char>>::empty());
        assert(ms =~= Seq::<DialoutMode>::empty());
    }
}

/// The log-file label knows exactly the mode keys: a single key gets a
/// label of its own (not the generic `server`) exactly when it names a mode.
pub proof fn law_log_label_knows_mode_keys(k: Seq<char>)
    ensures
        (log_mode_label(seq![k]) != "server"@) <==> mode_from_key(k) is Some,
{
    reveal_strlit("server");
    reveal_strlit("grpc_2_layer");
    reveal_strlit("grpc_3_layer");
    reveal_strlit("grpc_gnmi");
    reveal_strlit("udp_2_layer");
    reveal_strlit("normal");
    reveal_strlit("gpb");
    reveal_strlit("gnmi");
    reveal_strlit("udp");
    assert("server"@.len() == 6 && "grpc_2_layer"@.len() == 12 && "grpc_3_layer"@.len() == 12);
    assert("grpc_gnmi"@.len() == 9 && "udp_2_layer"@.len() == 11);
    assert(seq![k].len() == 1 && seq![k][0] == k);
}

} // verus!
