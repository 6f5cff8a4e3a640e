//! Command-line options and the server configuration they select.

use vstd::prelude::*;

use crate::models::{DialoutMode, ServerConfig};
use crate::text::str_eq;

verus! {

/// gRPC Dialout Telemetry Collector Server options.
///
/// Dial-out modes: `normal` (gRPC 2-layer, JSON), `gpb` (gRPC 3-layer,
/// GPB/Telemetry), `gnmi` (gRPC gNMI) and `udp` (UDP 2-layer); without a
/// mode flag the 2-layer mode is used.
#[derive(Debug)]
pub struct CliArgs {
    /// gRPC 2-layer dial-out (JSON), the default mode
    pub normal: bool,
    /// gRPC 3-layer dial-out (GPB/Telemetry)
    pub gpb: bool,
    /// gRPC gNMI dial-out
    pub gnmi: bool,
    /// UDP 2-layer dial-out
    pub udp: bool,
    /// Listening port (default 50051)
    pub port: u16,
    /// Enable TLS (not for UDP)
    pub tls: bool,
    /// Generate proto descriptor files and exit
    pub generate: bool,
    /// Enable log file output
    pub log: bool,
    /// Output original data without parsing
    pub orignal: bool,
    /// Format JSON data with indentation
    pub format: bool,
    /// Output fields with default values
    pub including_default: bool,
    /// Performance mode (only count messages)
    pub performance_mode: bool,
    /// Log level: debug, info, error
    pub debug: String,
    /// gRPC trace types (comma separated)
    pub trace: Option<String>,
    /// Maximum number of log files (default 50)
    pub logfile_num: usize,
    /// Maximum log file size in MB (default 50)
    pub logfile_size: usize,
}

/// The mode that the flags select: the first of gpb, gnmi, udp that is set,
/// else the 2-layer mode.
pub open spec fn spec_dialout_mode(a: CliArgs) -> DialoutMode {
    if a.gpb {
        DialoutMode::Gpb
    } else if a.gnmi {
        DialoutMode::Gnmi
    } else if a.udp {
        DialoutMode::Udp
    } else {
        DialoutMode::Normal
    }
}

impl CliArgs {
    /// Determine the dialout mode from CLI flags.
    pub fn dialout_mode(&self) -> (m: DialoutMode)
        ensures
            m == spec_dialout_mode(*self),
    {
        if self.gpb {
            DialoutMode::Gpb
        } else if self.gnmi {
            DialoutMode::Gnmi
        } else if self.udp {
            DialoutMode::Udp
        } else {
            DialoutMode::Normal
        }
    }

    /// Convert CLI args into a `ServerConfig` running `mode` alone.
    pub fn into_server_config(self, mode: DialoutMode) -> (c: ServerConfig)
        ensures
            c.modes@ == seq![mode],
            c.port == self.port,
            c.tls == self.tls,
            c.orignal == self.orignal,
            c.format_json == self.format,
            c.including_default == self.including_default,
            c.performance_mode == self.performance_mode,
            c.debug == self.debug,
            c.trace == self.trace,
            c.log_output == self.log,
            c.logfile_num == self.logfile_num,
            c.logfile_size == self.logfile_size,
            !c.only_log_file,
    {
        ServerConfig {
            modes: vec![mode],
            port: self.port,
            tls: self.tls,
            orignal: self.orignal,
            format_json: self.format,
            including_default: self.including_default,
            performance_mode: self.performance_mode,
            debug: self.debug,
            trace: self.trace,
            log_output: self.log,
            logfile_num: self.logfile_num,
            logfile_size: self.logfile_size,
            only_log_file: false,
        }
    }
}


/// The log filter of the command-line program for the level given with
/// `-d`: `debug` keeps debug messages, anything else keeps info and above.
pub fn cli_log_filter(level: &str) -> (f: &'static str)
    ensures
        f@ == (if level@ == "debug"@ {
            "debug"@
        } else {
            "info"@
        }),
{
    if str_eq(level, "debug") {
        "debug"
    } else {
        "info"
    }
}
} // verus!
