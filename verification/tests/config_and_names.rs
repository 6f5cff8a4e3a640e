use grpc_dialout::config::{cli_log_filter, CliArgs};
use grpc_dialout::dialout::normal::DialoutService;
use grpc_dialout::dialout::gnmi::GnmiDialoutService;
use grpc_dialout::dialout::normal::DialoutConfig;
use grpc_dialout::dialout::gnmi::GnmiConfig;
use grpc_dialout::gui::{default_logfile_num, default_logfile_size, strip_debug_quotes, GuiConfig};
use grpc_dialout::logging_setup::log_file_prefix;
use grpc_dialout::models::{
    get_global_client_count, get_global_msg_count, incr_client_count, incr_msg_count,
    reset_global_stats, DialoutMode, GlobalStats, MessageBuffer, ServerConfig,
};
use grpc_dialout::proto_dynamic::{
    descriptor_file_name, find_module_index, is_descriptor_source, is_v3_module_file,
    message_full_name, short_name,
};
use grpc_dialout::server::Server;
use grpc_dialout::text::{decimal_string, hex_encode};
use std::borrow::Cow;

fn args(gpb: bool, gnmi: bool, udp: bool) -> CliArgs {
    CliArgs {
        normal: false,
        gpb,
        gnmi,
        udp,
        port: 6000,
        tls: true,
        generate: false,
        log: true,
        orignal: false,
        format: true,
        including_default: false,
        performance_mode: true,
        debug: "info".to_string(),
        trace: Some("all".to_string()),
        logfile_num: 3,
        logfile_size: 4,
    }
}

#[test]
fn cli_mode_selection_order() {
    assert_eq!(args(true, true, true).dialout_mode(), DialoutMode::Gpb);
    assert_eq!(args(false, true, true).dialout_mode(), DialoutMode::Gnmi);
    assert_eq!(args(false, false, true).dialout_mode(), DialoutMode::Udp);
    assert_eq!(args(false, false, false).dialout_mode(), DialoutMode::Normal);
}

#[test]
fn cli_args_into_server_config() {
    let c = args(false, false, true).into_server_config(DialoutMode::Udp);
    assert_eq!(c.modes, vec![DialoutMode::Udp]);
    assert_eq!(c.port, 6000);
    assert!(c.tls && c.log_output && c.format_json && c.performance_mode);
    assert!(!c.orignal && !c.including_default && !c.only_log_file);
    assert_eq!(c.debug, "info");
    assert_eq!(c.trace.as_deref(), Some("all"));
    assert_eq!((c.logfile_num, c.logfile_size), (3, 4));
    assert_eq!(cli_log_filter("debug"), "debug");
    assert_eq!(cli_log_filter("error"), "info");
}

#[test]
fn server_config_defaults_and_mode_lists() {
    let c = ServerConfig::default();
    assert_eq!(c.modes, vec![DialoutMode::Normal]);
    assert_eq!(c.port, 50051);
    assert!(c.format_json && c.including_default && !c.tls);
    assert_eq!(c.debug, "error");
    assert_eq!((c.logfile_num, c.logfile_size), (50, 50));
    let mut m = c.clone();
    m.modes = vec![DialoutMode::Udp, DialoutMode::Gnmi, DialoutMode::Normal];
    assert_eq!(m.grpc_modes(), vec![DialoutMode::Gnmi, DialoutMode::Normal]);
    assert!(m.has_udp());
    assert!(!c.has_udp());
}

#[test]
fn start_plan_for_modes() {
    let mut c = ServerConfig::default();
    c.modes = vec![DialoutMode::Gpb, DialoutMode::Udp];
    c.port = 7000;
    let plan = Server::new(c).plan_start().unwrap();
    assert!(plan.serve_gpb && !plan.serve_normal && !plan.serve_gnmi);
    assert_eq!(plan.udp_config.unwrap().port, 7000);
    assert_eq!(plan.modes, vec![DialoutMode::Gpb, DialoutMode::Udp]);
    let mut none = ServerConfig::default();
    none.modes = vec![];
    let err = Server::new(none).plan_start();
    assert!(matches!(err, Err(grpc_dialout::error::AppError::Config(ref m)) if m == "No dialout modes configured"));
}

#[test]
fn mode_names_and_keys() {
    assert_eq!(DialoutMode::Normal.as_str(), "gRPC 2-layer dial-out");
    assert_eq!(DialoutMode::Gpb.as_str(), "gRPC 3-layer dial-out");
    assert_eq!(DialoutMode::Gnmi.as_str(), "gRPC gNMI dialout");
    assert_eq!(DialoutMode::Udp.as_str(), "UDP 2-layer dialout");
    assert_eq!(DialoutMode::from_str_lossy("gnmi"), Some(DialoutMode::Gnmi));
    assert_eq!(DialoutMode::from_str_lossy("GNMI"), None);
}

#[test]
fn global_stats_count_and_reset() {
    let mut s = GlobalStats::new();
    incr_msg_count(&mut s);
    incr_msg_count(&mut s);
    incr_client_count(&mut s);
    assert_eq!(get_global_msg_count(&s), 2);
    assert_eq!(get_global_client_count(&s), 1);
    s.msg_count = u64::MAX;
    incr_msg_count(&mut s);
    assert_eq!(get_global_msg_count(&s), 0);
    reset_global_stats(&mut s);
    assert_eq!((get_global_msg_count(&s), get_global_client_count(&s)), (0, 0));
}

#[test]
fn message_buffer_builds_text() {
    let mut b = MessageBuffer::with_capacity(16);
    b.push_str("ab");
    b.push_cow(Cow::Borrowed("cd"));
    b.push_cow(Cow::Owned("ef".to_string()));
    assert_eq!(b.as_str(), "abcdef");
    b.clear();
    b.push_str("x");
    assert_eq!(b.into_string(), "x");
}

#[test]
fn services_start_with_zero_count() {
    let cfg = DialoutConfig { orignal: true, format_json: false, including_default: true, performance_mode: false };
    let s = DialoutService::new(cfg);
    assert_eq!(s.count, 0);
    assert_eq!(s.config, cfg);
    let g = GnmiConfig { orignal: false, format_json: true, including_default: false, performance_mode: true };
    assert_eq!(GnmiDialoutService::new(g).config, g);
}

fn gui(modes: &[&str]) -> GuiConfig {
    GuiConfig {
        modes: modes.iter().map(|s| s.to_string()).collect(),
        port: 50051,
        tls: false,
        orignal: true,
        format_json: false,
        performance_mode: false,
        log_output: true,
        only_log_file: true,
        logfile_size: default_logfile_size(),
        logfile_num: default_logfile_num(),
    }
}

#[test]
fn gui_modes_and_config() {
    assert_eq!(gui(&[]).dialout_modes().unwrap(), vec![DialoutMode::Normal]);
    assert_eq!(gui(&["udp", "gpb"]).dialout_modes().unwrap(), vec![DialoutMode::Udp, DialoutMode::Gpb]);
    assert_eq!(gui(&["gpb", "bogus", "worse"]).dialout_modes().unwrap_err(), "Unknown mode: 'bogus'");
    let g = gui(&["gnmi"]);
    let c = g.to_server_config(vec![DialoutMode::Gnmi]);
    assert_eq!(c.modes, vec![DialoutMode::Gnmi]);
    assert!(c.including_default && c.orignal && c.only_log_file && !c.format_json);
    assert_eq!(c.debug, "error");
    assert_eq!((c.logfile_size, c.logfile_num), (100, 50));
}

#[test]
fn gui_log_file_names() {
    assert_eq!(gui(&["normal"]).log_file_name("20240101"), "grpc_2_layer_server_50051_20240101.log");
    assert_eq!(gui(&["udp"]).log_file_name("t"), "udp_2_layer_server_50051_t.log");
    assert_eq!(gui(&["gpb", "udp"]).log_file_name("t"), "multi_mode_server_50051_t.log");
    assert_eq!(gui(&[]).log_file_name("t"), "server_server_50051_t.log");
    assert_eq!(strip_debug_quotes("\"hi\""), "hi");
    assert_eq!(strip_debug_quotes("\"\""), "");
    assert_eq!(strip_debug_quotes("plain"), "plain");
}

#[test]
fn log_prefixes_per_mode() {
    assert_eq!(log_file_prefix(&DialoutMode::Normal, 50051), "grpc_2_layer_dial_out_server_50051");
    assert_eq!(log_file_prefix(&DialoutMode::Udp, 9), "udp_2_layer_dialout_server_9");
    assert_eq!(log_file_prefix(&DialoutMode::Gnmi, 1), "grpc_gnmi_dialout_server_1");
}

#[test]
fn proto_file_rules() {
    assert!(is_v3_module_file("device_v3.proto"));
    assert!(!is_v3_module_file("grpc_dialout_v3.proto"));
    assert!(!is_v3_module_file("device.proto"));
    assert!(is_descriptor_source("gnmi.proto"));
    assert!(!is_descriptor_source("any.proto"));
    assert!(!is_descriptor_source("x_bak_1.proto"));
    assert!(!is_descriptor_source(".proto"));
    assert!(!is_descriptor_source("notes.txt"));
    assert_eq!(descriptor_file_name("gnmi.proto"), "gnmi.desc");
    assert_eq!(descriptor_file_name("a.proto.proto"), "a.desc.desc");
    assert_eq!(message_full_name("", "Device"), "Device");
    assert_eq!(message_full_name("device_v3", "Device"), "device_v3.Device");
    assert_eq!(short_name("a.b.Device"), "Device");
    assert_eq!(short_name("Device"), "Device");
}

#[test]
fn sensor_path_selects_module() {
    let names: Vec<String> = ["Device", "huawei_ifm", "cpu"].iter().map(|s| s.to_string()).collect();
    assert_eq!(find_module_index(&names, "huawei-ifm/ifm/interfaces"), Some(1));
    assert_eq!(find_module_index(&names, "Device"), Some(0));
    assert_eq!(find_module_index(&names, "InSuitOam/cpu/x"), Some(2));
    assert_eq!(find_module_index(&names, "InSuitOam"), None);
    assert_eq!(find_module_index(&names, "Other/cpu"), None);
}

#[test]
fn hex_and_decimal_renderings() {
    assert_eq!(hex_encode(&[0x00, 0x0F, 0xF0, 0xFF]), "000ff0ff");
    assert_eq!(hex_encode(&[]), "");
    assert_eq!(decimal_string(0), "0");
    assert_eq!(decimal_string(u64::MAX), "18446744073709551615");
}
