use spinnrd::config::{
    get_group, get_log_target, get_logfile, get_pid_file, get_spinfile, get_u32_arg_val, get_user, get_working_dir, is_daemon, is_quiet, parse_u32,
    quit_on_spinfile_open_error, quit_on_spinfile_write_error, validate_u32, Config, LogTarget,
};

#[test]
fn parse_u32_reads_decimal() {
    assert_eq!(parse_u32("0"), Some(0));
    assert_eq!(parse_u32("150"), Some(150));
    assert_eq!(parse_u32("+7"), Some(7));
    assert_eq!(parse_u32("007"), Some(7));
    assert_eq!(parse_u32("4294967295"), Some(u32::MAX));
}

#[test]
fn parse_u32_refuses_bad_text() {
    assert_eq!(parse_u32(""), None);
    assert_eq!(parse_u32("+"), None);
    assert_eq!(parse_u32("-1"), None);
    assert_eq!(parse_u32("12a"), None);
    assert_eq!(parse_u32(" 1"), None);
    assert_eq!(parse_u32("4294967296"), None);
    assert_eq!(parse_u32("99999999999999999999"), None);
}

#[test]
fn parse_u32_agrees_with_std() {
    for s in ["1", "+0", "++1", "4294967295", "4294967296", "", "x", "12 ", "٣"] {
        assert_eq!(parse_u32(s), s.parse::<u32>().ok(), "{}", s);
    }
}

#[test]
fn u32_arg_value() {
    assert_eq!(get_u32_arg_val(None), None);
    assert_eq!(get_u32_arg_val(Some("350")), Some(350));
    assert_eq!(get_u32_arg_val(Some("fast")), None);
}

#[test]
fn validate_u32_accepts_empty_and_numbers() {
    assert_eq!(validate_u32(String::new()), Ok(()));
    assert_eq!(validate_u32("1000".to_string()), Ok(()));
    assert_eq!(validate_u32("-5".to_string()), Err("-5".to_string()));
}

#[test]
fn default_config() {
    let c = Config::default();
    assert!(!is_daemon(&c));
    assert!(!is_quiet(&c));
    assert!(!quit_on_spinfile_write_error(&c));
    assert!(quit_on_spinfile_open_error(&c));
    assert_eq!(c.period, 150);
    assert_eq!(c.hysteresis, 1000);
    assert_eq!(c.delay, 350);
    assert_eq!(get_pid_file(&c), "/run/spinnr.pid");
    assert_eq!(get_spinfile(&c), "/run/spinnr.orientation");
    assert_eq!(get_working_dir(&c), "/");
}

#[test]
fn configured_paths_win() {
    let mut c = Config::default();
    c.pid_file = Some("/tmp/x.pid".to_string());
    c.spinfile = Some("/tmp/orient".to_string());
    c.working_dir = Some("/var".to_string());
    c.daemonize = true;
    c.quiet = true;
    assert!(is_daemon(&c));
    assert!(is_quiet(&c));
    assert_eq!(get_pid_file(&c), "/tmp/x.pid");
    assert_eq!(get_spinfile(&c), "/tmp/orient");
    assert_eq!(get_working_dir(&c), "/var");
}

#[test]
fn log_target_keywords_and_paths() {
    let mut c = Config::default();
    assert_eq!(get_log_target(&c), LogTarget::Syslog);
    assert_eq!(get_logfile(&c), "syslog");
    c.logfile = Some("sysd".to_string());
    assert_eq!(get_log_target(&c), LogTarget::Journal);
    c.logfile = Some("system".to_string());
    assert_eq!(get_log_target(&c), LogTarget::JournalOrSyslog);
    c.logfile = Some("syslog".to_string());
    assert_eq!(get_log_target(&c), LogTarget::Syslog);
    c.logfile = Some("/var/log/spinnr.log".to_string());
    assert_eq!(get_log_target(&c), LogTarget::File);
    assert_eq!(get_logfile(&c), "/var/log/spinnr.log");
    c.logfile = Some("sys".to_string());
    assert_eq!(get_log_target(&c), LogTarget::File);
}

#[test]
fn user_and_group() {
    let mut c = Config::default();
    assert_eq!(get_user(&c), None);
    assert_eq!(get_group(&c), None);
    c.user = Some("nobody".to_string());
    c.group = Some("video".to_string());
    assert_eq!(get_user(&c), Some("nobody".to_string()));
    assert_eq!(get_group(&c), Some("video".to_string()));
}
