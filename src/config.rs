use vstd::prelude::*;

use crate::text::same_text;

verus! {

/// The default interval between accelerometer polls, in milliseconds.
pub const DEFAULT_PERIOD: u32 = 150;

/// The default window that readings are averaged over, in milliseconds.
pub const DEFAULT_HYSTERESIS: u32 = 1000;

/// The default time an orientation must hold before it is committed, in
/// milliseconds.
pub const DEFAULT_DELAY: u32 = 350;

/// The default pid file.
pub const DEFAULT_PID_FILE: &'static str = "/run/spinnr.pid";

/// The default file that the committed orientation is written to.
pub const DEFAULT_SPINFILE: &'static str = "/run/spinnr.orientation";

/// The default log destination.
pub const DEFAULT_LOG_FILE: &'static str = "syslog";

/// The default working directory.
pub const DEFAULT_WORKING_DIR: &'static str = "/";

/// The daemon's settings, built once at startup and passed to whatever
/// needs them.
#[derive(Debug, Clone)]
pub struct Config {
    pub quiet: bool,
    pub daemonize: bool,
    pub pid_file: Option<String>,
    pub spinfile: Option<String>,
    pub working_dir: Option<String>,
    pub user: Option<String>,
    pub group: Option<String>,
    pub logfile: Option<String>,
    pub period: u32,
    pub hysteresis: u32,
    pub delay: u32,
    pub quit_on_write_error: bool,
    pub quit_on_open_error: bool,
}

impl Default for Config {
    /// Polls every 150 ms, averages over 1000 ms, commits after 350 ms, goes
    /// on after a failed write and quits after a failed open.
    fn default() -> (r: Config)
        ensures
            !r.quiet,
            !r.daemonize,
            r.pid_file.is_none(),
            r.spinfile.is_none(),
            r.working_dir.is_none(),
            r.user.is_none(),
            r.group.is_none(),
            r.logfile.is_none(),
            r.period == DEFAULT_PERIOD,
            r.hysteresis == DEFAULT_HYSTERESIS,
            r.delay == DEFAULT_DELAY,
            !r.quit_on_write_error,
            r.quit_on_open_error,
    {
        Config {
            quiet: false,
            daemonize: false,
            pid_file: None,
            spinfile: None,
            working_dir: None,
            user: None,
            group: None,
            logfile: None,
            period: DEFAULT_PERIOD,
            hysteresis: DEFAULT_HYSTERESIS,
            delay: DEFAULT_DELAY,
            quit_on_write_error: false,
            quit_on_open_error: true,
        }
    }
}

/// A path given in the configuration, or the default one.
pub open spec fn path_or(given: Option<String>, default: &str) -> Seq<char> {
    match given {
        Some(p) => p@,
        None => default@,
    }
}

fn path_or_default(given: &Option<String>, default: &str) -> (r: String)
    ensures
        r@ == path_or(*given, default),
{
    match given {
        Some(p) => p.clone(),
        None => default.to_owned(),
    }
}

/// Returns true if we are to daemonize.
pub fn is_daemon(cfg: &Config) -> (r: bool)
    ensures
        r == cfg.daemonize,
{
    cfg.daemonize
}

/// Returns true if we're not writing to stdout.
pub fn is_quiet(cfg: &Config) -> (r: bool)
    ensures
        r == cfg.quiet,
{
    cfg.quiet
}

/// Gets the path to the pid file.
pub fn get_pid_file(cfg: &Config) -> (r: String)
    ensures
        r@ == path_or(cfg.pid_file, DEFAULT_PID_FILE),
{
    path_or_default(&cfg.pid_file, DEFAULT_PID_FILE)
}

/// Gets the location of the file that the orientation is written to.
pub fn get_spinfile(cfg: &Config) -> (r: String)
    ensures
        r@ == path_or(cfg.spinfile, DEFAULT_SPINFILE),
{
    path_or_default(&cfg.spinfile, DEFAULT_SPINFILE)
}

/// Gets the working directory (where files go by default).
pub fn get_working_dir(cfg: &Config) -> (r: String)
    ensures
        r@ == path_or(cfg.working_dir, DEFAULT_WORKING_DIR),
{
    path_or_default(&cfg.working_dir, DEFAULT_WORKING_DIR)
}

/// Gets the user the daemon should run as; `None` keeps the current one.
pub fn get_user(cfg: &Config) -> (r: Option<String>)
    ensures
        r == cfg.user,
{
    match &cfg.user {
        Some(u) => Some(u.clone()),
        None => None,
    }
}

/// Gets the group the daemon should run as; `None` keeps the current one.
pub fn get_group(cfg: &Config) -> (r: Option<String>)
    ensures
        r == cfg.group,
{
    match &cfg.group {
        Some(g) => Some(g.clone()),
        None => None,
    }
}

/// Where log messages go.
#[derive(Debug, Clone, Copy, PartialEq, Eq, Structural)]
pub enum LogTarget {
    /// The systemd journal.
    Journal,
    /// The systemd journal, or the system log where the journal is not available.
    JournalOrSyslog,
    /// The system log.
    Syslog,
    /// A file of that name.
    File,
}

/// The destination that a log-file setting names: `sysd`, `system` and
/// `syslog` are keywords, anything else is a path.
pub open spec fn log_target_spec(name: Seq<char>) -> LogTarget {
    if name == "sysd"@ {
        LogTarget::Journal
    } else if name == "system"@ {
        LogTarget::JournalOrSyslog
    } else if name == "syslog"@ {
        LogTarget::Syslog
    } else {
        LogTarget::File
    }
}

/// The log destination that the configuration names; the default is the
/// system log.
pub fn get_log_target(cfg: &Config) -> (r: LogTarget)
    ensures
        r == log_target_spec(path_or(cfg.logfile, DEFAULT_LOG_FILE)),
{
    let name: &str = match &cfg.logfile {
        Some(f) => f.as_str(),
        None => DEFAULT_LOG_FILE,
    };
    if same_text(name, "sysd") {
        LogTarget::Journal
    } else if same_text(name, "system") {
        LogTarget::JournalOrSyslog
    } else if same_text(name, "syslog") {
        LogTarget::Syslog
    } else {
        LogTarget::File
    }
}

/// Gets the log-file setting: a path, or one of the keywords of
/// [`get_log_target`].
pub fn get_logfile(cfg: &Config) -> (r: String)
    ensures
        r@ == path_or(cfg.logfile, DEFAULT_LOG_FILE),
{
    path_or_default(&cfg.logfile, DEFAULT_LOG_FILE)
}

/// Returns true if we should quit when writing the orientation file fails.
pub fn quit_on_spinfile_write_error(cfg: &Config) -> (r: bool)
    ensures
        r == cfg.quit_on_write_error,
{
    cfg.quit_on_write_error
}

/// Returns true if we should quit when opening the orientation file fails.
pub fn quit_on_spinfile_open_error(cfg: &Config) -> (r: bool)
    ensures
        r == cfg.quit_on_open_error,
{
    cfg.quit_on_open_error
}

pub open spec fn is_digit(c: char) -> bool {
    '0' <= c && c <= '9'
}

pub open spec fn digit_value(c: char) -> nat {
    (c as u32 - '0' as u32) as nat
}

/// The number that a string of decimal digits spells.
pub open spec fn decimal_value(s: Seq<char>) -> nat
    decreases s.len(),
{
    if s.len() == 0 {
        0
    } else {
        decimal_value(s.drop_last()) * 10 + digit_value(s.last())
    }
}

/// The digits of an unsigned number: the text without one leading `+`.
pub open spec fn unsigned_digits(s: Seq<char>) -> Seq<char> {
    if s.len() > 0 && s[0] == '+' {
        s.drop_first()
    } else {
        s
    }
}

/// The `u32` that a text spells in decimal, with an optional leading `+`;
/// `None` if it is empty, holds anything else, or is too large.
pub open spec fn parse_u32_spec(s: Seq<char>) -> Option<u32> {
    let d = unsigned_digits(s);
    if d.len() > 0 && (forall|i: int| 0 <= i < d.len() ==> is_digit(#[trigger] d[i]))
        && decimal_value(d) <= u32::MAX {
        Some(decimal_value(d) as u32)
    } else {
        None
    }
}

/// Reads a `u32` written in decimal, as `str::parse::<u32>` does.
pub fn parse_u32(s: &str) -> (r: Option<u32>)
    ensures
        r == parse_u32_spec(s@),
{
    let n = s.unicode_len();
    let start: usize = if n > 0 && s.get_char(0) == '+' {
        1
    } else {
        0
    };
    let ghost d = unsigned_digits(s@);
    assert(d =~= s@.subrange(start as int, n as int));
    if start == n {
        return None;
    }
    let cap: u64 = 0x1_0000_0000;
    let mut acc: u64 = 0;
    let mut i: usize = start;
    while i < n
        invariant
            start <= i <= n,
            cap == 0x1_0000_0000,
            d == unsigned_digits(s@),
            n == s@.len(),
            d =~= s@.subrange(start as int, n as int),
            acc <= cap,
            acc == if decimal_value(d.subrange(0, i - start)) < cap {
                decimal_value(d.subrange(0, i - start))
            } else {
                cap as nat
            },
            forall|j: int| 0 <= j < i - start ==> is_digit(#[trigger] d[j]),
        decreases n - i,
    {
        let c = s.get_char(i);
        if !('0' <= c && c <= '9') {
            assert(d[i - start] == c);
            assert(!is_digit(d[i - start]));
            assert(!(forall|j: int| 0 <= j < d.len() ==> is_digit(#[trigger] d[j])));
            return None;
        }
        let v: u64 = (c as u32 - '0' as u32) as u64;
        assert(v <= 9);
        let ghost prefix = d.subrange(0, i - start);
        let ghost longer = d.subrange(0, i + 1 - start);
        assert(longer.drop_last() =~= prefix);
        assert(longer.last() == c);
        assert(decimal_value(longer) == decimal_value(prefix) * 10 + v);
        if acc >= cap {
            assert(decimal_value(longer) >= cap) by (nonlinear_arith)
                requires
                    decimal_value(prefix) >= cap,
                    decimal_value(longer) == decimal_value(prefix) * 10 + v,
            ;
        } else {
            assert(acc * 10 + v <= 0x10_0000_0000) by (nonlinear_arith)
                requires
                    acc < cap,
                    cap == 0x1_0000_0000,
            d == unsigned_digits(s@),
                    v <= 9,
            ;
            let next: u64 = acc * 10 + v;
            acc = if next >= cap {
                cap
            } else {
                next
            };
        }
        i = i + 1;
    }
    assert(d.subrange(0, n - start) =~= d);
    if acc >= cap {
        None
    } else {
        Some(acc as u32)
    }
}

/// Gets the `u32` value of an option's argument: `None` if the option was not
/// given or its text is not a `u32`.
pub fn get_u32_arg_val(arg: Option<&str>) -> (r: Option<u32>)
    ensures
        r == match arg {
            Some(s) => parse_u32_spec(s@),
            None => None,
        },
{
    match arg {
        Some(s) => parse_u32(s),
        None => None,
    }
}

/// Checks that an option's argument is empty or a valid `u32`; otherwise the
/// offending text comes back as the error.
pub fn validate_u32(v: String) -> (r: Result<(), String>)
    ensures
        r is Ok <==> (v@.len() == 0 || parse_u32_spec(v@).is_some()),
        r matches Err(e) ==> e@ == v@,
{
    if v.as_str().unicode_len() == 0 {
        return Ok(());
    }
    match parse_u32(v.as_str()) {
        Some(_) => Ok(()),
        None => Err(v),
    }
}

} // verus!
