//! The running core: the runtime config derived from a profile, the reading
//! of its pid file and log, the hints for failed validations, and the
//! decisions of starting and stopping it.
use vstd::prelude::*;
use vstd::string::StringExecFns;
use crate::config::AppConfig;
use crate::i18n::{message_text, Language, Message};
use crate::lines::{join, join_with, lines, no_newline, split_lines, views};
use crate::number::{decimal, decimal_string, parse_error_text, parse_u16_text, parse_unsigned, parse_u32};
use crate::text::{
    ascii_lowercase, char_is_ascii_whitespace, chars_of, concat2, concat3, concat4, concat5,
    contains, contains_str, ends_with, ends_with_str, is_ascii_whitespace, is_blank, owned,
    split_once, split_once_char, text_eq, to_ascii_lowercase, trim, trim_by, trim_class, trim_end,
    trim_end_class, trim_str, CharClass,
};
use crate::util::{json_quoted, json_string};

verus! {

// ---------------------------------------------------------------------
// Validation messages
// ---------------------------------------------------------------------

/// The message tells that mihomo could not get its GeoIP database.
pub open spec fn geodata_failure(message: Seq<char>) -> bool {
    let lower = ascii_lowercase(message);
    (contains(lower, "can't download mmdb"@) || contains(lower, "can't initial geoip"@) || contains(
        lower,
        "can't find mmdb"@,
    )) && (contains(lower, "geoip.metadb"@) || contains(lower, "mmdb"@))
}

/// Whether a validation message tells that mihomo could not get its GeoIP
/// database.
pub fn is_geodata_download_error(message: &str) -> (r: bool)
    ensures
        r == geodata_failure(message@),
{
    let lower = to_ascii_lowercase(message);
    let l = lower.as_str();
    (contains_str(l, "can't download mmdb") || contains_str(l, "can't initial geoip")
        || contains_str(l, "can't find mmdb")) && (contains_str(l, "geoip.metadb") || contains_str(
        l,
        "mmdb",
    ))
}

/// The note added to a validation message about missing GeoIP data.
pub open spec fn geodata_note(home: Seq<char>) -> Seq<char> {
    "\n\nStarail note: mihomo needs GeoIP/MMDB data for GEOIP rules, but it could not download geoip.metadb during validation. The validation now uses Starail's home directory (-d "@
        + home
        + "), so you can retry after network access to GitHub works, or place a compatible geoip.metadb in that directory."@
}

/// The validation message, with the note on GeoIP data when it applies.
pub open spec fn hinted(home: Seq<char>, message: Seq<char>) -> Seq<char> {
    if geodata_failure(message) {
        message + geodata_note(home)
    } else {
        message
    }
}

/// The validation message, with the note on GeoIP data when it applies;
/// `home` is the displayed Starail home directory.
pub fn validation_hint(home: &str, message: &str) -> (r: String)
    ensures
        r@ == hinted(home@, message@),
{
    if is_geodata_download_error(message) {
        concat4(
            message,
            "\n\nStarail note: mihomo needs GeoIP/MMDB data for GEOIP rules, but it could not download geoip.metadb during validation. The validation now uses Starail's home directory (-d ",
            home,
            "), so you can retry after network access to GitHub works, or place a compatible geoip.metadb in that directory.",
        )
    } else {
        owned(message)
    }
}

/// The output of a failed validation that is shown: its error output, or its
/// standard output when the error output is blank.
pub open spec fn validation_output_text(stderr: Seq<char>, stdout: Seq<char>) -> Seq<char> {
    if trim(stderr).len() == 0 {
        stdout
    } else {
        stderr
    }
}

/// The error for a failed validation: the config, then at most 120 lines of
/// the core's output, with the note on GeoIP data when it applies.
pub open spec fn validation_failure_text(
    config: Seq<char>,
    home: Seq<char>,
    stderr: Seq<char>,
    stdout: Seq<char>,
) -> Seq<char> {
    let ls = lines(validation_output_text(stderr, stdout));
    let preview = join(
        if ls.len() > 120 {
            ls.take(120)
        } else {
            ls
        },
        "\n"@,
    );
    "Config validation failed for "@ + config + "\n"@ + hinted(home, preview)
}

/// The error for a failed validation of `config` with the core's output.
pub fn validation_failure_message(config: &str, home: &str, stderr: &str, stdout: &str) -> (r:
    String)
    ensures
        r@ == validation_failure_text(config@, home@, stderr@, stdout@),
{
    let output = if is_blank(stderr) {
        stdout
    } else {
        stderr
    };
    let ls = split_lines(output);
    let mut kept: Vec<String> = Vec::new();
    let limit: usize = if ls.len() > 120 {
        120
    } else {
        ls.len()
    };
    let mut i: usize = 0;
    while i < limit
        invariant
            i <= limit <= ls@.len(),
            views(kept@) == views(ls@).take(i as int),
        decreases limit - i,
    {
        kept_push(&mut kept, ls[i].clone());
        assert(views(ls@).take(i + 1) == views(ls@).take(i as int).push(ls@[i as int]@));
        i += 1;
    }
    assert(views(ls@).take(ls@.len() as int) == views(ls@));
    let preview = join_with(&kept, "\n");
    let hint = validation_hint(home, preview.as_str());
    concat4("Config validation failed for ", config, "\n", hint.as_str())
}

// ---------------------------------------------------------------------
// Reading top-level keys of a profile
// ---------------------------------------------------------------------

/// A line that can hold a top-level key: after trimming its end it is not
/// empty, no comment, not indented, and holds a `:`; its key and value.
pub open spec fn key_line(line: Seq<char>) -> Option<(Seq<char>, Seq<char>)> {
    let t = trim_end(line);
    if t.len() == 0 || t[0] == '#' || is_ascii_whitespace(t[0]) {
        None
    } else {
        split_once(t, ':')
    }
}

/// A value without surrounding white space and quotes.
pub open spec fn unquoted(v: Seq<char>) -> Seq<char> {
    trim_by(trim_by(trim(v), CharClass::Exactly('"')), CharClass::Exactly('\''))
}

/// The value of the first top-level line whose key is `key`.
pub open spec fn value_of_key(ls: Seq<Seq<char>>, key: Seq<char>) -> Option<Seq<char>>
    decreases ls.len(),
{
    if ls.len() == 0 {
        None
    } else {
        match key_line(ls[0]) {
            Some((k, v)) if trim(k) == key => Some(unquoted(v)),
            _ => value_of_key(ls.drop_first(), key),
        }
    }
}

/// The key and value of a line that can hold a top-level key.
fn line_key(line: &str) -> (r: Option<(String, String)>)
    ensures
        match r {
            Some((k, v)) => key_line(line@) == Some((k@, v@)),
            None => key_line(line@) is None,
        },
{
    let t = trim_end_class(line, CharClass::Whitespace);
    let cs = chars_of(t.as_str());
    if cs.len() == 0 || cs[0] == '#' || char_is_ascii_whitespace(cs[0]) {
        return None;
    }
    split_once_char(t.as_str(), ':')
}

/// The value of the top-level key `key` in YAML text, as a plain string.
pub fn top_level_value(text: &str, key: &str) -> (r: Option<String>)
    ensures
        match r {
            Some(v) => value_of_key(lines(text@), key@) == Some(v@),
            None => value_of_key(lines(text@), key@) is None,
        },
{
    let ls = split_lines(text);
    let mut i: usize = 0;
    assert(views(ls@).skip(0) == views(ls@));
    while i < ls.len()
        invariant
            i <= ls@.len(),
            views(ls@) == lines(text@),
            value_of_key(lines(text@), key@) == value_of_key(views(ls@).skip(i as int), key@),
        decreases ls@.len() - i,
    {
        let ghost rest = views(ls@).skip(i as int);
        assert(rest[0] == ls@[i as int]@);
        assert(rest.drop_first() == views(ls@).skip(i + 1));
        if let Some((k, v)) = line_key(ls[i].as_str()) {
            let tk = trim_str(k.as_str());
            if text_eq(tk.as_str(), key) {
                let a = trim_str(v.as_str());
                let b = trim_class(a.as_str(), CharClass::Exactly('"'));
                let c = trim_class(b.as_str(), CharClass::Exactly('\''));
                return Some(c);
            }
        }
        i += 1;
    }
    None
}

/// A top-level line that sets the controller's address or secret.
pub open spec fn runtime_key_line(line: Seq<char>) -> bool {
    match key_line(line) {
        Some((k, _)) => trim(k) == "external-controller"@ || trim(k) == "secret"@,
        None => false,
    }
}

/// The lines without those that set the controller's address or secret.
pub open spec fn without_runtime_keys(ls: Seq<Seq<char>>) -> Seq<Seq<char>>
    decreases ls.len(),
{
    if ls.len() == 0 {
        ls
    } else if runtime_key_line(ls.last()) {
        without_runtime_keys(ls.drop_last())
    } else {
        without_runtime_keys(ls.drop_last()).push(ls.last())
    }
}

/// The profile text without the lines that set the controller's address or
/// secret, which Starail sets itself.
pub fn strip_runtime_keys(text: &str) -> (r: String)
    ensures
        r@ == join(without_runtime_keys(lines(text@)), "\n"@),
{
    let ls = split_lines(text);
    let mut kept: Vec<String> = Vec::new();
    let mut i: usize = 0;
    while i < ls.len()
        invariant
            i <= ls@.len(),
            views(ls@) == lines(text@),
            views(kept@) == without_runtime_keys(views(ls@).take(i as int)),
        decreases ls@.len() - i,
    {
        let ghost upto = views(ls@).take(i + 1);
        assert(upto.drop_last() == views(ls@).take(i as int));
        assert(upto.last() == ls@[i as int]@);
        let runtime_key = match line_key(ls[i].as_str()) {
            Some((k, _)) => {
                let tk = trim_str(k.as_str());
                text_eq(tk.as_str(), "external-controller") || text_eq(tk.as_str(), "secret")
            },
            None => false,
        };
        if !runtime_key {
            let ghost before = kept@;
            kept.push(ls[i].clone());
            assert(views(kept@) =~= views(before).push(ls@[i as int]@));
        }
        i += 1;
    }
    assert(views(ls@).take(ls@.len() as int) == views(ls@));
    join_with(&kept, "\n")
}

// ---------------------------------------------------------------------
// The runtime config
// ---------------------------------------------------------------------

/// The error for a `mixed-port` value that is no port number, with its cause.
pub open spec fn port_error_text(value: Seq<char>) -> Seq<char> {
    "expected a numeric TCP port, got '"@ + value + "': "@ + parse_error_text(value, 0xFFFF)
}

/// A TCP port number written in decimal.
pub fn parse_port(value: &str) -> (r: Result<u16, String>)
    ensures
        match r {
            Ok(p) => parse_unsigned(value@, 0xFFFF) == Some(p as nat),
            Err(e) => parse_unsigned(value@, 0xFFFF) is None && e@ == port_error_text(value@),
        },
{
    match parse_u16_text(value) {
        Ok(p) => Ok(p),
        Err(cause) => Err(
            concat4("expected a numeric TCP port, got '", value, "': ", cause.as_str()),
        ),
    }
}

/// The port a profile sets with a top-level `mixed-port` key: `None` when it
/// sets none, `Err` with the error when the value is no port number.
pub open spec fn profile_port(text: Seq<char>) -> Option<Result<u16, Seq<char>>> {
    match value_of_key(lines(text), "mixed-port"@) {
        None => None,
        Some(v) => Some(
            match parse_unsigned(v, 0xFFFF) {
                Some(p) => Ok(p as u16),
                None => Err(port_error_text(v)),
            },
        ),
    }
}

/// The runtime config: the profile without its controller settings, ended by
/// a line feed, then Starail's settings: the mixed port unless the profile
/// sets one, the controller's address and its secret as a JSON string.
pub open spec fn runtime_text(
    text: Seq<char>,
    port_line: bool,
    port: u16,
    address: Seq<char>,
    secret: Seq<char>,
) -> Seq<char> {
    let body = join(without_runtime_keys(lines(text)), "\n"@);
    let ended = if ends_with(body, "\n"@) {
        body
    } else {
        body.push('\n')
    };
    ended + "\n# Starail runtime settings\n"@ + (if port_line {
        "mixed-port: "@ + decimal(port as nat) + "\n"@
    } else {
        Seq::empty()
    }) + "external-controller: "@ + address + "\n"@ + "secret: "@ + json_quoted(secret) + "\n"@
}

/// The secret of the config, empty when there is none.
pub open spec fn secret_of(config: AppConfig) -> Seq<char> {
    match config.controller_secret {
        Some(s) => s@,
        None => Seq::empty(),
    }
}

/// The runtime config for a profile, with the mixed port it uses: the
/// profile's own when it sets one, else the config's. `source` names the
/// profile in the error for a bad `mixed-port`.
pub fn runtime_config_text(text: &str, source: &str, config: &AppConfig) -> (r: Result<
    (String, u16),
    String,
>)
    ensures
        match profile_port(text@) {
            Some(Err(e)) => r matches Err(m) && m@ == "invalid mixed-port in "@ + source@ + ": "@
                + e,
            Some(Ok(p)) => r matches Ok((t, q)) && q == p && t@ == runtime_text(
                text@,
                false,
                p,
                config.controller_address@,
                secret_of(*config),
            ),
            None => r matches Ok((t, q)) && q == config.mixed_port && t@ == runtime_text(
                text@,
                true,
                config.mixed_port,
                config.controller_address@,
                secret_of(*config),
            ),
        },
{
    let profile_port: Option<u16> = match top_level_value(text, "mixed-port") {
        None => None,
        Some(v) => match parse_port(v.as_str()) {
            Ok(p) => Some(p),
            Err(e) => {
                return Err(concat4("invalid mixed-port in ", source, ": ", e.as_str()));
            },
        },
    };
    let port = match profile_port {
        Some(p) => p,
        None => config.mixed_port,
    };
    let mut rendered = strip_runtime_keys(text);
    if !ends_with_str(rendered.as_str(), "\n") {
        rendered = rendered.concat("\n");
    }
    rendered = rendered.concat("\n# Starail runtime settings\n");
    if profile_port.is_none() {
        let digits = decimal_string(port as u64);
        rendered = rendered.concat("mixed-port: ").concat(digits.as_str()).concat("\n");
    }
    rendered = rendered.concat("external-controller: ").concat(
        config.controller_address.as_str(),
    ).concat("\n");
    let secret = match &config.controller_secret {
        Some(s) => json_string(s.as_str()),
        None => json_string(""),
    };
    rendered = rendered.concat("secret: ").concat(secret.as_str()).concat("\n");
    proof {
        let body = join(without_runtime_keys(lines(text@)), "\n"@);
        assert(body.push('\n') == body + "\n"@) by {
            reveal_strlit("\n");
        }
        assert(""@ == Seq::<char>::empty()) by {
            reveal_strlit("");
        }
    }
    Ok((rendered, port))
}

// ---------------------------------------------------------------------
// The pid file and the log
// ---------------------------------------------------------------------

/// The pid written in the first line of a pid file.
pub open spec fn pid_of_text(text: Seq<char>) -> Option<u32> {
    let ls = lines(text);
    if ls.len() == 0 {
        None
    } else {
        match parse_unsigned(trim(ls[0]), 0xFFFF_FFFF) {
            Some(p) => Some(p as u32),
            None => None,
        }
    }
}

/// The pid written in a pid file's text.
pub fn pid_from_text(text: &str) -> (r: Option<u32>)
    ensures
        r == pid_of_text(text@),
{
    let ls = split_lines(text);
    if ls.len() == 0 {
        return None;
    }
    assert(lines(text@)[0] == ls@[0]@);
    let t = trim_str(ls[0].as_str());
    parse_u32(t.as_str())
}

/// The text of a pid file.
pub fn pid_file_text(pid: u32) -> (r: String)
    ensures
        r@ == decimal(pid as nat) + "\n"@,
{
    decimal_string(pid as u64).concat("\n")
}

/// The last `n` lines of a text, each ended by a line feed.
pub open spec fn tail_of(text: Seq<char>, n: nat) -> Seq<char> {
    if n == 0 {
        Seq::empty()
    } else {
        let ls = lines(text);
        let k: nat = if ls.len() < n {
            ls.len()
        } else {
            n
        };
        let out = join(ls.skip(ls.len() - k), "\n"@);
        if out.len() > 0 {
            out + "\n"@
        } else {
            out
        }
    }
}

/// The last `n` lines of a text.
pub fn tail_text(text: &str, n: usize) -> (r: String)
    ensures
        r@ == tail_of(text@, n as nat),
{
    if n == 0 {
        return String::new();
    }
    let ls = split_lines(text);
    let k = if ls.len() < n {
        ls.len()
    } else {
        n
    };
    let start = ls.len() - k;
    let mut tail: Vec<String> = Vec::new();
    let mut i: usize = start;
    while i < ls.len()
        invariant
            start <= i <= ls@.len(),
            views(tail@) == views(ls@).subrange(start as int, i as int),
        decreases ls@.len() - i,
    {
        kept_push(&mut tail, ls[i].clone());
        assert(views(ls@).subrange(start as int, i + 1) == views(ls@).subrange(
            start as int,
            i as int,
        ).push(ls@[i as int]@));
        i += 1;
    }
    assert(views(ls@).subrange(start as int, ls@.len() as int) == views(ls@).skip(start as int));
    let out = join_with(&tail, "\n");
    if !out.as_str().is_empty() {
        out.concat("\n")
    } else {
        out
    }
}

fn kept_push(v: &mut Vec<String>, s: String)
    ensures
        views(final(v)@) == views(old(v)@).push(s@),
{
    v.push(s);
    assert(views(v@) =~= views(old(v)@).push(s@));
}

// ---------------------------------------------------------------------
// Starting and stopping
// ---------------------------------------------------------------------

/// The error for starting a core that runs already.
pub open spec fn already_running_text(pid: Option<u32>) -> Seq<char> {
    "mihomo is already running with pid "@ + decimal(
        match pid {
            Some(p) => p as nat,
            None => 0,
        },
    ) + ". Use 'starail restart' or 'starail stop' first."@
}

/// The error for starting a core that runs already, with its pid (0 when
/// the pid file cannot be read).
pub fn already_running_message(pid: Option<u32>) -> (r: String)
    ensures
        r@ == already_running_text(pid),
{
    let p: u64 = match pid {
        Some(p) => p as u64,
        None => 0,
    };
    concat3(
        "mihomo is already running with pid ",
        decimal_string(p).as_str(),
        ". Use 'starail restart' or 'starail stop' first.",
    )
}

/// The profile that `start` without a config runs: the active one.
pub fn start_profile(active: Option<&str>) -> (r: Result<String, String>)
    ensures
        match active {
            Some(a) => r matches Ok(n) && n@ == a@,
            None => r matches Err(e) && e@
                == "no active profile selected. Run 'starail profile use <name>' or 'starail start -c <config>'"@,
        },
{
    match active {
        Some(a) => Ok(owned(a)),
        None => Err(
            owned(
                "no active profile selected. Run 'starail profile use <name>' or 'starail start -c <config>'",
            ),
        ),
    }
}

/// The config that `start` runs, or why it does not: a core that runs
/// already (with its pid, if it could be read) is not started again; a
/// config that was given is run as it is; otherwise the active profile's
/// config, which needs an active profile and its file
/// (`active_file_exists`).
pub fn start_config(
    paths: &crate::paths::StarailPaths,
    running: bool,
    running_pid: Option<u32>,
    config: Option<&str>,
    active: Option<&str>,
    active_file_exists: bool,
) -> (r: Result<String, String>)
    ensures
        running ==> (r matches Err(e) && e@ == already_running_text(running_pid)),
        !running ==> match config {
            Some(c) => r matches Ok(s) && s@ == c@,
            None => match active {
                None => r matches Err(e) && e@
                    == "no active profile selected. Run 'starail profile use <name>' or 'starail start -c <config>'"@,
                Some(a) => if active_file_exists {
                    r matches Ok(s) && s@ == crate::paths::path_join(paths.profile_dir@, a@ + ".yaml"@)
                } else {
                    r matches Err(e) && e@ == "active profile '"@ + a@
                        + "' is missing. Run 'starail profile list'."@
                },
            },
        },
{
    if running {
        return Err(already_running_message(running_pid));
    }
    match config {
        Some(c) => Ok(owned(c)),
        None => {
            let name = start_profile(active)?;
            if active_file_exists {
                Ok(paths.profile_config_path(name.as_str()))
            } else {
                Err(missing_active_profile_message(name.as_str()))
            }
        },
    }
}

/// The error for an active profile whose config is missing.
pub fn missing_active_profile_message(name: &str) -> (r: String)
    ensures
        r@ == "active profile '"@ + name@ + "' is missing. Run 'starail profile list'."@,
{
    concat3("active profile '", name, "' is missing. Run 'starail profile list'.")
}

/// The error for a config file that does not exist.
pub fn config_missing_message(path: &str) -> (r: String)
    ensures
        r@ == "config file does not exist: "@ + path@,
{
    concat2("config file does not exist: ", path)
}

/// The error for a log that does not exist yet.
pub fn log_missing_message(path: &str) -> (r: String)
    ensures
        r@ == "log file does not exist yet: "@ + path@,
{
    concat2("log file does not exist yet: ", path)
}

/// The line written to the log when the core starts.
pub fn start_log_line(timestamp: u64, core: &str, runtime: &str) -> (r: String)
    ensures
        r@ == "\n["@ + decimal(timestamp as nat) + "] starting "@ + core@ + " with "@ + runtime@
            + "\n"@,
{
    concat5("\n[", decimal_string(timestamp).as_str(), "] starting ", core, " with ").concat(
        runtime,
    ).concat("\n")
}

/// The error for a core that exited while starting, with its recent log.
pub fn startup_exit_message(recent_logs: &str) -> (r: String)
    ensures
        r@ == "mihomo exited during startup. Recent logs:\n"@ + recent_logs@,
{
    concat2("mihomo exited during startup. Recent logs:\n", recent_logs)
}

/// The lines printed once the core started.
pub fn started_lines(language: Language, pid: u32, runtime: &str, log: &str) -> (r: Vec<String>)
    ensures
        views(r@) == seq![
            message_text(language, Message::MihomoStartedWithPid) + " "@ + decimal(pid as nat),
            message_text(language, Message::RuntimeConfigLabel) + " "@ + runtime@,
            message_text(language, Message::LogFileLabel) + " "@ + log@,
        ],
{
    let mut r: Vec<String> = Vec::new();
    r.push(
        concat3(
            language.tr(Message::MihomoStartedWithPid),
            " ",
            decimal_string(pid as u64).as_str(),
        ),
    );
    r.push(concat3(language.tr(Message::RuntimeConfigLabel), " ", runtime));
    r.push(concat3(language.tr(Message::LogFileLabel), " ", log));
    assert(views(r@) =~= seq![r@[0]@, r@[1]@, r@[2]@]);
    r
}

/// How often a stopping core is checked before it is killed.
pub const STOP_CHECKS: u32 = 10;

/// What follows a check of whether a core that was asked to stop still runs.
#[derive(Clone, Copy, Debug, PartialEq, Eq, Structural)]
pub enum StopAction {
    /// It stopped.
    Stopped,
    /// Pause, then check again.
    Recheck,
    /// Pause, then kill it.
    Kill,
}

/// What follows the `checks`-th check, which found the core `alive` or not:
/// it has stopped, or is checked again up to `STOP_CHECKS` times, then killed.
pub fn stop_after_check(checks: u32, alive: bool) -> (r: StopAction)
    requires
        1 <= checks <= STOP_CHECKS,
    ensures
        !alive ==> r == StopAction::Stopped,
        alive && checks < STOP_CHECKS ==> r == StopAction::Recheck,
        alive && checks == STOP_CHECKS ==> r == StopAction::Kill,
{
    if !alive {
        StopAction::Stopped
    } else if checks < STOP_CHECKS {
        StopAction::Recheck
    } else {
        StopAction::Kill
    }
}

// ---------------------------------------------------------------------
// Laws
// ---------------------------------------------------------------------

/// The pid that `start` writes to the pid file is the pid read back from it.
pub proof fn lemma_pid_round_trip(pid: u32)
    ensures
        pid_of_text(decimal(pid as nat) + "\n"@) == Some(pid),
{
    let d = decimal(pid as nat);
    crate::number::lemma_decimal_digits(pid as nat);
    assert forall|i: int| 0 <= i < d.len() implies #[trigger] d[i] != '\n' && d[i] != '\r'
        && !crate::text::is_whitespace(d[i]) by {
        assert(crate::number::is_digit(d[i]));
    }
    assert(crate::lines::plain_line(d));
    crate::lines::lemma_lines_join(seq![d]);
    assert(join(seq![d], "\n"@) == d);
    crate::text::lemma_trim_start_skip(d, CharClass::Whitespace, 0);
    crate::text::lemma_trim_end_take(d, CharClass::Whitespace, d.len() as int);
    assert(d.skip(0) == d);
    assert(d.take(d.len() as int) == d);
    assert(trim(d) == d);
    assert(crate::number::unsigned_digits(d) == d);
}

/// No line kept from a profile sets the controller's address or secret.
pub proof fn lemma_stripped_lines_free_of_runtime_keys(ls: Seq<Seq<char>>)
    ensures
        forall|i: int|
            0 <= i < without_runtime_keys(ls).len() ==> !runtime_key_line(
                #[trigger] without_runtime_keys(ls)[i],
            ),
    decreases ls.len(),
{
    if ls.len() > 0 {
        let prev = without_runtime_keys(ls.drop_last());
        lemma_stripped_lines_free_of_runtime_keys(ls.drop_last());
        let cur = without_runtime_keys(ls);
        assert forall|i: int| 0 <= i < cur.len() implies !runtime_key_line(#[trigger] cur[i]) by {
            if i < prev.len() {
                assert(cur[i] == prev[i]);
            }
        }
    }
}


/// The lines of a text hold no line feed.
proof fn lemma_lines_no_newline(s: Seq<char>)
    ensures
        forall|i: int| 0 <= i < lines(s).len() ==> no_newline(#[trigger] lines(s)[i]),
    decreases s.len(),
{
    if s.len() > 0 {
        crate::text::lemma_index_of_char_found(s, '\n');
        match crate::text::index_of_char(s, '\n') {
            Some(i) => {
                let rest = s.skip(i + 1);
                lemma_lines_no_newline(rest);
                let first = crate::lines::strip_cr(s.take(i));
                assert forall|k: int| 0 <= k < first.len() implies #[trigger] first[k] != '\n' by {
                    assert(first[k] == s[k]);
                }
                let ls = lines(s);
                assert(ls == seq![first] + lines(rest));
                assert forall|j: int| 0 <= j < ls.len() implies no_newline(#[trigger] ls[j]) by {
                    if j > 0 {
                        assert(ls[j] == lines(rest)[j - 1]);
                    }
                }
            },
            None => {
                assert(lines(s) == seq![s]);
            },
        }
    }
}

/// Keeping lines keeps a property that every line has: here, that it holds
/// no line feed.
proof fn lemma_kept_no_newline(ls: Seq<Seq<char>>)
    requires
        forall|i: int| 0 <= i < ls.len() ==> no_newline(#[trigger] ls[i]),
    ensures
        forall|i: int|
            0 <= i < without_runtime_keys(ls).len() ==> no_newline(
                #[trigger] without_runtime_keys(ls)[i],
            ),
    decreases ls.len(),
{
    if ls.len() > 0 {
        let prev = without_runtime_keys(ls.drop_last());
        assert forall|i: int| 0 <= i < ls.drop_last().len() implies no_newline(
            #[trigger] ls.drop_last()[i],
        ) by {
            assert(ls.drop_last()[i] == ls[i]);
        }
        lemma_kept_no_newline(ls.drop_last());
        let cur = without_runtime_keys(ls);
        assert forall|i: int| 0 <= i < cur.len() implies no_newline(#[trigger] cur[i]) by {
            if i < prev.len() {
                assert(cur[i] == prev[i]);
            } else {
                assert(cur[i] == ls.last());
            }
        }
    }
}

/// A trailing carriage return does not change whether a line sets a
/// runtime key: it is trimmed before the key is read.
proof fn lemma_runtime_key_line_strip_cr(line: Seq<char>)
    ensures
        runtime_key_line(crate::lines::strip_cr(line)) == runtime_key_line(line),
{
    if line.len() > 0 && line.last() == '\r' {
        assert(crate::text::is_whitespace('\r'));
        assert(trim_end(line) == trim_end(line.drop_last()));
    }
}

/// Lines without a line feed, joined with line feeds and split again: no
/// line of the result sets a runtime key when none of the pieces did.
proof fn lemma_joined_lines_free_of_runtime_keys(ks: Seq<Seq<char>>)
    requires
        forall|i: int| 0 <= i < ks.len() ==> no_newline(#[trigger] ks[i]),
        forall|i: int| 0 <= i < ks.len() ==> !runtime_key_line(#[trigger] ks[i]),
    ensures
        forall|j: int|
            0 <= j < lines(join(ks, "\n"@)).len() ==> !runtime_key_line(
                #[trigger] lines(join(ks, "\n"@))[j],
            ),
    decreases ks.len(),
{
    reveal_strlit("\n");
    if ks.len() == 1 {
        let a = ks[0];
        assert(join(ks, "\n"@) == a);
        crate::text::lemma_index_of_char(a, '\n', a.len() as int);
        if a.len() > 0 {
            assert(lines(a) == seq![a]);
        }
    } else if ks.len() >= 2 {
        let a = ks[0];
        let rest = ks.drop_first();
        assert forall|i: int| 0 <= i < rest.len() implies no_newline(#[trigger] rest[i]) by {
            assert(rest[i] == ks[i + 1]);
        }
        assert forall|i: int| 0 <= i < rest.len() implies !runtime_key_line(#[trigger] rest[i]) by {
            assert(rest[i] == ks[i + 1]);
        }
        lemma_joined_lines_free_of_runtime_keys(rest);
        crate::lines::lemma_join_front(ks, "\n"@);
        let tail = join(rest, "\n"@);
        let s = join(ks, "\n"@);
        assert(s == a + "\n"@ + tail);
        assert forall|k: int| 0 <= k < a.len() implies #[trigger] s[k] != '\n' by {
            assert(s[k] == a[k]);
        }
        assert(s[a.len() as int] == '\n');
        crate::text::lemma_index_of_char(s, '\n', a.len() as int);
        assert(s.take(a.len() as int) =~= a);
        assert(s.skip(a.len() + 1int) =~= tail);
        let ls = lines(s);
        assert(ls == seq![crate::lines::strip_cr(a)] + lines(tail));
        lemma_runtime_key_line_strip_cr(a);
        assert forall|j: int| 0 <= j < ls.len() implies !runtime_key_line(#[trigger] ls[j]) by {
            if j > 0 {
                assert(ls[j] == lines(tail)[j - 1]);
            }
        }
    }
}

/// Lines none of which sets a runtime key have no value for either key.
proof fn lemma_no_runtime_key_value(ls: Seq<Seq<char>>, key: Seq<char>)
    requires
        forall|i: int| 0 <= i < ls.len() ==> !runtime_key_line(#[trigger] ls[i]),
        key == "secret"@ || key == "external-controller"@,
    ensures
        value_of_key(ls, key) is None,
    decreases ls.len(),
{
    if ls.len() > 0 {
        assert(!runtime_key_line(ls[0]));
        assert forall|i: int| 0 <= i < ls.drop_first().len() implies !runtime_key_line(
            #[trigger] ls.drop_first()[i],
        ) by {
            assert(ls.drop_first()[i] == ls[i + 1]);
        }
        lemma_no_runtime_key_value(ls.drop_first(), key);
    }
}

/// Once a profile's controller address and secret are stripped, looking
/// either key up in what is left finds nothing.
pub proof fn lemma_stripped_text_has_no_runtime_keys(text: Seq<char>)
    ensures
        value_of_key(lines(join(without_runtime_keys(lines(text)), "\n"@)), "secret"@) is None,
        value_of_key(
            lines(join(without_runtime_keys(lines(text)), "\n"@)),
            "external-controller"@,
        ) is None,
{
    let kept = without_runtime_keys(lines(text));
    lemma_lines_no_newline(text);
    lemma_kept_no_newline(lines(text));
    lemma_stripped_lines_free_of_runtime_keys(lines(text));
    lemma_joined_lines_free_of_runtime_keys(kept);
    let again = lines(join(kept, "\n"@));
    lemma_no_runtime_key_value(again, "secret"@);
    lemma_no_runtime_key_value(again, "external-controller"@);
}

} // verus!
