//! Where the server's files are, how the server process is started, what is
//! shown of its output, and which old logs are pruned.

use vstd::prelude::*;
use crate::logging::{detected_level, painted, LogColorizer};
use crate::master::{MasterPatterns, MASTER_TIMEOUT_PATTERN};
use crate::pattern::regex_is_match;
use crate::text::{chars_of, joined_path, path_join};

verus! {

/// The server executable's file name on Unix.
pub const SERVER_EXECUTABLE: &'static str = "tes3mp-server";
/// The server executable's file name on Windows.
pub const SERVER_EXECUTABLE_WINDOWS: &'static str = "tes3mp-server.exe";
/// The batch launcher tried on Windows when the executable is missing.
pub const SERVER_LAUNCHER_WINDOWS: &'static str = "tes3mp-server.bat";
/// The server's bundled libraries, inside the server directory.
pub const SERVER_LIBRARY_DIR: &'static str = "lib";
/// Where the LuaJIT build is downloaded from.
pub const LUAJIT_URL: &'static str = "https://github.com/DreamWeave-MP/luajit2/releases/download/Stable-CI/LuaJIT-Linux.7z";
/// Where the LuaJIT build is downloaded and extracted to.
pub const LUAJIT_DIR: &'static str = "/tmp/container";
/// The downloaded archive's file name.
pub const LUAJIT_ARCHIVE_NAME: &'static str = "LuaJIT-Linux.7z";
/// The shared library inside the extracted archive.
pub const LUAJIT_LIBRARY: &'static str = "bin/libluajit.so";
/// Seconds the LuaJIT download may take.
pub const LUAJIT_DOWNLOAD_TIMEOUT_SECS: u64 = 30;
/// The configuration directory of the server, inside the server directory.
pub const OPENMW_CONFIG_DIR: &'static str = ".config/openmw";
/// The log directory inside the configuration directory.
pub const LOGS_DIR: &'static str = "logs";
/// Logs older than this many seconds (seven days) are pruned.
pub const PRUNE_AGE_SECS: u64 = 604800;

/// The server executable inside the server directory `path` (Unix).
pub fn get_tes3mp_executable(path: &str) -> (r: String)
    ensures
        r@ == joined_path(path@, SERVER_EXECUTABLE@),
{
    path_join(path, SERVER_EXECUTABLE)
}

/// Whether `c` separates path components on Windows.
pub open spec fn is_windows_separator(c: char) -> bool {
    c == '\\' || c == '/'
}

/// Whether `base` is a bare drive prefix such as `C:`.
pub open spec fn is_bare_drive(base: Seq<char>) -> bool {
    base.len() == 2 && base[1] == ':' && (('a' <= base[0] && base[0] <= 'z') || ('A' <= base[0]
        && base[0] <= 'Z'))
}

/// Whether `p` starts with the verbatim prefix `\\?\`, under which Windows
/// rebuilds a joined path from its components.
pub open spec fn has_verbatim_prefix(p: Seq<char>) -> bool {
    p.len() >= 4 && p[0] == '\\' && p[1] == '\\' && p[2] == '?' && p[3] == '\\'
}

/// `base` extended by a plain file name as `Path::join` does on Windows for
/// a `base` without a verbatim prefix: a `\` goes between them unless `base`
/// is empty, ends in a separator or is a bare drive prefix.
pub open spec fn windows_joined(base: Seq<char>, name: Seq<char>) -> Seq<char> {
    if base.len() == 0 || is_windows_separator(base.last()) || is_bare_drive(base) {
        base + name
    } else {
        base + seq!['\\'] + name
    }
}

fn windows_join_file(base: &str, name: &str) -> (r: String)
    requires
        !has_verbatim_prefix(base@),
    ensures
        r@ == windows_joined(base@, name@),
{
    let bv = chars_of(base);
    let mut out = String::from_str(base);
    let bare_drive = bv.len() == 2 && bv[1] == ':' && (('a' <= bv[0] && bv[0] <= 'z') || ('A' <= bv[0]
        && bv[0] <= 'Z'));
    if !(bv.len() == 0 || bv[bv.len() - 1] == '\\' || bv[bv.len() - 1] == '/' || bare_drive) {
        out.append("\\");
        proof {
            reveal_strlit("\\");
        }
    }
    out.append(name);
    out
}

/// The Windows executable and batch launcher inside the server directory
/// `path` (a path without a verbatim prefix).
pub fn windows_executable_candidates(path: &str) -> (r: (String, String))
    requires
        !has_verbatim_prefix(path@),
    ensures
        r.0@ == windows_joined(path@, SERVER_EXECUTABLE_WINDOWS@),
        r.1@ == windows_joined(path@, SERVER_LAUNCHER_WINDOWS@),
{
    (windows_join_file(path, SERVER_EXECUTABLE_WINDOWS), windows_join_file(path, SERVER_LAUNCHER_WINDOWS))
}

/// The launcher chosen on Windows among the executable `exe` and the batch
/// launcher `bat`: the executable when it exists, else the batch launcher
/// when that exists, else the executable anyway.
pub fn choose_windows_launcher(exe: String, exe_exists: bool, bat: String, bat_exists: bool) -> (r: String)
    ensures
        r@ == (if !exe_exists && bat_exists {
            bat@
        } else {
            exe@
        }),
{
    if !exe_exists && bat_exists {
        bat
    } else {
        exe
    }
}

/// The executable used on Windows for the server directory `path` (a path
/// without a verbatim prefix; see `choose_windows_launcher`). `exe_exists`
/// and `bat_exists` tell whether the two candidates exist.
pub fn windows_executable(path: &str, exe_exists: bool, bat_exists: bool) -> (r: String)
    requires
        !has_verbatim_prefix(path@),
    ensures
        r@ == (if !exe_exists && bat_exists {
            windows_joined(path@, SERVER_LAUNCHER_WINDOWS@)
        } else {
            windows_joined(path@, SERVER_EXECUTABLE_WINDOWS@)
        }),
{
    let (exe, bat) = windows_executable_candidates(path);
    choose_windows_launcher(exe, exe_exists, bat, bat_exists)
}

/// Whether `path` starts with the verbatim prefix `\\?\`.
pub fn is_verbatim_path(path: &str) -> (r: bool)
    ensures
        r == has_verbatim_prefix(path@),
{
    let v = chars_of(path);
    v.len() >= 4 && v[0] == '\\' && v[1] == '\\' && v[2] == '?' && v[3] == '\\'
}

/// The path of the downloaded LuaJIT archive inside the directory `dir`.
pub fn luajit_archive_path(dir: &str) -> (r: String)
    ensures
        r@ == joined_path(dir@, LUAJIT_ARCHIVE_NAME@),
{
    path_join(dir, LUAJIT_ARCHIVE_NAME)
}

/// The LuaJIT library extracted into the directory `dir`.
pub fn luajit_library_path(dir: &str) -> (r: String)
    ensures
        r@ == joined_path(dir@, LUAJIT_LIBRARY@),
{
    path_join(dir, LUAJIT_LIBRARY)
}

/// How the server process is started.
pub struct SpawnPlan {
    /// The executable.
    pub program: String,
    /// The working directory: the server directory.
    pub working_dir: String,
    /// `LD_LIBRARY_PATH`: the server's library directory.
    pub library_path: String,
    /// `LD_PRELOAD`, when a LuaJIT build is used.
    pub preload: Option<String>,
}

/// The start of the server in `tes3mp_path` (Unix): its executable, run in
/// the server directory with the bundled libraries on the library path and,
/// when a LuaJIT build was extracted into `luajit_dir`, that library preloaded.
pub fn plan_spawn(tes3mp_path: &str, luajit_dir: Option<&str>) -> (r: SpawnPlan)
    ensures
        r.program@ == joined_path(tes3mp_path@, SERVER_EXECUTABLE@),
        r.working_dir@ == tes3mp_path@,
        r.library_path@ == joined_path(tes3mp_path@, SERVER_LIBRARY_DIR@),
        match luajit_dir {
            Some(d) => r.preload matches Some(p) && p@ == joined_path(d@, LUAJIT_LIBRARY@),
            None => r.preload is None,
        },
{
    let program = get_tes3mp_executable(tes3mp_path);
    let library_path = path_join(tes3mp_path, SERVER_LIBRARY_DIR);
    let preload = match luajit_dir {
        Some(d) => Some(luajit_library_path(d)),
        None => None,
    };
    SpawnPlan { program, working_dir: String::from_str(tes3mp_path), library_path, preload }
}

/// The configuration directory and its log directory inside the server directory.
pub fn log_directories(path: &str) -> (r: (String, String))
    ensures
        r.0@ == joined_path(path@, OPENMW_CONFIG_DIR@),
        r.1@ == joined_path(joined_path(path@, OPENMW_CONFIG_DIR@), LOGS_DIR@),
{
    let config = path_join(path, OPENMW_CONFIG_DIR);
    let logs = path_join(config.as_str(), LOGS_DIR);
    (config, logs)
}

/// Whether a log last modified `elapsed_secs` seconds and `elapsed_nanos`
/// nanoseconds ago is older than seven days and is pruned.
pub fn is_log_expired(elapsed_secs: u64, elapsed_nanos: u32) -> (r: bool)
    requires
        elapsed_nanos < 1_000_000_000,
    ensures
        r == (elapsed_secs * 1_000_000_000 + elapsed_nanos > PRUNE_AGE_SECS * 1_000_000_000),
{
    elapsed_secs > PRUNE_AGE_SECS || (elapsed_secs == PRUNE_AGE_SECS && elapsed_nanos > 0)
}

/// One line of server output, as it is shown.
pub struct OutputLine {
    /// The text written out: coloured by severity on a terminal, as is otherwise.
    pub text: String,
    /// Whether the line reports trouble with the master server.
    pub master_issue: bool,
}

/// How a line of server output is shown, and whether it reports trouble
/// with the master server.
pub fn process_output_line(colorizer: &LogColorizer, patterns: &MasterPatterns, line: &str, is_tty: bool) -> (r: OutputLine)
    ensures
        r.master_issue == regex_is_match(MASTER_TIMEOUT_PATTERN@, line@),
        r.text@ == (if is_tty {
            painted(detected_level(line@), line@)
        } else {
            line@
        }),
{
    let master_issue = patterns.check_master_timeout(line);
    let text = if is_tty {
        colorizer.colorize(line)
    } else {
        String::from_str(line)
    };
    OutputLine { text, master_issue }
}

/// How the server process ended, as reported.
#[derive(Debug, Clone, Copy, PartialEq, Eq, Structural)]
pub enum ProcessExit {
    /// It ended after a shutdown was requested.
    Graceful,
    /// It ended on its own.
    Unexpected,
}

/// The server's exit is graceful exactly when a shutdown had been requested.
pub fn classify_exit(shutting_down: bool) -> (r: ProcessExit)
    ensures
        r == (if shutting_down {
            ProcessExit::Graceful
        } else {
            ProcessExit::Unexpected
        }),
{
    if shutting_down {
        ProcessExit::Graceful
    } else {
        ProcessExit::Unexpected
    }
}

} // verus!
