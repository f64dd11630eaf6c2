//! Reading the server's port and hostname out of its default configuration file.

use vstd::prelude::*;
use crate::pattern::{
    compile_regex, compiled_from, regex_capture_group, regex_compiles, regex_first_group,
    require_compiled, PatternError,
};
use crate::text::{
    is_whitespace, joined_path, parse_u16, parsed_u16, path_join, trim_removes_only_surrounding_whitespace,
    trim_text, trimmed,
};

verus! {

/// Name of the configuration file inside the server directory.
pub const CONFIG_FILE_NAME: &'static str = "tes3mp-server-default.cfg";
/// A line `port = <digits>`; group 1 is the digits.
pub const PORT_PATTERN: &'static str = r"(?m)^port\s*=\s*(\d+)";
/// A line `hostname = <text>`; group 1 is the rest of the line.
pub const HOSTNAME_PATTERN: &'static str = r"(?m)^hostname\s*=\s*(.+)";
/// Hostname reported when the configuration names none.
pub const UNKNOWN_HOSTNAME: &'static str = "Unknown";

/// Port and hostname from the text captured for them: no port, or one that
/// is not a 16-bit number, gives nothing; a missing hostname reads `Unknown`;
/// a present one is trimmed.
pub open spec fn config_of_captures(port: Option<Seq<char>>, hostname: Option<Seq<char>>) -> Option<(u16, Seq<char>)> {
    match port {
        None => None,
        Some(p) => match parsed_u16(p) {
            None => None,
            Some(n) => Some(
                (
                    n,
                    match hostname {
                        Some(h) => trimmed(h),
                        None => UNKNOWN_HOSTNAME@,
                    },
                ),
            ),
        },
    }
}

/// Port and hostname a configuration text declares: the first `port` line
/// and the first `hostname` line.
pub open spec fn parsed_config(content: Seq<char>) -> Option<(u16, Seq<char>)> {
    config_of_captures(
        regex_first_group(PORT_PATTERN@, content, 1),
        regex_first_group(HOSTNAME_PATTERN@, content, 1),
    )
}

/// The path of the configuration file inside the server directory `dir`.
pub fn config_path(dir: &str) -> (r: String)
    ensures
        r@ == joined_path(dir@, CONFIG_FILE_NAME@),
{
    path_join(dir, CONFIG_FILE_NAME)
}

/// Port and hostname from the captured texts (see `config_of_captures`).
pub fn config_from_captures(port: Option<String>, hostname: Option<String>) -> (r: Option<(u16, String)>)
    ensures
        r.deep_view() == config_of_captures(port.deep_view(), hostname.deep_view()),
{
    match port {
        None => None,
        Some(p) => match parse_u16(p.as_str()) {
            None => None,
            Some(n) => {
                let name = match hostname {
                    Some(h) => trim_text(h.as_str()),
                    None => String::from_str(UNKNOWN_HOSTNAME),
                };
                Some((n, name))
            },
        },
    }
}

/// The compiled configuration patterns.
pub struct ConfigPatterns {
    port: regex::Regex,
    hostname: regex::Regex,
}

impl ConfigPatterns {
    #[verifier::type_invariant]
    spec fn compiled_from_patterns(self) -> bool {
        &&& compiled_from(self.port, PORT_PATTERN@)
        &&& compiled_from(self.hostname, HOSTNAME_PATTERN@)
    }

    /// Compiles the port and hostname patterns.
    pub fn new() -> (r: Result<ConfigPatterns, PatternError>)
        ensures
            r is Ok <==> regex_compiles(PORT_PATTERN@) && regex_compiles(HOSTNAME_PATTERN@),
            r matches Err(e) ==> e.pattern@ == PORT_PATTERN@ || e.pattern@ == HOSTNAME_PATTERN@,
    {
        let port = compile_regex(PORT_PATTERN);
        let hostname = compile_regex(HOSTNAME_PATTERN);
        Self::from_compiled(port, hostname)
    }

    /// Builds the pattern set from the outcome of compiling both patterns;
    /// the port pattern's failure is reported first.
    pub(crate) fn from_compiled(
        port: Result<regex::Regex, regex::Error>,
        hostname: Result<regex::Regex, regex::Error>,
    ) -> (r: Result<ConfigPatterns, PatternError>)
        requires
            port matches Ok(re) ==> compiled_from(re, PORT_PATTERN@),
            hostname matches Ok(re) ==> compiled_from(re, HOSTNAME_PATTERN@),
        ensures
            r is Ok <==> (port is Ok && hostname is Ok),
            port is Err ==> (r matches Err(e) && e.pattern@ == PORT_PATTERN@),
            port is Ok && hostname is Err ==> (r matches Err(e) && e.pattern@ == HOSTNAME_PATTERN@),
    {
        let port = match require_compiled(port, PORT_PATTERN) {
            Ok(re) => re,
            Err(e) => return Err(e),
        };
        let hostname = match require_compiled(hostname, HOSTNAME_PATTERN) {
            Ok(re) => re,
            Err(e) => return Err(e),
        };
        Ok(ConfigPatterns { port, hostname })
    }

    /// The port and hostname that `content` declares (see `parsed_config`).
    pub fn parse(&self, content: &str) -> (r: Option<(u16, String)>)
        ensures
            r.deep_view() == parsed_config(content@),
    {
        proof {
            use_type_invariant(self);
        }
        let port = regex_capture_group(&self.port, content, 1);
        let hostname = regex_capture_group(&self.hostname, content, 1);
        config_from_captures(port, hostname)
    }
}

/// The port and hostname that a configuration text declares; nothing when
/// the text declares no usable port or a pattern fails to compile.
pub fn parse_config_text(content: &str) -> (r: Option<(u16, String)>)
    ensures
        regex_compiles(PORT_PATTERN@) && regex_compiles(HOSTNAME_PATTERN@) ==> r.deep_view()
            == parsed_config(content@),
        !(regex_compiles(PORT_PATTERN@) && regex_compiles(HOSTNAME_PATTERN@)) ==> r is None,
{
    match ConfigPatterns::new() {
        Ok(patterns) => patterns.parse(content),
        Err(_) => None,
    }
}

/// Whether the configured port differs from the one the server is started on.
pub fn config_port_conflict(config_port: u16, server_port: u16) -> (r: bool)
    ensures
        r == (config_port != server_port),
{
    config_port != server_port
}

} // verus!

verus! {

/// The port read from a configuration is the captured number, as
/// `u16::from_str` reads it; the hostname is the captured text with only the
/// whitespace at its two ends removed (one contiguous stretch of it, nothing
/// cut from inside or from the ends beyond whitespace); with no hostname
/// line it is `Unknown`; and a port that is not a 16-bit number gives nothing.
pub proof fn configured_hostname_is_the_trimmed_capture(port: Seq<char>, hostname: Option<Seq<char>>)
    ensures
        parsed_u16(port) is None ==> config_of_captures(Some(port), hostname) is None,
        config_of_captures(None, hostname) is None,
        parsed_u16(port) matches Some(n) ==> config_of_captures(Some(port), hostname) matches Some((m, name))
            && m == n && match hostname {
            None => name == UNKNOWN_HOSTNAME@,
            Some(h) => name == trimmed(h) && exists|i: int, j: int|
                {
                    &&& 0 <= i <= j <= h.len()
                    &&& name == h.subrange(i, j)
                    &&& forall|k: int| 0 <= k < i ==> #[trigger] is_whitespace(h[k])
                    &&& forall|k: int| j <= k < h.len() ==> #[trigger] is_whitespace(h[k])
                    &&& i < j ==> !is_whitespace(h[i]) && !is_whitespace(h[j - 1])
                },
        },
{
    if let Some(h) = hostname {
        trim_removes_only_surrounding_whitespace(h);
    }
}

} // verus!
