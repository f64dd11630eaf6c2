//! Severity detection and terminal colouring of the server's output lines.

use vstd::prelude::*;
use crate::pattern::{
    anchor_free,
    compile_regex, compiled_from, regex_compiles, regex_is_match, regex_matches, require_compiled,
    PatternError,
};

verus! {

/// Lines holding `ERROR` or `FATAL` in any case, bracketed or not.
pub const ERROR_PATTERN: &'static str = r"(?i)\[?ERROR\]?|\[?FATAL\]?";
/// Lines holding `WARNING` or `WARN` in any case, bracketed or not.
pub const WARN_PATTERN: &'static str = r"(?i)\[?WARNING\]?|\[?WARN\]?";
/// Lines holding `INFO` in any case, bracketed or not.
pub const INFO_PATTERN: &'static str = r"(?i)\[?INFO\]?";
/// Lines holding `DEBUG` in any case, bracketed or not.
pub const DEBUG_PATTERN: &'static str = r"(?i)\[?DEBUG\]?";

/// Severity detected in a line of server output.
#[derive(Debug, Clone, Copy, PartialEq, Eq, Structural)]
pub enum LogLevel {
    Error,
    Warn,
    Info,
    Debug,
    Unknown,
}

/// The foreground colours the colouriser uses.
#[derive(Debug, Clone, Copy, PartialEq, Eq, Structural)]
pub enum TermColor {
    Red,
    Yellow,
    Green,
    Blue,
}

/// The ANSI escape sequence that switches the foreground to `color`.
pub open spec fn ansi_prefix(color: TermColor) -> Seq<char> {
    match color {
        TermColor::Red => seq!['\x1b', '[', '3', '1', 'm'],
        TermColor::Yellow => seq!['\x1b', '[', '3', '3', 'm'],
        TermColor::Green => seq!['\x1b', '[', '3', '2', 'm'],
        TermColor::Blue => seq!['\x1b', '[', '3', '4', 'm'],
    }
}

/// The ANSI escape sequence that resets all styles.
pub open spec fn ansi_reset() -> Seq<char> {
    seq!['\x1b', '[', '0', 'm']
}

/// Calls `ansiterm::Color::prefix` on the colour and renders it. Claimed: the
/// rendering is the foreground escape sequence of `ansi_prefix`, as
/// `Style::write_prefix` writes it for a style with only a foreground colour.
#[verifier::external_body]
fn color_prefix(color: TermColor) -> (s: String)
    ensures
        s@ == ansi_prefix(color),
{
    let c = match color {
        TermColor::Red => ansiterm::Color::Red,
        TermColor::Yellow => ansiterm::Color::Yellow,
        TermColor::Green => ansiterm::Color::Green,
        TermColor::Blue => ansiterm::Color::Blue,
    };
    format!("{}", c.prefix())
}

/// Calls `ansiterm::Color::suffix` on the colour and renders it. Claimed: the
/// rendering is the reset sequence, as `Style::write_suffix` writes it for
/// any style that is not plain.
#[verifier::external_body]
fn color_suffix(color: TermColor) -> (s: String)
    ensures
        s@ == ansi_reset(),
{
    let c = match color {
        TermColor::Red => ansiterm::Color::Red,
        TermColor::Yellow => ansiterm::Color::Yellow,
        TermColor::Green => ansiterm::Color::Green,
        TermColor::Blue => ansiterm::Color::Blue,
    };
    format!("{}", c.suffix())
}

/// The level given by the first pattern that matches, in the order
/// error, warning, info, debug.
pub open spec fn level_of_matches(error: bool, warn: bool, info: bool, debug: bool) -> LogLevel {
    if error {
        LogLevel::Error
    } else if warn {
        LogLevel::Warn
    } else if info {
        LogLevel::Info
    } else if debug {
        LogLevel::Debug
    } else {
        LogLevel::Unknown
    }
}

/// The level the colouriser detects in `line`.
pub open spec fn detected_level(line: Seq<char>) -> LogLevel {
    level_of_matches(
        regex_is_match(ERROR_PATTERN@, line),
        regex_is_match(WARN_PATTERN@, line),
        regex_is_match(INFO_PATTERN@, line),
        regex_is_match(DEBUG_PATTERN@, line),
    )
}

/// The colour a level is shown in; unknown lines stay uncoloured.
pub open spec fn level_color(level: LogLevel) -> Option<TermColor> {
    match level {
        LogLevel::Error => Some(TermColor::Red),
        LogLevel::Warn => Some(TermColor::Yellow),
        LogLevel::Info => Some(TermColor::Green),
        LogLevel::Debug => Some(TermColor::Blue),
        LogLevel::Unknown => None,
    }
}

/// `line` as shown for `level`: wrapped in the level's colour and a reset,
/// or unchanged when the level has no colour.
pub open spec fn painted(level: LogLevel, line: Seq<char>) -> Seq<char> {
    match level_color(level) {
        Some(c) => ansi_prefix(c) + line + ansi_reset(),
        None => line,
    }
}

/// Level from the outcome of the four pattern tests; the first that matched wins.
pub fn level_from_matches(error: bool, warn: bool, info: bool, debug: bool) -> (r: LogLevel)
    ensures
        r == level_of_matches(error, warn, info, debug),
{
    if error {
        LogLevel::Error
    } else if warn {
        LogLevel::Warn
    } else if info {
        LogLevel::Info
    } else if debug {
        LogLevel::Debug
    } else {
        LogLevel::Unknown
    }
}

/// Colour of a level, `None` for `Unknown`.
pub fn color_of_level(level: LogLevel) -> (r: Option<TermColor>)
    ensures
        r == level_color(level),
{
    match level {
        LogLevel::Error => Some(TermColor::Red),
        LogLevel::Warn => Some(TermColor::Yellow),
        LogLevel::Info => Some(TermColor::Green),
        LogLevel::Debug => Some(TermColor::Blue),
        LogLevel::Unknown => None,
    }
}

/// Shows `line` in the colour of `level`.
pub fn paint(level: LogLevel, line: &str) -> (r: String)
    ensures
        r@ == painted(level, line@),
{
    match color_of_level(level) {
        Some(c) => {
            let mut out = color_prefix(c);
            out.append(line);
            let suffix = color_suffix(c);
            out.append(suffix.as_str());
            out
        },
        None => String::from_str(line),
    }
}

/// Classifies server output lines by severity and colours them for a terminal.
pub struct LogColorizer {
    error_regex: regex::Regex,
    warn_regex: regex::Regex,
    info_regex: regex::Regex,
    debug_regex: regex::Regex,
}

impl Clone for LogColorizer {
    fn clone(&self) -> (r: Self) {
        proof {
            use_type_invariant(self);
        }
        LogColorizer {
            error_regex: self.error_regex.clone(),
            warn_regex: self.warn_regex.clone(),
            info_regex: self.info_regex.clone(),
            debug_regex: self.debug_regex.clone(),
        }
    }
}

impl LogColorizer {
    /// Each regex was compiled from its level's pattern.
    #[verifier::type_invariant]
    spec fn compiled_from_patterns(self) -> bool {
        &&& compiled_from(self.error_regex, ERROR_PATTERN@)
        &&& compiled_from(self.warn_regex, WARN_PATTERN@)
        &&& compiled_from(self.info_regex, INFO_PATTERN@)
        &&& compiled_from(self.debug_regex, DEBUG_PATTERN@)
    }

    /// Compiles the four level patterns.
    pub fn new() -> (r: Result<LogColorizer, PatternError>)
        ensures
            r is Ok <==> regex_compiles(ERROR_PATTERN@) && regex_compiles(WARN_PATTERN@)
                && regex_compiles(INFO_PATTERN@) && regex_compiles(DEBUG_PATTERN@),
            r matches Err(e) ==> e.pattern@ == ERROR_PATTERN@ || e.pattern@ == WARN_PATTERN@
                || e.pattern@ == INFO_PATTERN@ || e.pattern@ == DEBUG_PATTERN@,
    {
        let error = compile_regex(ERROR_PATTERN);
        let warn = compile_regex(WARN_PATTERN);
        let info = compile_regex(INFO_PATTERN);
        let debug = compile_regex(DEBUG_PATTERN);
        Self::from_compiled(error, warn, info, debug)
    }

    /// Builds a colouriser from the outcome of compiling the four level
    /// patterns: the first refused pattern, in level order, is the error.
    pub(crate) fn from_compiled(
        error: Result<regex::Regex, regex::Error>,
        warn: Result<regex::Regex, regex::Error>,
        info: Result<regex::Regex, regex::Error>,
        debug: Result<regex::Regex, regex::Error>,
    ) -> (r: Result<LogColorizer, PatternError>)
        requires
            error matches Ok(re) ==> compiled_from(re, ERROR_PATTERN@),
            warn matches Ok(re) ==> compiled_from(re, WARN_PATTERN@),
            info matches Ok(re) ==> compiled_from(re, INFO_PATTERN@),
            debug matches Ok(re) ==> compiled_from(re, DEBUG_PATTERN@),
        ensures
            r is Ok <==> (error is Ok && warn is Ok && info is Ok && debug is Ok),
            error is Err ==> (r matches Err(e) && e.pattern@ == ERROR_PATTERN@),
            error is Ok && warn is Err ==> (r matches Err(e) && e.pattern@ == WARN_PATTERN@),
            error is Ok && warn is Ok && info is Err ==> (r matches Err(e) && e.pattern@ == INFO_PATTERN@),
            error is Ok && warn is Ok && info is Ok && debug is Err ==> (r matches Err(e)
                && e.pattern@ == DEBUG_PATTERN@),
    {
        let error_regex = match require_compiled(error, ERROR_PATTERN) {
            Ok(re) => re,
            Err(e) => return Err(e),
        };
        let warn_regex = match require_compiled(warn, WARN_PATTERN) {
            Ok(re) => re,
            Err(e) => return Err(e),
        };
        let info_regex = match require_compiled(info, INFO_PATTERN) {
            Ok(re) => re,
            Err(e) => return Err(e),
        };
        let debug_regex = match require_compiled(debug, DEBUG_PATTERN) {
            Ok(re) => re,
            Err(e) => return Err(e),
        };
        Ok(LogColorizer { error_regex, warn_regex, info_regex, debug_regex })
    }

    /// The severity of `line`: the first of error, warning, info and debug
    /// whose pattern matches it, else `Unknown`. Text added before or after
    /// the line never makes it less severe.
    pub fn detect_level(&self, line: &str) -> (r: LogLevel)
        ensures
            r == detected_level(line@),
            forall|x: Seq<char>, y: Seq<char>|
                severity_rank(#[trigger] detected_level(x + line@ + y)) <= severity_rank(r),
    {
        proof {
            use_type_invariant(self);
            level_patterns_anchor_free();
        }
        // Later patterns are only tried while no earlier one matched; once one
        // has, the later answers cannot change the level.
        let error = regex_matches(&self.error_regex, line);
        let warn = !error && regex_matches(&self.warn_regex, line);
        let info = !error && !warn && regex_matches(&self.info_regex, line);
        let debug = !error && !warn && !info && regex_matches(&self.debug_regex, line);
        level_from_matches(error, warn, info, debug)
    }

    /// `line` wrapped in the colour of its severity (red, yellow, green, blue)
    /// and a reset; a line of unknown severity comes back unchanged. The
    /// coloured line is never less severe than the line.
    pub fn colorize(&self, line: &str) -> (r: String)
        ensures
            r@ == painted(detected_level(line@), line@),
            severity_rank(detected_level(r@)) <= severity_rank(detected_level(line@)),
    {
        let level = self.detect_level(line);
        let r = paint(level, line);
        proof {
            match level_color(level) {
                Some(c) => {
                    let x = ansi_prefix(c);
                    let y = ansi_reset();
                    assert(r@ == x + line@ + y);
                    assert(severity_rank(detected_level(x + line@ + y)) <= severity_rank(level));
                },
                None => {
                    assert(r@ == line@);
                },
            }
        }
        r
    }
}

} // verus!

verus! {

/// Colouring never alters a line's text: a line of unknown severity comes
/// back as it is, and any other is the same text between a five-character
/// colour switch and a four-character reset.
pub proof fn painting_keeps_text(level: LogLevel, line: Seq<char>)
    ensures
        level == LogLevel::Unknown ==> painted(level, line) == line,
        level != LogLevel::Unknown ==> {
            &&& painted(level, line).len() == line.len() + 9
            &&& painted(level, line).subrange(5, 5 + line.len() as int) == line
            &&& painted(level, line).subrange(0, 5) == ansi_prefix(level_color(level)->0)
            &&& painted(level, line).subrange(5 + line.len() as int, 9 + line.len() as int) == ansi_reset()
        },
{
    if level != LogLevel::Unknown {
        let c = level_color(level)->0;
        let p = painted(level, line);
        assert(p == ansi_prefix(c) + line + ansi_reset());
        assert(p.subrange(5, 5 + line.len() as int) =~= line);
        assert(p.subrange(0, 5) =~= ansi_prefix(c));
        assert(p.subrange(5 + line.len() as int, 9 + line.len() as int) =~= ansi_reset());
    }
}

} // verus!

verus! {

/// How severe a level is: 0 for errors up to 4 for lines of unknown severity.
pub open spec fn severity_rank(level: LogLevel) -> int {
    match level {
        LogLevel::Error => 0,
        LogLevel::Warn => 1,
        LogLevel::Info => 2,
        LogLevel::Debug => 3,
        LogLevel::Unknown => 4,
    }
}

/// The level decision never makes a line less severe when more patterns
/// match: if every pattern matching one line also matches another, the other
/// line's level is at least as severe.
pub proof fn level_is_monotone_in_matches(
    e1: bool, w1: bool, i1: bool, d1: bool,
    e2: bool, w2: bool, i2: bool, d2: bool,
)
    requires
        e1 ==> e2,
        w1 ==> w2,
        i1 ==> i2,
        d1 ==> d2,
    ensures
        severity_rank(level_of_matches(e2, w2, i2, d2)) <= severity_rank(level_of_matches(e1, w1, i1, d1)),
{
}

} // verus!

verus! {

/// The four level patterns have no anchors or word-boundary assertions.
proof fn level_patterns_anchor_free()
    ensures
        anchor_free(ERROR_PATTERN@),
        anchor_free(WARN_PATTERN@),
        anchor_free(INFO_PATTERN@),
        anchor_free(DEBUG_PATTERN@),
{
    reveal_strlit(r"(?i)\[?ERROR\]?|\[?FATAL\]?");
    reveal_strlit(r"(?i)\[?WARNING\]?|\[?WARN\]?");
    reveal_strlit(r"(?i)\[?INFO\]?");
    reveal_strlit(r"(?i)\[?DEBUG\]?");
    reveal_with_fuel(anchor_free, 40);
}

} // verus!

verus! {

/// A line's level follows the level patterns alone: it is an error exactly
/// when the error pattern matches, a warning exactly when the warning
/// pattern matches and the error pattern does not, and so on down to debug;
/// a line that none of the four patterns matches is of unknown severity.
pub proof fn level_follows_the_patterns(line: Seq<char>)
    ensures
        detected_level(line) == LogLevel::Error <==> regex_is_match(ERROR_PATTERN@, line),
        detected_level(line) == LogLevel::Warn <==> !regex_is_match(ERROR_PATTERN@, line)
            && regex_is_match(WARN_PATTERN@, line),
        detected_level(line) == LogLevel::Info <==> !regex_is_match(ERROR_PATTERN@, line)
            && !regex_is_match(WARN_PATTERN@, line) && regex_is_match(INFO_PATTERN@, line),
        detected_level(line) == LogLevel::Debug <==> !regex_is_match(ERROR_PATTERN@, line)
            && !regex_is_match(WARN_PATTERN@, line) && !regex_is_match(INFO_PATTERN@, line)
            && regex_is_match(DEBUG_PATTERN@, line),
        detected_level(line) == LogLevel::Unknown <==> !regex_is_match(ERROR_PATTERN@, line)
            && !regex_is_match(WARN_PATTERN@, line) && !regex_is_match(INFO_PATTERN@, line)
            && !regex_is_match(DEBUG_PATTERN@, line),
{
}

} // verus!
