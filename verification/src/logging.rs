//! Resolution of the verbosity configuration and one-time installation of
//! the process-wide diagnostic sink.

use vstd::prelude::*;

use tracing_subscriber::filter::EnvFilter;
use tracing_subscriber::layer::SubscriberExt;
use tracing_subscriber::util::SubscriberInitExt;

verus! {

/// Why an installation attempt failed. Both conditions are recoverable:
/// the caller may continue running without diagnostics.
#[derive(Clone, Copy, Debug, PartialEq, Eq, Structural)]
pub enum InstallError {
    /// The one-time installation attempt lost: the process already holds a
    /// diagnostic sink, or a `log` logger that the sink's log bridge would
    /// have replaced.
    AlreadyInstalled,
    /// The resolved configuration string was not accepted as filter
    /// directives.
    InvalidFilterSyntax,
}

/// The fixed default verbosity configuration, used when the environment
/// provides none.
pub open spec fn default_filter() -> Seq<char> {
    "debug"@
}

/// The configuration that `resolve_filter` returns: the environment-provided
/// string verbatim when it is present and non-empty, the default otherwise.
pub open spec fn resolved_filter(env_value: Option<Seq<char>>) -> Seq<char> {
    match env_value {
        Some(s) => if s.len() > 0 {
            s
        } else {
            default_filter()
        },
        None => default_filter(),
    }
}

/// Resolves the verbosity configuration from the value of the environment
/// variable (`None` when it is unset). Never fails: an absent or empty value
/// is the normal case handled by the default.
pub fn resolve_filter(env_value: Option<String>) -> (r: String)
    ensures
        r@ == resolved_filter(env_value.deep_view()),
{
    match env_value {
        Some(s) => {
            if !s.as_str().is_empty() {
                s
            } else {
                String::from_str("debug")
            }
        },
        None => String::from_str("debug"),
    }
}

/// Declares `tracing_subscriber`'s directive-based filter type, so that a
/// value of it can be carried from parsing to installation. The value is
/// opaque here: nothing is stated about its inside.
#[verifier::external_type_specification]
#[verifier::external_body]
pub struct ExEnvFilter(EnvFilter);

/// Whether a configuration string parses as valid filter directives.
pub uninterp spec fn filter_parses(directives: Seq<char>) -> bool;

/// Whether `c` has the Unicode `White_Space` property: the characters that
/// `str::trim` removes.
pub open spec fn is_space_char(c: char) -> bool {
    c == ' ' || c == '\t' || c == '\n' || c == '\u{b}' || c == '\u{c}' || c == '\r'
        || c == '\u{85}' || c == '\u{a0}' || c == '\u{1680}' || c == '\u{2000}' || c == '\u{2001}'
        || c == '\u{2002}' || c == '\u{2003}' || c == '\u{2004}' || c == '\u{2005}'
        || c == '\u{2006}' || c == '\u{2007}' || c == '\u{2008}' || c == '\u{2009}'
        || c == '\u{200a}' || c == '\u{2028}' || c == '\u{2029}' || c == '\u{202f}'
        || c == '\u{205f}' || c == '\u{3000}'
}

/// Whether `c` is an ASCII character.
pub open spec fn char_ascii(c: char) -> bool {
    (c as u32) < 128
}

/// Scan of a directive string from position `i` onward: false exactly when
/// some comma-separated segment from there on begins with a whitespace
/// character and holds a non-ASCII character. `ws_led` says whether the
/// segment that position `i` lies in begins with whitespace.
pub open spec fn safe_scan(s: Seq<char>, i: int, ws_led: bool) -> bool
    decreases s.len() - i,
{
    if i < 0 || i >= s.len() {
        true
    } else if s[i] == ',' {
        safe_scan(s, i + 1, i + 1 < s.len() && is_space_char(s[i + 1]))
    } else if ws_led && !char_ascii(s[i]) {
        false
    } else {
        safe_scan(s, i + 1, ws_led)
    }
}

/// The directive strings on which the outside parser is known to return
/// normally: every comma-separated segment that begins with a whitespace
/// character is all-ASCII. The parser trims each segment but slices the
/// untrimmed segment with the trimmed offsets; those offsets stay on
/// character boundaries when nothing is trimmed from the segment's front,
/// or when each of the segment's bytes is one character. The condition is
/// sufficient, not exact: a whitespace-led segment with a non-ASCII
/// character is left out even where the offsets happen to stay on
/// boundaries.
pub open spec fn safe_directives(s: Seq<char>) -> bool {
    safe_scan(s, 0, s.len() > 0 && is_space_char(s[0]))
}

/// Whether `c` has the Unicode `White_Space` property.
fn is_space(c: char) -> (r: bool)
    ensures
        r == is_space_char(c),
{
    c == ' ' || c == '\t' || c == '\n' || c == '\u{b}' || c == '\u{c}' || c == '\r'
        || c == '\u{85}' || c == '\u{a0}' || c == '\u{1680}' || c == '\u{2000}' || c == '\u{2001}'
        || c == '\u{2002}' || c == '\u{2003}' || c == '\u{2004}' || c == '\u{2005}'
        || c == '\u{2006}' || c == '\u{2007}' || c == '\u{2008}' || c == '\u{2009}'
        || c == '\u{200a}' || c == '\u{2028}' || c == '\u{2029}' || c == '\u{202f}'
        || c == '\u{205f}' || c == '\u{3000}'
}

/// Whether `c` is an ASCII character.
fn char_is_ascii(c: char) -> (r: bool)
    ensures
        r == char_ascii(c),
{
    (c as u32) < 128
}

/// Decides `safe_directives` for a directive string.
fn is_safe_directives(directives: &str) -> (r: bool)
    ensures
        r == safe_directives(directives@),
{
    let n = directives.unicode_len();
    let mut ws_led: bool = if n > 0 {
        is_space(directives.get_char(0))
    } else {
        false
    };
    let mut i: usize = 0;
    while i < n
        invariant
            n == directives@.len(),
            i <= n,
            safe_directives(directives@) == safe_scan(directives@, i as int, ws_led),
        decreases n - i,
    {
        let c = directives.get_char(i);
        if c == ',' {
            ws_led = if i + 1 < n {
                is_space(directives.get_char(i + 1))
            } else {
                false
            };
        } else if ws_led && !char_is_ascii(c) {
            return false;
        }
        i += 1;
    }
    true
}

/// Relies on `tracing_subscriber::filter::EnvFilter::try_new`: it parses the
/// directive string and succeeds or fails depending on that string alone.
/// Some strings outside `safe_directives` make its directive parser panic (a
/// trimmed offset then falls inside a multibyte character), so the
/// precondition leaves all of them out.
#[verifier::external_body]
fn try_parse_filter(directives: &str) -> (r: Option<EnvFilter>)
    requires
        safe_directives(directives@),
    ensures
        r is Some <==> filter_parses(directives@),
{
    EnvFilter::try_new(directives).ok()
}

/// Relies on `tracing_subscriber::registry`, `SubscriberExt::with`,
/// `fmt::layer` (recording target and line number) and
/// `SubscriberInitExt::try_init`: composes the filtering and formatting
/// stages and attempts to set the result as the process-wide default
/// subscriber. `try_init` fails when a default subscriber has already been
/// set in this process, or when the `log` bridge (on by default) finds a
/// `log` logger already installed — in that last case the subscriber itself
/// was set before the failure. All of that is global state, so nothing is
/// promised of the outcome.
#[verifier::external_body]
fn try_install_pipeline(filter: EnvFilter) -> (installed: bool) {
    tracing_subscriber::registry()
        .with(filter)
        .with(tracing_subscriber::fmt::layer().with_target(true).with_line_number(true))
        .try_init()
        .is_ok()
}

/// Builds the diagnostic pipeline from the resolved configuration and
/// attempts to install it as the process-wide sink.
///
/// Returns `Err(InvalidFilterSyntax)` exactly when the resolved
/// configuration is not accepted: it falls outside `safe_directives` (a
/// whitespace-led comma-separated segment holds a non-ASCII character, a
/// shape on which the parser is not known to return normally) or it does
/// not parse. Otherwise the attempt is made, and a process that already
/// holds a sink or a logger yields `Err(AlreadyInstalled)`.
pub fn install(env_value: Option<String>) -> (r: Result<(), InstallError>)
    ensures
        r == Err::<(), InstallError>(InstallError::InvalidFilterSyntax) <==> !safe_directives(
            resolved_filter(env_value.deep_view()),
        ) || !filter_parses(resolved_filter(env_value.deep_view())),
{
    let directives = resolve_filter(env_value);
    if !is_safe_directives(directives.as_str()) {
        return Err(InstallError::InvalidFilterSyntax);
    }
    match try_parse_filter(directives.as_str()) {
        Some(filter) => {
            if try_install_pipeline(filter) {
                Ok(())
            } else {
                Err(InstallError::AlreadyInstalled)
            }
        },
        None => Err(InstallError::InvalidFilterSyntax),
    }
}

/// The message reported when a diagnostic sink already exists.
pub open spec fn already_installed_message() -> Seq<char> {
    "a global diagnostic sink is already installed"@
}

/// The message reported when the configuration does not parse.
pub open spec fn invalid_filter_message() -> Seq<char> {
    "the filter configuration does not parse as directives"@
}

/// Installs the diagnostic pipeline, reporting a failure as a message
/// string instead of a structured error.
pub fn init_tracer(env_value: Option<String>) -> (r: Result<(), String>)
    ensures
        (r matches Err(m) && m@ == invalid_filter_message()) <==> !safe_directives(
            resolved_filter(env_value.deep_view()),
        ) || !filter_parses(resolved_filter(env_value.deep_view())),
        r matches Err(m) ==> m@ == invalid_filter_message() || m@ == already_installed_message(),
{
    proof {
        reveal_strlit("a global diagnostic sink is already installed");
        reveal_strlit("the filter configuration does not parse as directives");
        assert(already_installed_message().len() != invalid_filter_message().len());
    }
    match install(env_value) {
        Ok(()) => Ok(()),
        Err(InstallError::AlreadyInstalled) => Err(
            String::from_str("a global diagnostic sink is already installed"),
        ),
        Err(InstallError::InvalidFilterSyntax) => Err(
            String::from_str("the filter configuration does not parse as directives"),
        ),
    }
}

} // verus!
