//! The release check: whether to look for a newer release, and whether one
//! found is newer than the running one.
//!
//! The surrounding program reads the environment, the terminal and the
//! on-disk state file and fetches release data; the decisions over those
//! plain values are made here.  A check runs at most once per day, only in
//! an interactive terminal, never under a continuous-integration runner,
//! and never when the opt-out variable is set.

use vstd::prelude::*;

use crate::text::{starts_with_spec, string_chars, trim_chars, trim_spec};

verus! {

/// Information about a release: its version, where it lives, and when it
/// was published, in seconds relative to the epoch.
pub struct ReleaseInfo {
    /// The release's version string.
    pub version: String,
    /// Where the release can be found.
    pub url: String,
    /// When the release was published, in seconds relative to the epoch.
    pub published_at: i64,
}

/// What the state file records: when the last check ran and the newest
/// release it saw.
pub struct StateEntry {
    /// When the last check ran, in seconds relative to the epoch.
    pub checked_for_update_at: i64,
    /// The newest release the last check saw.
    pub latest_release: ReleaseInfo,
}

/// Whether the process runs under a continuous-integration runner, judged
/// from the values of the `CI`, `BUILD_NUMBER` and `RUN_ID` environment
/// variables: any of them non-empty means it does.
pub fn is_ci(ci: &str, build_number: &str, run_id: &str) -> (r: bool)
    ensures
        r == (ci@.len() > 0 || build_number@.len() > 0 || run_id@.len() > 0),
{
    !ci.is_empty() || !build_number.is_empty() || !run_id.is_empty()
}

/// Whether a release check may run at all: not opted out, not under a
/// continuous-integration runner, and both output streams on a terminal.
pub fn should_check_for_update(
    no_update_notifier: &str,
    ci: bool,
    stdout_tty: bool,
    stderr_tty: bool,
) -> (r: bool)
    ensures
        r == (no_update_notifier@.len() == 0 && !ci && stdout_tty && stderr_tty),
{
    no_update_notifier.is_empty() && !ci && stdout_tty && stderr_tty
}

/// Whether the throttle allows a check now: it does when no state was
/// recorded, or when the last check lies at least a day in the past.
pub fn check_is_due(state: &Option<StateEntry>, now: i64) -> (r: bool)
    ensures
        r == match state {
            Option::Some(s) => now - s.checked_for_update_at >= 86400,
            Option::None => true,
        },
{
    match state {
        Some(s) => (now as i128) - (s.checked_for_update_at as i128) >= 86400,
        None => true,
    }
}

/// Whether the version `v` orders strictly above `w` under the version
/// comparison the release check uses, with incomparable pairs counting as
/// equal.
pub uninterp spec fn version_gt(v: Seq<char>, w: Seq<char>) -> bool;

/// Relies on `version_compare::compare`: the ordering depends on the two
/// version strings alone; a pair it cannot compare counts as equal.
#[verifier::external_body]
fn version_greater_than(v: &str, w: &str) -> (r: bool)
    ensures
        r == version_gt(v@, w@),
{
    match version_compare::compare(v, w) {
        Ok(c) => matches!(c, version_compare::Cmp::Gt),
        Err(()) => false,
    }
}

/// The release to announce: the fetched one exactly when its version
/// orders above the running one.
pub fn evaluate_release(latest: ReleaseInfo, current_version: &str) -> (r: Option<ReleaseInfo>)
    ensures
        r is Some <==> version_gt(latest.version@, current_version@),
        r is Some ==> r->0 == latest,
{
    if version_greater_than(latest.version.as_str(), current_version) {
        Some(latest)
    } else {
        None
    }
}

/// Whether the release was published within the last day.
pub fn is_recent_release(now: i64, published_at: i64) -> (r: bool)
    ensures
        r == (now - published_at < 86400),
{
    (now as i128) - (published_at as i128) < 86400
}

/// Whether the running binary lives under the package manager's prefix:
/// its path must begin with the trimmed prefix followed by `/bin`.
pub fn is_under_homebrew(binary_path: &str, brew_prefix_output: &str) -> (r: bool)
    ensures
        r == starts_with_spec(binary_path@, trim_spec(brew_prefix_output@) + "/bin"@),
{
    let out = string_chars(brew_prefix_output);
    let mut prefix = trim_chars(&out);
    crate::text::push_str_chars(&mut prefix, "/bin");
    let path = string_chars(binary_path);
    crate::text::chars_start_with(&path, &prefix)
}

} // verus!
