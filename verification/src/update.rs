//! What an invocation may do about updates, and what a release found on
//! GitHub means for this version.
//!
//! What an invocation is allowed to do about updates is decided up front by
//! [`UpdatePolicy`], not by the check itself: a batch invocation must never
//! stop on a prompt, a running workflow must never replace the binary
//! executing it, and a caller that opted out must not see an outbound request
//! at all. Asking GitHub, prompting and installing are the caller's part.

use vstd::prelude::*;
use vstd::string::*;

use crate::script::{trim, trim_range};
use crate::text::{all_digits, digits_value, push_signed, signed_decimal, to_chars};

verus! {

/// What this invocation may do about an available update.
#[derive(Debug, Clone, Copy, PartialEq, Eq, Structural)]
pub enum UpdatePolicy {
    /// Do nothing at all: not even the version probe, so no network traffic.
    Disabled,
    /// Probe and report an available update, but never prompt and never install.
    NotifyOnly,
    /// Probe, prompt, and install if the user agrees.
    Interactive,
}

/// The facts about one invocation that decide its [`UpdatePolicy`].
#[derive(Debug, Clone, Copy, PartialEq, Eq, Structural)]
pub struct UpdateContext {
    /// `--no-update` was passed.
    pub no_update_flag: bool,
    /// One of the opt-out variables (`SILVA_NO_UPDATE_CHECK`, `NO_UPDATE`,
    /// `CI`) is set to something other than `0`/empty/`false`.
    pub opted_out_by_env: bool,
    /// Output is machine-readable, so human text would corrupt the stream.
    pub json: bool,
    /// Stdin is a terminal, so there is somebody to answer a prompt.
    pub stdin_is_tty: bool,
    /// This invocation is about to run a workflow.
    pub is_workflow_run: bool,
}

impl UpdateContext {
    /// The context of an invocation, from its flags and from what the caller
    /// read of the environment and of stdin.
    pub fn new(
        no_update_flag: bool,
        json: bool,
        is_workflow_run: bool,
        opted_out_by_env: bool,
        stdin_is_tty: bool,
    ) -> (r: Self)
        ensures
            r == (UpdateContext { no_update_flag, opted_out_by_env, json, stdin_is_tty, is_workflow_run }),
    {
        Self { no_update_flag, opted_out_by_env, json, stdin_is_tty, is_workflow_run }
    }
}

/// The policy for a context.
pub open spec fn spec_resolve(ctx: UpdateContext) -> UpdatePolicy {
    if ctx.no_update_flag || ctx.opted_out_by_env || ctx.json || !ctx.stdin_is_tty {
        UpdatePolicy::Disabled
    } else if ctx.is_workflow_run {
        UpdatePolicy::NotifyOnly
    } else {
        UpdatePolicy::Interactive
    }
}

/// A workflow run never installs: the version that starts a workflow is the
/// version that finishes it.
pub proof fn law_workflow_run_never_installs(ctx: UpdateContext)
    requires
        ctx.is_workflow_run,
    ensures
        spec_resolve(ctx) != UpdatePolicy::Interactive,
{
}

/// Each opt-out disables the check on its own, and so does anything that
/// cannot answer a prompt: a piped run is disabled, not merely unprompted.
pub proof fn law_opt_outs_disable(ctx: UpdateContext)
    requires
        ctx.no_update_flag || ctx.opted_out_by_env || ctx.json || !ctx.stdin_is_tty,
    ensures
        spec_resolve(ctx) == UpdatePolicy::Disabled,
{
}

/// Only an invocation on a terminal that opted out of nothing and runs no
/// workflow may prompt and install.
pub proof fn law_interactive_only_for_a_terminal_start(ctx: UpdateContext)
    requires
        spec_resolve(ctx) == UpdatePolicy::Interactive,
    ensures
        ctx.stdin_is_tty && !ctx.no_update_flag && !ctx.opted_out_by_env && !ctx.json
            && !ctx.is_workflow_run,
{
}

impl UpdatePolicy {
    /// Decides what an invocation may do about updates.
    ///
    /// Anything that cannot answer a prompt gets [`UpdatePolicy::Disabled`]: a
    /// non-TTY stdin is not an interlocutor, and reading a piped stdin as
    /// consent is how a scripted run ended up trying to overwrite itself
    /// mid-workflow. A workflow run that *could* prompt still only gets
    /// [`UpdatePolicy::NotifyOnly`]: the version that starts a workflow should
    /// be the version that finishes it.
    pub fn resolve(ctx: UpdateContext) -> (r: Self)
        ensures
            r == spec_resolve(ctx),
    {
        if ctx.no_update_flag || ctx.opted_out_by_env || ctx.json || !ctx.stdin_is_tty {
            Self::Disabled
        } else if ctx.is_workflow_run {
            Self::NotifyOnly
        } else {
            Self::Interactive
        }
    }
}

/// The ASCII lower-case form of a character; others are unchanged.
pub open spec fn ascii_lower(c: char) -> char {
    if 'A' <= c && c <= 'Z' {
        ((c as u32) + 32) as char
    } else {
        c
    }
}

/// `s` equals `word` when ASCII letters are compared without case.
pub open spec fn eq_ignore_ascii_case(s: Seq<char>, word: Seq<char>) -> bool {
    s.len() == word.len() && forall|i: int| 0 <= i < s.len() ==> ascii_lower(#[trigger] s[i]) == ascii_lower(word[i])
}

/// An opt-out variable's value switches the check off: once trimmed, it is not
/// empty, not `0`, and not `false` in any case.
pub open spec fn opts_out(value: Seq<char>) -> bool {
    let t = trim(value);
    t.len() > 0 && t != "0"@ && !eq_ignore_ascii_case(t, "false"@)
}

fn lower(c: char) -> (r: char)
    ensures
        r == ascii_lower(c),
{
    if 'A' <= c && c <= 'Z' {
        char_of((c as u32) + 32)
    } else {
        c
    }
}

fn char_of(n: u32) -> (r: char)
    requires
        97 <= n <= 122,
    ensures
        r == n as char,
{
    if n == 97 { 'a' } else if n == 98 { 'b' } else if n == 99 { 'c' } else if n == 100 { 'd' }
    else if n == 101 { 'e' } else if n == 102 { 'f' } else if n == 103 { 'g' } else if n == 104 { 'h' }
    else if n == 105 { 'i' } else if n == 106 { 'j' } else if n == 107 { 'k' } else if n == 108 { 'l' }
    else if n == 109 { 'm' } else if n == 110 { 'n' } else if n == 111 { 'o' } else if n == 112 { 'p' }
    else if n == 113 { 'q' } else if n == 114 { 'r' } else if n == 115 { 's' } else if n == 116 { 't' }
    else if n == 117 { 'u' } else if n == 118 { 'v' } else if n == 119 { 'w' } else if n == 120 { 'x' }
    else if n == 121 { 'y' } else { 'z' }
}

/// Whether `cs[a..b]` equals `word` when ASCII letters are compared without
/// case.
pub(crate) fn range_eq_ignore_ascii_case(cs: &Vec<char>, a: usize, b: usize, word: &str) -> (r: bool)
    requires
        a <= b <= cs.len(),
    ensures
        r == eq_ignore_ascii_case(cs@.subrange(a as int, b as int), word@),
{
    let w = to_chars(word);
    let ghost t = cs@.subrange(a as int, b as int);
    if b - a != w.len() {
        return false;
    }
    let mut i: usize = 0;
    while i < w.len()
        invariant
            a <= b <= cs.len(),
            b - a == w.len(),
            w@ == word@,
            t == cs@.subrange(a as int, b as int),
            i <= w.len(),
            forall|j: int| 0 <= j < i ==> ascii_lower(#[trigger] t[j]) == ascii_lower(w@[j]),
        decreases w.len() - i,
    {
        if lower(cs[a + i]) != lower(w[i]) {
            assert(ascii_lower(t[i as int]) != ascii_lower(word@[i as int]));
            return false;
        }
        i = i + 1;
    }
    true
}

/// Whether an opt-out variable's value switches the update check off.
pub fn opt_out_value(value: &str) -> (r: bool)
    ensures
        r == opts_out(value@),
{
    let cs = to_chars(value);
    let (a, b) = trim_range(&cs, 0, cs.len());
    proof {
        assert(cs@.subrange(0, cs.len() as int) =~= value@);
    }
    if b == a {
        return false;
    }
    let zero = b - a == 1 && cs[a] == '0';
    proof {
        let t = cs@.subrange(a as int, b as int);
        reveal_strlit("0");
        assert("0"@ =~= seq!['0']);
        if zero {
            assert(t =~= "0"@);
        }
        if t == "0"@ {
            assert(t[0] == cs@[a as int]);
        }
        assert(zero <==> t == "0"@);
    }
    if zero {
        return false;
    }
    !range_eq_ignore_ascii_case(&cs, a, b, "false")
}

/// True if any opt-out variable is set to a value that switches the check
/// off. `values` holds the value of each variable that is set.
pub fn env_opt_out(values: &Vec<String>) -> (r: bool)
    ensures
        r == exists|i: int| 0 <= i < values@.len() && opts_out(#[trigger] values@[i]@),
{
    let mut i: usize = 0;
    while i < values.len()
        invariant
            i <= values@.len(),
            forall|j: int| 0 <= j < i ==> !opts_out(#[trigger] values@[j]@),
        decreases values@.len() - i,
    {
        if opt_out_value(values[i].as_str()) {
            return true;
        }
        i = i + 1;
    }
    false
}

/// Information about an available update.
#[derive(Debug, Clone)]
pub struct UpdateInfo {
    pub latest_version: String,
    pub current_version: String,
    pub release_url: String,
}

/// Result of the update check flow.
pub struct UpdateCheckResult {
    /// Whether the application should exit (update was performed).
    pub should_exit: bool,
    /// Available update version if user declined to update (for TUI notification).
    pub deferred_update: Option<String>,
}

impl UpdateCheckResult {
    /// The "nothing happened" result: carry on, on this version.
    pub fn inert() -> (r: Self)
        ensures
            !r.should_exit,
            r.deferred_update is None,
    {
        Self { should_exit: false, deferred_update: None }
    }
}

/// `s` without its leading `v`s.
pub open spec fn strip_v(s: Seq<char>) -> Seq<char>
    decreases s.len(),
{
    if s.len() > 0 && s[0] == 'v' {
        strip_v(s.drop_first())
    } else {
        s
    }
}

/// A release tag without its leading `v`s, as `trim_start_matches('v')` gives it.
pub fn version_of_tag(tag: &str) -> (r: String)
    ensures
        r@ == strip_v(tag@),
{
    let n = tag.unicode_len();
    let mut a: usize = 0;
    assert(tag@.subrange(0, n as int) =~= tag@);
    while a < n && tag.get_char(a) == 'v'
        invariant
            a <= n == tag@.len(),
            strip_v(tag@) == strip_v(tag@.subrange(a as int, n as int)),
        decreases n - a,
    {
        assert(tag@.subrange(a as int, n as int).drop_first() =~= tag@.subrange(a + 1, n as int));
        a = a + 1;
    }
    tag.substring_char(a, n).to_string()
}

/// Whether `semver::Version::parse` accepts `text`.
pub uninterp spec fn semver_parses(text: Seq<char>) -> bool;

/// `d` is a number as a SemVer version core writes it: one or more ASCII
/// digits, without a leading zero unless it is `0` itself, whose value fits
/// in 64 bits.
pub open spec fn semver_number(d: Seq<char>) -> bool {
    d.len() > 0 && all_digits(d) && (d.len() == 1 || d[0] != '0') && digits_value(d) <= u64::MAX
}

/// `s` begins with a version core `MAJOR.MINOR.PATCH` whose dots stand at
/// `i` and `j` and which ends at `k`, where the text ends or a pre-release
/// (`-`) or build metadata (`+`) begins.
pub open spec fn version_core_at(s: Seq<char>, i: int, j: int, k: int) -> bool {
    &&& 0 < i < j < k <= s.len()
    &&& s[i] == '.' && s[j] == '.'
    &&& semver_number(s.subrange(0, i))
    &&& semver_number(s.subrange(i + 1, j))
    &&& semver_number(s.subrange(j + 1, k))
    &&& (k == s.len() || s[k] == '-' || s[k] == '+')
}

/// `s` is a plain release version `MAJOR.MINOR.PATCH`, with its dots at `i`
/// and `j`: no pre-release, no build metadata.
pub open spec fn plain_version_at(s: Seq<char>, i: int, j: int) -> bool {
    version_core_at(s, i, j, s.len() as int)
}

/// The numbers (major, minor, patch) of the version core of `s` found at
/// `i`, `j`, `k`.
pub open spec fn core_numbers(s: Seq<char>, i: int, j: int, k: int) -> (nat, nat, nat) {
    (digits_value(s.subrange(0, i)), digits_value(s.subrange(i + 1, j)), digits_value(s.subrange(j + 1, k)))
}

/// (major, minor, patch) `a` comes after `b`: the major numbers decide, then
/// the minor ones, then the patch numbers.
pub open spec fn core_after(a: (nat, nat, nat), b: (nat, nat, nat)) -> bool {
    a.0 > b.0 || (a.0 == b.0 && (a.1 > b.1 || (a.1 == b.1 && a.2 > b.2)))
}

/// The text of the error `semver::Version::parse` reports for `text`.
pub uninterp spec fn semver_parse_error(text: Seq<char>) -> Seq<char>;

/// Calls `semver::Version::parse`. Its result is a function of `text`: the
/// contract claims that it succeeds exactly on the texts `semver_parses`
/// names, among them every plain `MAJOR.MINOR.PATCH` (the parser reads three
/// dot-separated numbers, refusing only a leading zero or a number past
/// 64 bits), and that a failure reads as `semver_parse_error` names. The
/// version parsed is not kept: `version_newer` compares versions by their
/// texts.
#[verifier::external_body]
fn parse_version(text: &str) -> (r: Result<(), String>)
    ensures
        r is Ok <==> semver_parses(text@),
        r matches Err(m) ==> m@ == semver_parse_error(text@),
        forall|i: int, j: int| #[trigger] plain_version_at(text@, i, j) ==> r is Ok,
{
    match semver::Version::parse(text) {
        Ok(_) => Ok(()),
        Err(e) => Err(e.to_string()),
    }
}

/// Whether the version `latest` is newer than `current` by SemVer's
/// ordering (major, minor, patch, pre-release precedence, build metadata),
/// both texts being versions `semver::Version::parse` accepts.
pub uninterp spec fn semver_newer(latest: Seq<char>, current: Seq<char>) -> bool;

/// Parses both texts with `semver::Version::parse` and compares the versions
/// with `>`, the ordering `Version` derives over (major, minor, patch,
/// pre-release, build). The result is a function of the two texts, named
/// `semver_newer`. The contract states that ordering as far as the version
/// cores decide it: versions whose (major, minor, patch) differ are ordered
/// by those numbers; with equal numbers, a plain release is newer than a
/// pre-release and not newer than the same plain release. How pre-releases
/// and build metadata order among themselves is left unsaid.
#[verifier::external_body]
fn version_newer(latest: &str, current: &str) -> (r: bool)
    requires
        semver_parses(latest@),
        semver_parses(current@),
    ensures
        r == semver_newer(latest@, current@),
        forall|i1: int, j1: int, k1: int, i2: int, j2: int, k2: int|
            #![trigger version_core_at(latest@, i1, j1, k1), version_core_at(current@, i2, j2, k2)]
            version_core_at(latest@, i1, j1, k1) && version_core_at(current@, i2, j2, k2)
                && core_numbers(latest@, i1, j1, k1) != core_numbers(current@, i2, j2, k2) ==> (r
                <==> core_after(core_numbers(latest@, i1, j1, k1), core_numbers(current@, i2, j2, k2))),
        forall|i1: int, j1: int, i2: int, j2: int, k2: int|
            #![trigger plain_version_at(latest@, i1, j1), version_core_at(current@, i2, j2, k2)]
            plain_version_at(latest@, i1, j1) && version_core_at(current@, i2, j2, k2)
                && core_numbers(latest@, i1, j1, latest@.len() as int) == core_numbers(current@, i2, j2, k2)
                ==> (r <==> (k2 < current@.len() && current@[k2] == '-')),
{
    match (semver::Version::parse(latest), semver::Version::parse(current)) {
        (Ok(a), Ok(b)) => a > b,
        _ => false,
    }
}

/// The update a newer release offers: its version and page, and the running
/// version; or nothing when the release is not newer.
pub fn update_info(newer: bool, latest_version: String, current_version: &str, release_url: String) -> (r:
    Option<UpdateInfo>)
    ensures
        !newer ==> r is None,
        newer ==> (r matches Some(info) && info.latest_version == latest_version
            && info.current_version@ == current_version@ && info.release_url == release_url),
{
    if newer {
        Some(
            UpdateInfo {
                latest_version,
                current_version: current_version.to_string(),
                release_url,
            },
        )
    } else {
        None
    }
}

/// What the latest release, tagged `tag_name` with page `html_url`, means
/// for `current_version`.
///
/// The release's version is its tag without leading `v`s. Both versions must
/// parse as SemVer (the running one is checked first); then an update is
/// offered when the release is newer.
pub fn release_update(current_version: &str, tag_name: &str, html_url: &str) -> (r: Result<
    Option<UpdateInfo>,
    String,
>)
    ensures
        !semver_parses(current_version@) ==> (r matches Err(m) && m@ == "Invalid current version: "@
            + semver_parse_error(current_version@)),
        semver_parses(current_version@) && !semver_parses(strip_v(tag_name@)) ==> (r matches Err(m)
            && m@ == "Invalid latest version: "@ + semver_parse_error(strip_v(tag_name@))),
        semver_parses(current_version@) && semver_parses(strip_v(tag_name@)) ==> r is Ok,
        r matches Ok(o) ==> (o is Some <==> semver_newer(strip_v(tag_name@), current_version@)),
        forall|i1: int, j1: int, i2: int, j2: int|
            #![trigger plain_version_at(strip_v(tag_name@), i1, j1), plain_version_at(current_version@, i2, j2)]
            plain_version_at(strip_v(tag_name@), i1, j1) && plain_version_at(current_version@, i2, j2) ==> (
            r matches Ok(o) && (o is Some <==> core_after(
                core_numbers(strip_v(tag_name@), i1, j1, strip_v(tag_name@).len() as int),
                core_numbers(current_version@, i2, j2, current_version@.len() as int),
            ))),
        r matches Ok(Some(info)) ==> info.latest_version@ == strip_v(tag_name@)
            && info.current_version@ == current_version@ && info.release_url@ == html_url@,
{
    let latest_version = version_of_tag(tag_name);
    match parse_version(current_version) {
        Ok(_) => {},
        Err(e) => {
            let mut m = String::from_str("Invalid current version: ");
            m.append(e.as_str());
            return Err(m);
        },
    };
    match parse_version(latest_version.as_str()) {
        Ok(_) => {},
        Err(e) => {
            let mut m = String::from_str("Invalid latest version: ");
            m.append(e.as_str());
            return Err(m);
        },
    };
    let newer = version_newer(latest_version.as_str(), current_version);
    Ok(update_info(newer, latest_version, current_version, html_url.to_string()))
}

/// The answer to the update prompt accepts it: once trimmed, it is empty,
/// `y` or `yes`, in any case.
pub open spec fn accepts_update(answer: Seq<char>) -> bool {
    let t = trim(answer);
    t.len() == 0 || eq_ignore_ascii_case(t, "y"@) || eq_ignore_ascii_case(t, "yes"@)
}

/// Whether the answer to `Update now? [Y/n]` accepts the update. (A
/// lower-cased answer is `y` or `yes` exactly when its letters are those in
/// either case: no other character lower-cases to them.)
pub fn answer_accepts(answer: &str) -> (r: bool)
    ensures
        r == accepts_update(answer@),
{
    let cs = to_chars(answer);
    let (a, b) = trim_range(&cs, 0, cs.len());
    proof {
        assert(cs@.subrange(0, cs.len() as int) =~= answer@);
    }
    b == a || range_eq_ignore_ascii_case(&cs, a, b, "y") || range_eq_ignore_ascii_case(&cs, a, b, "yes")
}

/// The line reporting an update during a workflow run, which carries on.
pub fn notify_text(info: &UpdateInfo) -> (r: String)
    ensures
        r@ == "New version available: v"@ + info.latest_version@ + " (current: v"@
            + info.current_version@ + "). Continuing on v"@ + info.current_version@ + " for this run."@,
{
    let mut t = String::from_str("New version available: v");
    t.append(info.latest_version.as_str());
    t.append(" (current: v");
    t.append(info.current_version.as_str());
    t.append("). Continuing on v");
    t.append(info.current_version.as_str());
    t.append(" for this run.");
    t
}

/// The line announcing an update before the prompt.
pub fn prompt_text(info: &UpdateInfo) -> (r: String)
    ensures
        r@ == "New version available: v"@ + info.latest_version@ + " (current: v"@
            + info.current_version@ + ")"@,
{
    let mut t = String::from_str("New version available: v");
    t.append(info.latest_version.as_str());
    t.append(" (current: v");
    t.append(info.current_version.as_str());
    t.append(")");
    t
}

/// How the interactive flow ends once the user answered the prompt for
/// `info`: a declined update is remembered for the TUI to mention; an
/// accepted one exits when the install succeeded and carries on otherwise.
pub fn after_prompt(info: &UpdateInfo, accepted: bool, installed: bool) -> (r: UpdateCheckResult)
    ensures
        !accepted ==> !r.should_exit && (r.deferred_update matches Some(v) && v@
            == info.latest_version@),
        accepted ==> r.should_exit == installed && r.deferred_update is None,
{
    if !accepted {
        return UpdateCheckResult { should_exit: false, deferred_update: Some(info.latest_version.clone()) };
    }
    if installed {
        UpdateCheckResult { should_exit: true, deferred_update: None }
    } else {
        UpdateCheckResult::inert()
    }
}

/// Why the install script failed, quoting its exit code as Rust's debug
/// form of an optional number writes it: `Some(<code>)`, or `None` when the
/// script was ended by a signal.
pub fn install_failure_message(code: Option<i32>) -> (r: String)
    ensures
        r@ == "Install script failed with exit code: "@ + match code {
            Some(c) => "Some("@ + signed_decimal(c as int) + ")"@,
            None => "None"@,
        },
{
    let mut m = String::from_str("Install script failed with exit code: ");
    match code {
        Some(c) => {
            m.append("Some(");
            push_signed(&mut m, c as i64);
            m.append(")");
        },
        None => m.append("None"),
    }
    m
}

} // verus!
