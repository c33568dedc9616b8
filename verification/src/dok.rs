//! The run mode of a job, and the text of the task that prepares a Sakura
//! 高火力 DOK bundle for a `RUN_MODE=use_dok` job.
//!
//! Preparing the bundle is a conversation with the DOK API: submit the prep
//! task, poll it until it finishes or time runs out, then ask for the
//! artifact's download URL. `BundlePrep` makes the decisions of that
//! conversation; making the requests, reading their JSON, waiting, packing
//! the job's folder and reading the host environment are the caller's part.

use vstd::prelude::*;
use vstd::string::*;

use crate::text::{contains_string, to_chars};

verus! {

/// The position of the first `=` in `s`, or its length when it has none.
pub open spec fn eq_pos(s: Seq<char>) -> nat
    decreases s.len(),
{
    if s.len() == 0 || s[0] == '=' {
        0
    } else {
        1 + eq_pos(s.drop_first())
    }
}

/// The value an `-e KEY=VALUE` entry gives `RUN_MODE`: the text after its
/// first `=`, when the text before it is `RUN_MODE`.
pub open spec fn entry_run_mode(e: Seq<char>) -> Option<Seq<char>> {
    let k = eq_pos(e) as int;
    if k < e.len() && e.take(k) == "RUN_MODE"@ {
        Some(e.skip(k + 1))
    } else {
        None
    }
}

/// The value the last entry setting `RUN_MODE` gives it.
pub open spec fn last_run_mode(entries: Seq<Seq<char>>) -> Option<Seq<char>>
    decreases entries.len(),
{
    if entries.len() == 0 {
        None
    } else {
        match entry_run_mode(entries.last()) {
            Some(v) => Some(v),
            None => last_run_mode(entries.drop_last()),
        }
    }
}

/// The first `=` of `s` is at `m`.
proof fn lemma_eq_pos_at(s: Seq<char>, m: int)
    requires
        0 <= m <= s.len(),
        forall|j: int| 0 <= j < m ==> s[j] != '=',
        m == s.len() || s[m] == '=',
    ensures
        eq_pos(s) == m,
    decreases m,
{
    if m > 0 {
        assert forall|j: int| 0 <= j < m - 1 implies s.drop_first()[j] != '=' by {
            assert(s[j + 1] != '=');
        }
        lemma_eq_pos_at(s.drop_first(), m - 1);
    }
}

/// The value `entry` gives `RUN_MODE`, if it sets it.
fn run_mode_of_entry(entry: &str) -> (r: Option<String>)
    ensures
        match r {
            Some(v) => entry_run_mode(entry@) == Some(v@),
            None => entry_run_mode(entry@) is None,
        },
{
    let cs = to_chars(entry);
    let mut k: usize = 0;
    while k < cs.len() && cs[k] != '='
        invariant
            k <= cs.len(),
            cs@ == entry@,
            forall|j: int| 0 <= j < k ==> entry@[j] != '=',
        decreases cs.len() - k,
    {
        k = k + 1;
    }
    proof {
        lemma_eq_pos_at(entry@, k as int);
    }
    if k == cs.len() {
        return None;
    }
    let key = entry.substring_char(0, k);
    if crate::text::str_eq(key, "RUN_MODE") {
        assert(entry@.take(k as int) =~= entry@.subrange(0, k as int));
        Some(entry.substring_char(k + 1, cs.len()).to_string())
    } else {
        assert(entry@.take(k as int) =~= entry@.subrange(0, k as int));
        None
    }
}

/// Reads `RUN_MODE` from `-e/--env` CLI values (the last entry that sets it
/// wins), or, when `RUN_MODE` is listed in `env_passthrough`, from silva's
/// own host environment, whose value is `host_run_mode` (`None` when unset).
pub fn resolve_run_mode(
    cli_env_vars: &[String],
    env_passthrough: &[String],
    host_run_mode: Option<String>,
) -> (r: Option<String>)
    ensures
        match last_run_mode(cli_env_vars@.map_values(|s: String| s@)) {
            Some(v) => r matches Some(x) && x@ == v,
            None => if env_passthrough@.map_values(|s: String| s@).contains("RUN_MODE"@) {
                r == host_run_mode
            } else {
                r is None
            },
        },
{
    let ghost entries = cli_env_vars@.map_values(|s: String| s@);
    let mut i = cli_env_vars.len();
    assert(entries.take(i as int) =~= entries);
    while i > 0
        invariant
            i <= cli_env_vars@.len(),
            entries == cli_env_vars@.map_values(|s: String| s@),
            last_run_mode(entries) == last_run_mode(entries.take(i as int)),
        decreases i,
    {
        assert(entries.take(i as int).drop_last() =~= entries.take(i - 1));
        assert(entries.take(i as int).last() == cli_env_vars@[i - 1]@);
        match run_mode_of_entry(cli_env_vars[i - 1].as_str()) {
            Some(v) => {
                return Some(v);
            },
            None => {},
        }
        i = i - 1;
    }
    if contains_string(env_passthrough, "RUN_MODE") {
        return host_run_mode;
    }
    None
}

/// The Python program that unpacks a base64-encoded `tar.gz` payload into
/// `$SAKURA_ARTIFACT_DIR`.
pub open spec fn decode_script_text(payload_b64: Seq<char>) -> Seq<char> {
    "import base64, os, tarfile, io\ndata = base64.b64decode(\""@ + payload_b64
        + "\")\nwith tarfile.open(fileobj=io.BytesIO(data), mode=\"r:gz\") as tar:\n    tar.extractall(os.environ[\"SAKURA_ARTIFACT_DIR\"])\n"@
}

/// The program the prep task runs to unpack the bundle.
pub fn decode_script(payload_b64: &str) -> (r: String)
    ensures
        r@ == decode_script_text(payload_b64@),
{
    let mut s = String::from_str("import base64, os, tarfile, io\ndata = base64.b64decode(\"");
    s.append(payload_b64);
    s.append(
        "\")\nwith tarfile.open(fileobj=io.BytesIO(data), mode=\"r:gz\") as tar:\n    tar.extractall(os.environ[\"SAKURA_ARTIFACT_DIR\"])\n",
    );
    s
}

/// The name of a prep task, made unique by `suffix`.
pub fn bundle_task_name(suffix: &str) -> (r: String)
    ensures
        r@ == "silva-dok-bundle-"@ + suffix@,
{
    let mut s = String::from_str("silva-dok-bundle-");
    s.append(suffix);
    s
}

/// A DOK task in this status has finished.
pub open spec fn final_status(status: Seq<char>) -> bool {
    status == "done"@ || status == "error"@ || status == "aborted"@ || status == "canceled"@
}

/// Whether a task in this status has finished, well or not.
pub fn is_final_status(status: &str) -> (r: bool)
    ensures
        r == final_status(status@),
{
    crate::text::str_eq(status, "done") || crate::text::str_eq(status, "error")
        || crate::text::str_eq(status, "aborted") || crate::text::str_eq(status, "canceled")
}

/// What a finished prep task means: the artifact to download when it is done
/// and has one, else the error to report.
pub fn finished_task_outcome(
    task_id: &str,
    status: &str,
    error_message: &str,
    artifact_id: Option<String>,
) -> (r: Result<String, String>)
    ensures
        status@ != "done"@ ==> (r matches Err(m) && m@ == "DOK prep task "@ + task_id@
            + " finished with status="@ + status@ + ": "@ + error_message@),
        status@ == "done"@ ==> match artifact_id {
            Some(a) => r == Ok::<String, String>(a),
            None => r matches Err(m) && m@ == "DOK prep task "@ + task_id@ + " has no artifact"@,
        },
{
    if !crate::text::str_eq(status, "done") {
        let mut m = String::from_str("DOK prep task ");
        m.append(task_id);
        m.append(" finished with status=");
        m.append(status);
        m.append(": ");
        m.append(error_message);
        return Err(m);
    }
    match artifact_id {
        Some(a) => Ok(a),
        None => {
            let mut m = String::from_str("DOK prep task ");
            m.append(task_id);
            m.append(" has no artifact");
            Err(m)
        },
    }
}

/// The environment variable that hands the bundle's URL to the job.
pub fn bundle_env_var(bundle_url: &str) -> (r: String)
    ensures
        r@ == "DOK_BUNDLE_URL="@ + bundle_url@,
{
    let mut s = String::from_str("DOK_BUNDLE_URL=");
    s.append(bundle_url);
    s
}

/// What a DOK API answer comes to before its JSON is read: the body of a
/// successful answer, else the error that quotes the status (as `<code>
/// <reason>`) and the body.
pub fn api_reply(status: &str, success: bool, body: String) -> (r: Result<String, String>)
    ensures
        success ==> r == Ok::<String, String>(body),
        !success ==> (r matches Err(m) && m@ == "DOK API request rejected ("@ + status@ + "): "@ + body@),
{
    if success {
        Ok(body)
    } else {
        let mut m = String::from_str("DOK API request rejected (");
        m.append(status);
        m.append("): ");
        m.append(body.as_str());
        Err(m)
    }
}

/// The error for an answer whose body is not JSON: the parser's message and
/// the body.
pub fn api_parse_error(error: &str, body: &str) -> (r: String)
    ensures
        r@ == "Failed to parse DOK API response: "@ + error@ + " (body: "@ + body@ + ")"@,
{
    let mut m = String::from_str("Failed to parse DOK API response: ");
    m.append(error);
    m.append(" (body: ");
    m.append(body);
    m.append(")");
    m
}

/// Where the preparation of a bundle stands.
#[derive(Debug)]
pub enum PrepPhase {
    /// The prep task has been submitted; its id is awaited.
    Submit,
    /// The task with this id is polled until it finishes.
    Poll { task_id: String },
    /// The task finished well; the download URL of its artifact is awaited.
    Download { task_id: String },
    /// The preparation has ended.
    Finished,
}

/// What the DOK API answered.
pub enum PrepEvent {
    /// The task was created; its `id`, when the answer has one.
    Submitted { task_id: Option<String> },
    /// The task as polled: its `status` and `error_message` (empty when
    /// absent), its artifact's id, and whether the poll deadline has passed.
    Polled { status: String, error_message: String, artifact_id: Option<String>, past_deadline: bool },
    /// The download answer's `url`, when it has one.
    Downloaded { url: Option<String> },
    /// A request failed, with its message.
    ApiFailed { message: String },
}

/// What to do next.
pub enum PrepAction {
    /// Submit the prep task with this name and unpacking program.
    PostTask { name: String, script: String },
    /// Ask for the task's state.
    GetTask { task_id: String },
    /// Wait the poll interval, then ask for the task's state.
    WaitThenGetTask { task_id: String },
    /// Ask for the artifact's download URL.
    GetDownload { artifact_id: String },
    /// Stop, with the bundle's URL or the error.
    Finish { result: Result<String, String> },
}

/// The preparation of one bundle.
pub struct BundlePrep {
    pub phase: PrepPhase,
}

/// Whether `event` answers what `phase` waits for: a failed request always
/// does; otherwise the answer to the request the phase made.
pub open spec fn prep_accepts(phase: PrepPhase, event: PrepEvent) -> bool {
    match event {
        PrepEvent::ApiFailed { .. } => !(phase is Finished),
        PrepEvent::Submitted { .. } => phase is Submit,
        PrepEvent::Polled { .. } => phase is Poll,
        PrepEvent::Downloaded { .. } => phase is Download,
    }
}

/// `a` ends the preparation with the error `m`.
pub open spec fn finish_err(a: PrepAction, m: Seq<char>) -> bool {
    a matches PrepAction::Finish { result } && result matches Err(e) && e@ == m
}

/// The step from `phase` on `event` to `next` with action `a`: a failed
/// request ends with its message; the submitted task is polled at once, or
/// the answer without an id ends it; a finished task whose status is `done`
/// and that has an artifact leads to its download, any other finished task
/// ends with why; an unfinished one is polled again after a wait, unless the
/// deadline has passed; the download ends with its URL, or with the error
/// that it has none.
pub open spec fn prep_step(phase: PrepPhase, event: PrepEvent, next: PrepPhase, a: PrepAction) -> bool {
    match event {
        PrepEvent::ApiFailed { message } => next is Finished && finish_err(a, message@),
        PrepEvent::Submitted { task_id } => match task_id {
            Some(id) => (next matches PrepPhase::Poll { task_id: n } && n@ == id@) && (
            a matches PrepAction::GetTask { task_id: t } && t@ == id@),
            None => next is Finished && finish_err(a, "DOK task response missing id"@),
        },
        PrepEvent::Polled { status, error_message, artifact_id, past_deadline } => {
            let id = phase->Poll_task_id@;
            if final_status(status@) {
                if status@ != "done"@ {
                    next is Finished && finish_err(
                        a,
                        "DOK prep task "@ + id + " finished with status="@ + status@ + ": "@ + error_message@,
                    )
                } else {
                    match artifact_id {
                        Some(art) => (next matches PrepPhase::Download { task_id: n } && n@ == id) && (
                        a matches PrepAction::GetDownload { artifact_id: x } && x@ == art@),
                        None => next is Finished && finish_err(a, "DOK prep task "@ + id + " has no artifact"@),
                    }
                }
            } else if past_deadline {
                next is Finished && finish_err(a, "Timed out waiting for DOK prep task "@ + id)
            } else {
                (next matches PrepPhase::Poll { task_id: n } && n@ == id) && (
                a matches PrepAction::WaitThenGetTask { task_id: t } && t@ == id)
            }
        },
        PrepEvent::Downloaded { url } => next is Finished && match url {
            Some(u) => a matches PrepAction::Finish { result } && result matches Ok(x) && x@ == u@,
            None => finish_err(a, "DOK artifact download response missing url"@),
        },
    }
}

impl BundlePrep {
    /// Starts preparing a bundle whose `tar.gz` is `payload_b64` in base64,
    /// naming the task with `suffix`: submit the task that unpacks it.
    pub fn start(payload_b64: &str, suffix: &str) -> (r: (Self, PrepAction))
        ensures
            r.0.phase is Submit,
            r.1 matches PrepAction::PostTask { name, script } && name@ == "silva-dok-bundle-"@ + suffix@
                && script@ == decode_script_text(payload_b64@),
    {
        let name = bundle_task_name(suffix);
        let script = decode_script(payload_b64);
        (BundlePrep { phase: PrepPhase::Submit }, PrepAction::PostTask { name, script })
    }

    /// Whether the preparation has ended.
    pub fn is_finished(&self) -> (r: bool)
        ensures
            r == self.phase is Finished,
    {
        matches!(self.phase, PrepPhase::Finished)
    }

    /// Takes the API's answer to the last action and gives the next one.
    pub fn advance(&mut self, event: PrepEvent) -> (r: PrepAction)
        requires
            prep_accepts(old(self).phase, event),
        ensures
            prep_step(old(self).phase, event, final(self).phase, r),
    {
        let mut phase = PrepPhase::Finished;
        std::mem::swap(&mut phase, &mut self.phase);
        match event {
            PrepEvent::ApiFailed { message } => PrepAction::Finish { result: Err(message) },
            PrepEvent::Submitted { task_id } => match task_id {
                Some(id) => {
                    let again = id.clone();
                    self.phase = PrepPhase::Poll { task_id: id };
                    PrepAction::GetTask { task_id: again }
                },
                None => PrepAction::Finish { result: Err(String::from_str("DOK task response missing id")) },
            },
            PrepEvent::Polled { status, error_message, artifact_id, past_deadline } => {
                let id = match phase {
                    PrepPhase::Poll { task_id } => task_id,
                    _ => String::new(),
                };
                if is_final_status(status.as_str()) {
                    match finished_task_outcome(id.as_str(), status.as_str(), error_message.as_str(), artifact_id) {
                        Ok(art) => {
                            self.phase = PrepPhase::Download { task_id: id };
                            PrepAction::GetDownload { artifact_id: art }
                        },
                        Err(m) => PrepAction::Finish { result: Err(m) },
                    }
                } else if past_deadline {
                    let mut m = String::from_str("Timed out waiting for DOK prep task ");
                    m.append(id.as_str());
                    PrepAction::Finish { result: Err(m) }
                } else {
                    let again = id.clone();
                    self.phase = PrepPhase::Poll { task_id: id };
                    PrepAction::WaitThenGetTask { task_id: again }
                }
            },
            PrepEvent::Downloaded { url } => match url {
                Some(u) => PrepAction::Finish { result: Ok(u) },
                None => PrepAction::Finish {
                    result: Err(String::from_str("DOK artifact download response missing url")),
                },
            },
        }
    }
}

/// How far along a phase is.
pub open spec fn prep_rank(p: PrepPhase) -> int {
    match p {
        PrepPhase::Submit => 0,
        PrepPhase::Poll { .. } => 1,
        PrepPhase::Download { .. } => 2,
        PrepPhase::Finished => 3,
    }
}

/// The preparation never goes back: each step keeps or advances the phase,
/// and only polling an unfinished task keeps it where it is.
pub proof fn law_prep_moves_forward(phase: PrepPhase, event: PrepEvent, next: PrepPhase, a: PrepAction)
    requires
        prep_accepts(phase, event),
        prep_step(phase, event, next, a),
    ensures
        prep_rank(next) >= prep_rank(phase),
        prep_rank(next) == prep_rank(phase) ==> (a is WaitThenGetTask && phase is Poll),
{
}

/// The preparation ends with a URL only when the download answer gave one:
/// every other ending is an error.
pub proof fn law_prep_url_comes_from_download(
    phase: PrepPhase,
    event: PrepEvent,
    next: PrepPhase,
    a: PrepAction,
)
    requires
        prep_accepts(phase, event),
        prep_step(phase, event, next, a),
        a matches PrepAction::Finish { result } && result is Ok,
    ensures
        phase is Download,
        event matches PrepEvent::Downloaded { url } && url matches Some(u) && a->Finish_result->Ok_0@ == u@,
{
}

} // verus!
