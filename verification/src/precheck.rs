//! Pre-execution checks for workflow scripts.
//!
//! Validates workflow conventions before any containers are started:
//! - Rejects scripts containing install commands (should be in Docker images)
//! - Requires `input_files/` folder when dependency-free jobs exist
//! - Rejects scripts with cross-node `../` path references
//!
//! The checks work on the scripts' text and on what the caller found on disk;
//! reading the files is the caller's part.

use vstd::prelude::*;
use vstd::string::*;

use crate::job_config::job::JobMeta;
use crate::job_config::workflow::{deps_of, WorkflowMeta};
use crate::script::{line_ranges, lines_of, range_texts, token_ranges, tokens, trim, trim_range};
use crate::text::{decimal, join, join_strings, push_char, push_decimal, to_chars};
use crate::workflow::job_folder::JobFolder;

verus! {

/// The text of one script of a job, as far as it could be read.
pub struct ScriptText {
    /// The job the script belongs to.
    pub job_name: String,
    /// The script's file name, as the job configuration names it.
    pub script_name: String,
    /// The script's content; `None` when the file could not be read, in which
    /// case the script is not checked.
    pub content: Option<String>,
}

/// What a scan looks for in a script line.
#[derive(Clone, Copy, PartialEq, Eq, Structural)]
pub enum ScriptRule {
    /// An install command such as `pip install` or `apk add`.
    InstallCommand,
    /// A `../` path reaching into a sibling job.
    ParentReference,
}

/// The script names a job runs: those of its configuration, or the default
/// names when the configuration could not be loaded.
pub open spec fn spec_script_names(meta: Option<JobMeta>) -> Seq<Seq<char>> {
    match meta {
        Some(m) => seq![m.scripts.pre@, m.scripts.run@, m.scripts.post@],
        None => seq!["pre_run.sh"@, "run.sh"@, "post_run.sh"@],
    }
}

/// The script names of a job whose configuration loaded (`Some`) or failed to
/// load (`None`): the pre, run and post scripts, in that order.
pub fn script_names(meta: Option<&JobMeta>) -> (r: Vec<String>)
    ensures
        r@.map_values(|s: String| s@) == spec_script_names(
            match meta {
                Some(m) => Some(*m),
                None => None,
            },
        ),
{
    let mut v: Vec<String> = Vec::new();
    match meta {
        Some(m) => {
            v.push(m.scripts.pre.clone());
            v.push(m.scripts.run.clone());
            v.push(m.scripts.post.clone());
        },
        None => {
            v.push(String::from_str("pre_run.sh"));
            v.push(String::from_str("run.sh"));
            v.push(String::from_str("post_run.sh"));
        },
    }
    assert(v@.map_values(|s: String| s@) =~= spec_script_names(
        match meta {
            Some(m) => Some(*m),
            None => None,
        },
    ));
    v
}

/// A command and subcommand that install software.
pub open spec fn install_pattern(a: Seq<char>, b: Seq<char>) -> bool {
    ||| (a == "pip"@ && b == "install"@)
    ||| (a == "pip3"@ && b == "install"@)
    ||| (a == "apt-get"@ && b == "install"@)
    ||| (a == "apt"@ && b == "install"@)
    ||| (a == "conda"@ && b == "install"@)
    ||| (a == "npm"@ && b == "install"@)
    ||| (a == "apk"@ && b == "add"@)
}

/// Word `i` and the word after it form an install command.
pub open spec fn install_at(words: Seq<Seq<char>>, i: int) -> bool {
    0 <= i && i + 1 < words.len() && install_pattern(words[i], words[i + 1])
}

/// Some two consecutive words form an install command.
pub open spec fn has_install_command(words: Seq<Seq<char>>) -> bool {
    exists|i: int| #[trigger] install_at(words, i)
}

/// `t` holds `../` at position `j`.
pub open spec fn parent_ref_at(t: Seq<char>, j: int) -> bool {
    0 <= j && j + 2 < t.len() && t[j] == '.' && t[j + 1] == '.' && t[j + 2] == '/'
}

/// `t` holds `../` somewhere.
pub open spec fn has_parent_ref(t: Seq<char>) -> bool {
    exists|j: int| #[trigger] parent_ref_at(t, j)
}

/// A trimmed line is a comment.
pub open spec fn is_comment(t: Seq<char>) -> bool {
    t.len() > 0 && t[0] == '#'
}

/// A trimmed line breaks the rule: it is no comment and holds what the rule
/// looks for.
pub open spec fn line_flagged(t: Seq<char>, rule: ScriptRule) -> bool {
    !is_comment(t) && match rule {
        ScriptRule::InstallCommand => has_install_command(tokens(t)),
        ScriptRule::ParentReference => has_parent_ref(t),
    }
}

/// Comment lines are ignored by every check.
pub proof fn law_comments_never_flagged(t: Seq<char>, rule: ScriptRule)
    requires
        is_comment(t),
    ensures
        !line_flagged(t, rule),
{
}

/// The lines that break the rule, each with its number (from 1) and its
/// trimmed text.
pub open spec fn flagged_lines(lines: Seq<Seq<char>>, rule: ScriptRule) -> Seq<(int, Seq<char>)>
    decreases lines.len(),
{
    if lines.len() == 0 {
        Seq::empty()
    } else {
        let rest = flagged_lines(lines.drop_last(), rule);
        let t = trim(lines.last());
        if line_flagged(t, rule) {
            rest.push((lines.len() as int, t))
        } else {
            rest
        }
    }
}

/// One entry of a report: `\n  [job] script:line — text`.
pub open spec fn entry_text(job: Seq<char>, script: Seq<char>, no: int, text: Seq<char>) -> Seq<
    char,
> {
    "\n  ["@ + job + "] "@ + script + ":"@ + decimal(no as nat) + " — "@ + text
}

/// The entries for the flagged lines of one script.
pub open spec fn entries_text(job: Seq<char>, script: Seq<char>, flagged: Seq<(int, Seq<char>)>) -> Seq<
    char,
>
    decreases flagged.len(),
{
    if flagged.len() == 0 {
        Seq::empty()
    } else {
        entries_text(job, script, flagged.drop_last()) + entry_text(
            job,
            script,
            flagged.last().0,
            flagged.last().1,
        )
    }
}

/// The flagged lines of a script; none when it could not be read.
pub open spec fn script_flagged(sc: ScriptText, rule: ScriptRule) -> Seq<(int, Seq<char>)> {
    match sc.content {
        Some(c) => flagged_lines(lines_of(c@), rule),
        None => Seq::empty(),
    }
}

/// The entries for all scripts, in order.
pub open spec fn report_body(scripts: Seq<ScriptText>, rule: ScriptRule) -> Seq<char>
    decreases scripts.len(),
{
    if scripts.len() == 0 {
        Seq::empty()
    } else {
        let sc = scripts.last();
        report_body(scripts.drop_last(), rule) + entries_text(
            sc.job_name@,
            sc.script_name@,
            script_flagged(sc, rule),
        )
    }
}

/// Some script has a line that breaks the rule.
pub open spec fn any_flagged(scripts: Seq<ScriptText>, rule: ScriptRule) -> bool {
    exists|i: int| 0 <= i < scripts.len() && #[trigger] script_flagged(scripts[i], rule).len() > 0
}

/// The first lines of a report.
pub open spec fn report_header(rule: ScriptRule) -> Seq<char> {
    match rule {
        ScriptRule::InstallCommand =>
            "Install commands found in workflow scripts.\nDependencies must be pre-baked into Docker images.\n"@,
        ScriptRule::ParentReference =>
            "Cross-node path references found in workflow scripts.\nJobs must use the inputs/ folder, not relative paths to siblings.\n"@,
    }
}

/// The closing advice of a report.
pub open spec fn report_footer(rule: ScriptRule) -> Seq<char> {
    match rule {
        ScriptRule::InstallCommand =>
            "\n\nFix: Move install commands into Dockerfiles and rebuild the images."@,
        ScriptRule::ParentReference => "\n\nFix: Use files from the inputs/ directory instead of ../"@,
    }
}

/// Whether `cs[a..b]` reads `word`.
fn range_is(cs: &Vec<char>, a: usize, b: usize, word: &str) -> (r: bool)
    requires
        a <= b <= cs.len(),
    ensures
        r == (cs@.subrange(a as int, b as int) == word@),
{
    let w = to_chars(word);
    if b - a != w.len() {
        return false;
    }
    let mut i: usize = 0;
    while i < w.len()
        invariant
            a <= b <= cs.len(),
            b - a == w.len(),
            i <= w.len(),
            w@ == word@,
            forall|j: int| 0 <= j < i ==> cs@[a + j] == w@[j],
        decreases w.len() - i,
    {
        if cs[a + i] != w[i] {
            assert(cs@.subrange(a as int, b as int)[i as int] != word@[i as int]);
            return false;
        }
        i = i + 1;
    }
    assert(cs@.subrange(a as int, b as int) =~= word@);
    true
}

/// Whether the words at `x` and `y` form an install command.
fn is_install_pair(cs: &Vec<char>, x: (usize, usize), y: (usize, usize)) -> (r: bool)
    requires
        x.0 <= x.1 <= cs.len(),
        y.0 <= y.1 <= cs.len(),
    ensures
        r == install_pattern(
            cs@.subrange(x.0 as int, x.1 as int),
            cs@.subrange(y.0 as int, y.1 as int),
        ),
{
    (range_is(cs, x.0, x.1, "pip") && range_is(cs, y.0, y.1, "install")) || (range_is(
        cs,
        x.0,
        x.1,
        "pip3",
    ) && range_is(cs, y.0, y.1, "install")) || (range_is(cs, x.0, x.1, "apt-get") && range_is(
        cs,
        y.0,
        y.1,
        "install",
    )) || (range_is(cs, x.0, x.1, "apt") && range_is(cs, y.0, y.1, "install")) || (range_is(
        cs,
        x.0,
        x.1,
        "conda",
    ) && range_is(cs, y.0, y.1, "install")) || (range_is(cs, x.0, x.1, "npm") && range_is(
        cs,
        y.0,
        y.1,
        "install",
    )) || (range_is(cs, x.0, x.1, "apk") && range_is(cs, y.0, y.1, "add"))
}

/// Whether the words of `cs[a..b]` hold an install command.
fn has_install_in(cs: &Vec<char>, a: usize, b: usize) -> (r: bool)
    requires
        a <= b <= cs.len(),
    ensures
        r == has_install_command(tokens(cs@.subrange(a as int, b as int))),
{
    let toks = token_ranges(cs, a, b);
    let ghost words = range_texts(cs@, toks@);
    let mut w: usize = 0;
    while w < toks.len() && toks.len() - w > 1
        invariant
            w <= toks.len(),
            a <= b <= cs.len(),
            words == range_texts(cs@, toks@),
            words == tokens(cs@.subrange(a as int, b as int)),
            forall|k: int| 0 <= k < toks@.len() ==> a <= (#[trigger] toks@[k]).0 <= toks@[k].1 <= b,
            forall|i: int| 0 <= i < w ==> !#[trigger] install_at(words, i),
        decreases toks.len() - w,
    {
        if is_install_pair(cs, toks[w], toks[w + 1]) {
            assert(install_at(words, w as int));
            return true;
        }
        w = w + 1;
    }
    proof {
        assert forall|i: int| !#[trigger] install_at(words, i) by {
            if 0 <= i && i + 1 < words.len() {
                assert(i < w);
            }
        }
    }
    false
}

/// Whether a line holds an install command: two consecutive
/// whitespace-separated words that are `pip install`, `pip3 install`,
/// `apt-get install`, `apt install`, `conda install`, `npm install` or
/// `apk add`.
pub fn line_has_install_command(line: &str) -> (r: bool)
    ensures
        r == has_install_command(tokens(line@)),
{
    let cs = to_chars(line);
    let n = cs.len();
    assert(cs@.subrange(0, n as int) =~= line@);
    has_install_in(&cs, 0, n)
}

/// Whether `cs[a..b]` holds `../`.
fn has_parent_ref_in(cs: &Vec<char>, a: usize, b: usize) -> (r: bool)
    requires
        a <= b <= cs.len(),
    ensures
        r == has_parent_ref(cs@.subrange(a as int, b as int)),
{
    let ghost t = cs@.subrange(a as int, b as int);
    let mut j = a;
    while j < b && b - j > 2
        invariant
            a <= j <= b,
            a <= b <= cs.len(),
            t == cs@.subrange(a as int, b as int),
            forall|k: int| 0 <= k < j - a ==> !#[trigger] parent_ref_at(t, k),
        decreases b - j,
    {
        if cs[j] == '.' && cs[j + 1] == '.' && cs[j + 2] == '/' {
            assert(parent_ref_at(t, j - a));
            return true;
        }
        j = j + 1;
    }
    proof {
        assert forall|k: int| !#[trigger] parent_ref_at(t, k) by {
            if 0 <= k && k + 2 < t.len() {
                assert(k < j - a);
            }
        }
    }
    false
}

/// Appends `cs[a..b]`.
fn append_range(out: &mut String, cs: &Vec<char>, a: usize, b: usize)
    requires
        a <= b <= cs.len(),
    ensures
        final(out)@ == old(out)@ + cs@.subrange(a as int, b as int),
{
    let ghost start = out@;
    let mut i = a;
    while i < b
        invariant
            a <= i <= b <= cs.len(),
            out@ == start + cs@.subrange(a as int, i as int),
        decreases b - i,
    {
        push_char(out, cs[i]);
        assert(cs@.subrange(a as int, i + 1) =~= cs@.subrange(a as int, i as int).push(cs@[i as int]));
        i = i + 1;
    }
}

/// Appends the report entry for the line `cs[a..b]`, numbered `no`, when it
/// breaks `rule`, and tells whether it does.
fn append_line_entry(
    out: &mut String,
    cs: &Vec<char>,
    a: usize,
    b: usize,
    job: &str,
    script: &str,
    no: usize,
    rule: ScriptRule,
) -> (flagged: bool)
    requires
        a <= b <= cs.len(),
    ensures
        flagged == line_flagged(trim(cs@.subrange(a as int, b as int)), rule),
        final(out)@ == old(out)@ + if flagged {
            entry_text(job@, script@, no as int, trim(cs@.subrange(a as int, b as int)))
        } else {
            Seq::empty()
        },
{
    let (ta, tb) = trim_range(cs, a, b);
    let ghost t = cs@.subrange(ta as int, tb as int);
    let comment = tb > ta && cs[ta] == '#';
    let flagged = if comment {
        false
    } else {
        match rule {
            ScriptRule::InstallCommand => has_install_in(cs, ta, tb),
            ScriptRule::ParentReference => has_parent_ref_in(cs, ta, tb),
        }
    };
    if flagged {
        let ghost start = out@;
        out.append("\n  [");
        out.append(job);
        out.append("] ");
        out.append(script);
        out.append(":");
        push_decimal(out, no as u128);
        out.append(" — ");
        append_range(out, cs, ta, tb);
        assert(out@ =~= start + entry_text(job@, script@, no as int, t));
    } else {
        assert(out@ =~= old(out)@ + Seq::<char>::empty());
    }
    flagged
}

/// Appends the entries for the lines of `content` that break `rule`, and
/// tells whether there was any.
fn append_entries(out: &mut String, job: &str, script: &str, content: &str, rule: ScriptRule) -> (found:
    bool)
    ensures
        final(out)@ == old(out)@ + entries_text(job@, script@, flagged_lines(lines_of(content@), rule)),
        found == (flagged_lines(lines_of(content@), rule).len() > 0),
{
    let cs = to_chars(content);
    let lines = line_ranges(&cs);
    let ghost all = lines_of(content@);
    let ghost start = out@;
    let mut found = false;
    let mut li: usize = 0;
    while li < lines.len()
        invariant
            cs@ == content@,
            all == lines_of(content@),
            all == range_texts(cs@, lines@),
            forall|k: int| 0 <= k < lines@.len() ==> (#[trigger] lines@[k]).0 <= lines@[k].1 <= cs.len(),
            li <= lines.len(),
            out@ == start + entries_text(job@, script@, flagged_lines(all.take(li as int), rule)),
            found == (flagged_lines(all.take(li as int), rule).len() > 0),
        decreases lines.len() - li,
    {
        let (a, b) = lines[li];
        let ghost line = all[li as int];
        proof {
            assert(line == cs@.subrange(a as int, b as int));
            assert(all.take(li as int + 1).drop_last() =~= all.take(li as int));
            assert(all.take(li as int + 1).last() == line);
        }
        let flagged = append_line_entry(out, &cs, a, b, job, script, li + 1, rule);
        proof {
            let f = flagged_lines(all.take(li as int), rule);
            if flagged {
                assert(flagged_lines(all.take(li as int + 1), rule) == f.push((li + 1, trim(line))));
                assert(f.push((li + 1, trim(line))).drop_last() =~= f);
            }
        }
        found = found || flagged;
        li = li + 1;
    }
    proof {
        assert(all.take(lines.len() as int) =~= all);
    }
    found
}

/// Scans the scripts for lines that break `rule` and reports them, or gives
/// `Ok` when there is none.
fn check_scripts(scripts: &Vec<ScriptText>, rule: ScriptRule) -> (r: Result<(), String>)
    ensures
        r is Ok <==> !any_flagged(scripts@, rule),
        r matches Err(m) ==> m@ == report_header(rule) + report_body(scripts@, rule)
            + report_footer(rule),
{
    let mut msg = match rule {
        ScriptRule::InstallCommand => String::from_str(
            "Install commands found in workflow scripts.\nDependencies must be pre-baked into Docker images.\n",
        ),
        ScriptRule::ParentReference => String::from_str(
            "Cross-node path references found in workflow scripts.\nJobs must use the inputs/ folder, not relative paths to siblings.\n",
        ),
    };
    let mut found = false;
    let mut i: usize = 0;
    while i < scripts.len()
        invariant
            i <= scripts.len(),
            msg@ == report_header(rule) + report_body(scripts@.take(i as int), rule),
            found == any_flagged(scripts@.take(i as int), rule),
        decreases scripts.len() - i,
    {
        let sc = &scripts[i];
        proof {
            assert(scripts@.take(i as int + 1).drop_last() =~= scripts@.take(i as int));
            assert(scripts@.take(i as int + 1).last() == *sc);
        }
        let ghost before = msg@;
        let f = match &sc.content {
            Some(c) => append_entries(&mut msg, sc.job_name.as_str(), sc.script_name.as_str(), c.as_str(), rule),
            None => false,
        };
        proof {
            let p = scripts@.take(i as int);
            let q = scripts@.take(i as int + 1);
            assert(msg@ =~= report_header(rule) + report_body(q, rule));
            if f {
                assert(script_flagged(q[i as int], rule).len() > 0);
            }
            if any_flagged(q, rule) && !found {
                let j = choose|j: int| 0 <= j < q.len() && #[trigger] script_flagged(q[j], rule).len() > 0;
                if j < i {
                    assert(q[j] == p[j]);
                }
            }
            if found {
                let j = choose|j: int| 0 <= j < p.len() && #[trigger] script_flagged(p[j], rule).len() > 0;
                assert(q[j] == p[j]);
            }
        }
        found = found || f;
        i = i + 1;
    }
    proof {
        assert(scripts@.take(scripts.len() as int) =~= scripts@);
    }
    if !found {
        return Ok(());
    }
    match rule {
        ScriptRule::InstallCommand => msg.append(
            "\n\nFix: Move install commands into Dockerfiles and rebuild the images.",
        ),
        ScriptRule::ParentReference => msg.append(
            "\n\nFix: Use files from the inputs/ directory instead of ../",
        ),
    }
    Err(msg)
}

/// Checks all job scripts for install commands.
///
/// Returns `Ok(())` if no install commands are found, or `Err(message)`
/// with a formatted error listing all violations: for each, the job, the
/// script, the line number and the trimmed line. Comment lines (starting
/// with `#` once trimmed) are ignored.
pub fn check_install_commands(scripts: &Vec<ScriptText>) -> (r: Result<(), String>)
    ensures
        r is Ok <==> !any_flagged(scripts@, ScriptRule::InstallCommand),
        r matches Err(m) ==> m@ == report_header(ScriptRule::InstallCommand) + report_body(
            scripts@,
            ScriptRule::InstallCommand,
        ) + report_footer(ScriptRule::InstallCommand),
{
    check_scripts(scripts, ScriptRule::InstallCommand)
}

/// Checks all job scripts for cross-node `../` path references.
///
/// Jobs must use their `inputs/` folder instead of relative paths to siblings.
/// Returns `Err` listing all violations if any are found.
pub fn check_cross_node_references(scripts: &Vec<ScriptText>) -> (r: Result<(), String>)
    ensures
        r is Ok <==> !any_flagged(scripts@, ScriptRule::ParentReference),
        r matches Err(m) ==> m@ == report_header(ScriptRule::ParentReference) + report_body(
            scripts@,
            ScriptRule::ParentReference,
        ) + report_footer(ScriptRule::ParentReference),
{
    check_scripts(scripts, ScriptRule::ParentReference)
}

/// The names of the jobs that depend on no other job, each in brackets, in
/// the order of `jobs`.
pub open spec fn free_job_labels(jobs: Seq<JobFolder>, deps: Seq<(String, Vec<String>)>) -> Seq<
    Seq<char>,
>
    decreases jobs.len(),
{
    if jobs.len() == 0 {
        Seq::empty()
    } else {
        let rest = free_job_labels(jobs.drop_last(), deps);
        let name = jobs.last().name@;
        if deps_of(deps, name).len() == 0 {
            rest.push("["@ + name + "]"@)
        } else {
            rest
        }
    }
}

/// The report for a workflow that lacks `input_files/` although the listed
/// jobs need input data.
pub open spec fn missing_inputs_message(workflow_path: Seq<char>, labels: Seq<Seq<char>>) -> Seq<
    char,
> {
    "No 'input_files/' folder found, but dependency-free jobs exist:\n\n  "@ + join(labels, ", "@)
        + "\n\nFix: Create "@ + workflow_path + "/input_files/ with the data these jobs need."@
}

/// Checks that an `input_files/` folder exists at the workflow root when
/// there are dependency-free jobs that need input data.
///
/// `input_files_present` tells whether `<workflow_path>/input_files` is a
/// directory; `workflow_path` is the workflow's path as it is displayed.
/// Returns `Err` if dependency-free jobs exist but `input_files/` is missing.
pub fn check_input_files_folder(
    workflow_path: &str,
    jobs: &[JobFolder],
    workflow_metadata: &WorkflowMeta,
    input_files_present: bool,
) -> (r: Result<(), String>)
    ensures
        r is Ok <==> (free_job_labels(jobs@, workflow_metadata.dependencies@).len() == 0
            || input_files_present),
        r matches Err(m) ==> m@ == missing_inputs_message(
            workflow_path@,
            free_job_labels(jobs@, workflow_metadata.dependencies@),
        ),
{
    let ghost deps = workflow_metadata.dependencies@;
    let mut labels: Vec<String> = Vec::new();
    let mut i: usize = 0;
    while i < jobs.len()
        invariant
            i <= jobs.len(),
            deps == workflow_metadata.dependencies@,
            labels@.map_values(|x: String| x@) == free_job_labels(jobs@.take(i as int), deps),
        decreases jobs.len() - i,
    {
        proof {
            assert(jobs@.take(i as int + 1).drop_last() =~= jobs@.take(i as int));
            assert(jobs@.take(i as int + 1).last() == jobs@[i as int]);
        }
        let job = &jobs[i];
        if workflow_metadata.get_job_dependencies(job.name.as_str()).len() == 0 {
            let mut label = String::from_str("[");
            label.append(job.name.as_str());
            label.append("]");
            labels.push(label);
        }
        proof {
            assert(labels@.map_values(|x: String| x@) =~= free_job_labels(jobs@.take(i as int + 1), deps));
        }
        i = i + 1;
    }
    proof {
        assert(jobs@.take(jobs.len() as int) =~= jobs@);
    }
    if labels.len() == 0 || input_files_present {
        return Ok(());
    }
    let list = join_strings(&labels, ", ");
    let mut msg = String::from_str("No 'input_files/' folder found, but dependency-free jobs exist:\n\n  ");
    msg.append(list.as_str());
    msg.append("\n\nFix: Create ");
    msg.append(workflow_path);
    msg.append("/input_files/ with the data these jobs need.");
    Err(msg)
}

/// The install commands a line is flagged for: two consecutive
/// whitespace-separated words that are `pip install`, `pip3 install`,
/// `apt-get install`, `apt install`, `conda install`, `npm install` or
/// `apk add`, and no others.
pub proof fn law_install_commands_flagged(words: Seq<Seq<char>>)
    ensures
        has_install_command(words) <==> exists|i: int|
            0 <= i && i + 1 < words.len() && {
                let (first, second) = (#[trigger] words[i], words[i + 1]);
                ||| (second == "install"@ && (first == "pip"@ || first == "pip3"@))
                ||| (second == "install"@ && (first == "apt-get"@ || first == "apt"@))
                ||| (second == "install"@ && first == "conda"@)
                ||| (second == "install"@ && first == "npm"@)
                ||| (second == "add"@ && first == "apk"@)
            },
{
    if has_install_command(words) {
        let i = choose|i: int| #[trigger] install_at(words, i);
        assert(install_at(words, i));
    }
    assert forall|i: int|
        0 <= i && i + 1 < words.len() && {
            let (first, second) = (#[trigger] words[i], words[i + 1]);
            ||| (second == "install"@ && (first == "pip"@ || first == "pip3"@))
            ||| (second == "install"@ && (first == "apt-get"@ || first == "apt"@))
            ||| (second == "install"@ && first == "conda"@)
            ||| (second == "install"@ && first == "npm"@)
            ||| (second == "add"@ && first == "apk"@)
        } implies has_install_command(words) by {
        assert(install_at(words, i));
    }
}

/// A line is flagged exactly when its words hold one of the install
/// commands; comment lines never are.
pub proof fn law_line_flagged_for_install(t: Seq<char>)
    ensures
        line_flagged(t, ScriptRule::InstallCommand) <==> !is_comment(t) && has_install_command(tokens(t)),
{
}

} // verus!
