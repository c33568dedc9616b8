//! What the run view draws: the status of the selected job, the list of jobs
//! with their status marks, and the selected job's log, wrapped to the width
//! it is drawn at and scrolled. Drawing these on the terminal is the caller's
//! part.

use vstd::prelude::*;
use vstd::string::*;

use crate::docker::job::{status_label, JobEntry, JobStatus};
use crate::docker::logs::{clock_text, push_clock, source_tag, LogLine, LogSource};
use crate::docker::state::{wrap_lines, wrapped_lines, State};
use crate::palette::Tint;
use crate::text::{decimal, push_char, push_decimal, spaces};

verus! {

/// The mark shown before a job of the given status.
pub open spec fn status_symbol(s: JobStatus) -> Seq<char> {
    match s {
        JobStatus::Idle => "○"@,
        JobStatus::Pending => "⬜"@,
        JobStatus::Completed => "✓"@,
        JobStatus::Failed => "✗"@,
        _ => "⟳"@,
    }
}

/// The colour of a status: gray before a job starts, yellow while it is
/// under way, green once it completed and red once it failed.
pub open spec fn status_color(s: JobStatus) -> Tint {
    match s {
        JobStatus::Idle => Tint::Gray,
        JobStatus::Pending => Tint::Gray,
        JobStatus::Completed => Tint::Green,
        JobStatus::Failed => Tint::Red,
        _ => Tint::Yellow,
    }
}

/// The mark and the colour shown for a job's status.
pub fn get_job_status_symbol_and_color(status: &JobStatus) -> (r: (&'static str, Tint))
    ensures
        r.0@ == status_symbol(*status),
        r.1 == status_color(*status),
{
    match status {
        JobStatus::Idle => ("○", Tint::Gray),
        JobStatus::Pending => ("⬜", Tint::Gray),
        JobStatus::PullingImage => ("⟳", Tint::Yellow),
        JobStatus::BuildingImage => ("⟳", Tint::Yellow),
        JobStatus::CreatingContainer => ("⟳", Tint::Yellow),
        JobStatus::ContainerRunning(_) => ("⟳", Tint::Yellow),
        JobStatus::Running => ("⟳", Tint::Yellow),
        JobStatus::Completed => ("✓", Tint::Green),
        JobStatus::Failed => ("✗", Tint::Red),
    }
}

/// The entry of the selected job, when the selection names one.
pub open spec fn selected_entry(st: State) -> Option<JobEntry> {
    match st.selected_job_index {
        Some(i) => if i < st.job_entries@.len() {
            Some(st.job_entries@[i as int])
        } else {
            None
        },
        None => None,
    }
}

/// The status the status line shows: the selected job's, or idle.
pub open spec fn shown_status(st: State) -> JobStatus {
    match selected_entry(st) {
        Some(e) => e.status,
        None => JobStatus::Idle,
    }
}

/// The colour of the status line: gray when idle, green once completed, red
/// once failed, yellow otherwise.
pub open spec fn status_line_color(s: JobStatus) -> Tint {
    match s {
        JobStatus::Idle => Tint::Gray,
        JobStatus::Completed => Tint::Green,
        JobStatus::Failed => Tint::Red,
        _ => Tint::Yellow,
    }
}

/// The status line of the run view: a title, the text and the colour of the
/// status in it.
pub struct StatusSection {
    pub title: String,
    pub text: String,
    pub tint: Tint,
}

/// One row of the job list: the selection marker, the status mark in its
/// colour, and the job's name in the colour it is drawn in.
pub struct JobRow {
    pub marker: &'static str,
    pub symbol: &'static str,
    pub tint: Tint,
    pub name: String,
    pub name_tint: Tint,
}

/// The job list: its title and one row per job entry.
pub struct JobListSection {
    pub title: String,
    pub rows: Vec<JobRow>,
}

/// Row `i` shows entry `e`, marked when it is the selected one.
pub open spec fn job_row_rel(row: JobRow, e: JobEntry, selected: bool) -> bool {
    &&& row.marker@ == if selected { "> "@ } else { "  "@ }
    &&& row.symbol@ == status_symbol(e.status)
    &&& row.tint == status_color(e.status)
    &&& row.name@ == e.name@
    &&& row.name_tint == if selected { Tint::Cyan } else { status_color(e.status) }
}


/// The columns a log row's text gets in a log area `width` columns wide: what
/// is left after the borders (two), the time (eight), a space, the source tag
/// (five) and a space.
pub open spec fn log_text_width(width: u16) -> int {
    if width >= 19 { width - 19 } else { 0 }
}

/// The rows a log area `height` rows high shows: all but its borders.
pub open spec fn log_area_rows(height: u16) -> int {
    if height >= 2 { height - 2 } else { 0 }
}

/// What the first row of a log line starts with: its time, a space, its
/// source tag and a space.
pub open spec fn row_head(l: LogLine) -> Seq<char> {
    clock_text(l.timestamp) + seq![' '] + source_tag(l.source) + seq![' ']
}

/// What the further rows of a wrapped log line start with: blanks as wide as
/// the time, the space, the tag and the space before the text, and an indent
/// of two.
pub open spec fn row_pad() -> Seq<char> {
    spaces(17)
}

/// The rows of one log line when the text gets `w` columns: wider than ten,
/// the text is wrapped to `w` columns and the first piece follows the head,
/// the others the indent; otherwise the whole line is one row.
pub open spec fn line_rows(l: LogLine, w: int) -> Seq<Seq<char>> {
    if w > 10 {
        let parts = wrapped_lines(l.content@, w as usize);
        Seq::new(parts.len(), |i: int| if i == 0 { row_head(l) + parts[i] } else { row_pad() + parts[i] })
    } else {
        seq![row_head(l) + l.content@]
    }
}

/// The rows of all the log lines, in order, each with the source of its line.
pub open spec fn all_rows(lines: Seq<LogLine>, w: int) -> Seq<(Seq<char>, LogSource)>
    decreases lines.len(),
{
    if lines.len() == 0 {
        Seq::empty()
    } else {
        all_rows(lines.drop_last(), w) + line_rows(lines.last(), w).map_values(
            |t: Seq<char>| (t, lines.last().source),
        )
    }
}

/// The part of `s` left after skipping `skip` items and keeping `take`.
pub open spec fn window<A>(s: Seq<A>, skip: int, take: int) -> Seq<A> {
    let lo = if skip < s.len() { skip } else { s.len() as int };
    let hi = if take < s.len() - lo { lo + take } else { s.len() as int };
    s.subrange(lo, hi)
}

/// The title of the log area: the job's name, how far the log is scrolled
/// out of how many lines it has, a note when it does not follow new lines,
/// and the folder the run works in when there is one.
pub open spec fn logs_title(
    name: Seq<char>,
    offset: usize,
    count: nat,
    follows: bool,
    folder: Option<Seq<char>>,
) -> Seq<char> {
    name + " - Logs ("@ + decimal(if offset < count { offset as nat } else { count }) + "/"@ + decimal(count)
        + ")"@ + (if follows { Seq::<char>::empty() } else { " [AUTO-SCROLL PAUSED]"@ }) + match folder {
        Some(p) => " | Folder: "@ + p + " | o-Open"@,
        None => Seq::<char>::empty(),
    }
}

/// A row of the log area: its text, and the source of the log line it shows,
/// which gives its colour.
pub struct LogRow {
    pub text: String,
    pub source: LogSource,
}

/// The log area: a placeholder when no job is selected, else its title and
/// the rows it shows.
pub enum LogsSection {
    NoJob { title: String, message: String },
    Log { title: String, rows: Vec<LogRow> },
}

/// The colour a row of the given source is drawn in.
pub open spec fn source_color(s: LogSource) -> Tint {
    match s {
        LogSource::Stdout => Tint::White,
        LogSource::Stderr => Tint::Red,
    }
}

/// The colour a row of the given source is drawn in.
pub fn source_tint(s: LogSource) -> (r: Tint)
    ensures
        r == source_color(s),
{
    match s {
        LogSource::Stdout => Tint::White,
        LogSource::Stderr => Tint::Red,
    }
}

/// The text and source of each row.
pub open spec fn row_views(rows: Seq<LogRow>) -> Seq<(Seq<char>, LogSource)> {
    rows.map_values(|r: LogRow| (r.text@, r.source))
}

/// `n` spaces, as a string.
fn spaces_string(n: usize) -> (r: String)
    ensures
        r@ == spaces(n as nat),
{
    let mut out = String::new();
    let mut k: usize = 0;
    while k < n
        invariant
            k <= n,
            out@ == spaces(k as nat),
        decreases n - k,
    {
        push_char(&mut out, ' ');
        k = k + 1;
        assert(out@ =~= spaces(k as nat));
    }
    out
}

/// Appends the rows of log line `l`, whose text gets `w` columns.
fn push_line_rows(out: &mut Vec<LogRow>, l: &LogLine, w: usize)
    ensures
        row_views(final(out)@) == row_views(old(out)@) + line_rows(*l, w as int).map_values(
            |t: Seq<char>| (t, l.source),
        ),
{
    let mut head = String::new();
    push_clock(&mut head, l.timestamp);
    push_char(&mut head, ' ');
    match l.source {
        LogSource::Stdout => head.append("[OUT]"),
        LogSource::Stderr => head.append("[ERR]"),
    }
    push_char(&mut head, ' ');
    assert(head@ =~= row_head(*l));
    let ghost start = row_views(out@);
    let ghost src = l.source;
    if w > 10 {
        let parts = wrap_lines(l.content.as_str(), w);
        let pad = spaces_string(17);
        let ghost rows = line_rows(*l, w as int);
        let ghost pv = parts@.map_values(|p: String| p@);
        assert(pv.len() == parts@.len());
        let mut j: usize = 0;
        while j < parts.len()
            invariant
                j <= parts@.len(),
                w > 10,
                pv == parts@.map_values(|p: String| p@),
                pv == wrapped_lines(l.content@, w),
                rows == line_rows(*l, w as int),
                rows.len() == parts@.len(),
                head@ == row_head(*l),
                pad@ == row_pad(),
                src == l.source,
                row_views(out@) == start + rows.take(j as int).map_values(|t: Seq<char>| (t, src)),
            decreases parts@.len() - j,
        {
            let mut t = if j == 0 { head.clone() } else { pad.clone() };
            t.append(parts[j].as_str());
            assert(pv[j as int] == parts@[j as int]@);
            assert(t@ == rows[j as int]);
            let ghost before = out@;
            out.push(LogRow { text: t, source: l.source });
            proof {
                assert(rows.take(j + 1) =~= rows.take(j as int).push(rows[j as int]));
                assert(row_views(out@) =~= row_views(before).push((rows[j as int], src)));
                assert(rows.take(j + 1).map_values(|t: Seq<char>| (t, src)) =~= rows.take(j as int).map_values(
                    |t: Seq<char>| (t, src),
                ).push((rows[j as int], src)));
            }
            j = j + 1;
        }
        assert(rows.take(parts@.len() as int) =~= rows);
    } else {
        let mut t = head;
        t.append(l.content.as_str());
        let ghost before = out@;
        out.push(LogRow { text: t, source: l.source });
        assert(row_views(out@) =~= row_views(before).push((row_head(*l) + l.content@, src)));
        assert(line_rows(*l, w as int).map_values(|t: Seq<char>| (t, src)) =~= seq![(row_head(*l) + l.content@, src)]);
    }
}

impl State {
    /// The status line: `Status: ` and the label of the selected job's
    /// status, idle when no job is selected.
    pub fn status_section(&self) -> (r: StatusSection)
        ensures
            r.title@ == "Docker Job Status"@,
            r.text@ == "Status: "@ + status_label(shown_status(*self)),
            r.tint == status_line_color(shown_status(*self)),
    {
        let idle = JobStatus::Idle;
        let status = match self.get_selected_job_entry() {
            Some(job) => &job.status,
            None => &idle,
        };
        let tint = match status {
            JobStatus::Idle => Tint::Gray,
            JobStatus::Completed => Tint::Green,
            JobStatus::Failed => Tint::Red,
            _ => Tint::Yellow,
        };
        let mut text = String::from_str("Status: ");
        text.append(status.as_str());
        StatusSection { title: String::from_str("Docker Job Status"), text, tint }
    }

    /// The log area `width` columns wide and `height` rows high, which the
    /// view remembers for scrolling: for the selected job, its rows from the
    /// scroll offset on, as many as fit, under a title with the job's name,
    /// the scroll position, whether the log follows new lines, and `folder`,
    /// the folder the run works in, when there is one.
    pub fn job_logs_section(&mut self, width: u16, height: u16, folder: Option<&str>) -> (r: LogsSection)
        ensures
            *final(self) == (State {
                last_viewport_width: width as usize,
                last_viewport_height: log_area_rows(height) as usize,
                ..*old(self)
            }),
            match selected_entry(*old(self)) {
                None => r matches LogsSection::NoJob { title, message } && title@ == "Job Logs"@ && message@
                    == "No job selected"@,
                Some(e) => r matches LogsSection::Log { title, rows } && title@ == logs_title(
                    e.name@,
                    old(self).scroll_offset,
                    e.logs.view_lines().len(),
                    old(self).auto_scroll_enabled,
                    match folder {
                        Some(p) => Some(p@),
                        None => None,
                    },
                ) && row_views(rows@) == window(
                    all_rows(e.logs.view_lines(), log_text_width(width)),
                    old(self).scroll_offset as int,
                    log_area_rows(height),
                ),
            },
    {
        self.last_viewport_width = width as usize;
        let h: usize = if height >= 2 { (height - 2) as usize } else { 0 };
        self.last_viewport_height = h;
        let job = match self.get_selected_job_entry() {
            None => {
                return LogsSection::NoJob {
                    title: String::from_str("Job Logs"),
                    message: String::from_str("No job selected"),
                };
            },
            Some(job) => job,
        };
        let lines = job.logs.lines();
        let w: usize = if width >= 19 { (width - 19) as usize } else { 0 };
        let ghost ls = lines@;
        let mut all: Vec<LogRow> = Vec::new();
        let mut k: usize = 0;
        while k < lines.len()
            invariant
                k <= ls.len(),
                ls == lines@,
                row_views(all@) == all_rows(ls.take(k as int), w as int),
            decreases ls.len() - k,
        {
            push_line_rows(&mut all, &lines[k], w);
            proof {
                assert(ls.take(k + 1).drop_last() =~= ls.take(k as int));
                assert(ls.take(k + 1).last() == ls[k as int]);
            }
            k = k + 1;
        }
        assert(ls.take(ls.len() as int) =~= ls);
        let n = all.len();
        let offset = self.scroll_offset;
        let lo: usize = if offset < n { offset } else { n };
        let hi: usize = if h < n - lo { lo + h } else { n };
        all.truncate(hi);
        let rows = all.split_off(lo);
        proof {
            let a = all_rows(ls, w as int);
            assert(row_views(rows@) =~= window(a, offset as int, h as int));
        }
        let count = job.logs.len();
        let mut title = String::new();
        title.append(job.name.as_str());
        title.append(" - Logs (");
        push_decimal(&mut title, (if offset < count { offset } else { count }) as u128);
        title.append("/");
        push_decimal(&mut title, count as u128);
        title.append(")");
        if !self.auto_scroll_enabled {
            title.append(" [AUTO-SCROLL PAUSED]");
        }
        match folder {
            Some(p) => {
                title.append(" | Folder: ");
                title.append(p);
                title.append(" | o-Open");
            },
            None => {},
        }
        LogsSection::Log { title, rows }
    }

    /// The job list: `Jobs (n/n)` over the number of jobs, and a row per
    /// job entry.
    pub fn job_list_section(&self) -> (r: JobListSection)
        ensures
            r.title@ == "Jobs ("@ + decimal(self.jobs@.len()) + "/"@ + decimal(self.jobs@.len()) + ")"@,
            r.rows@.len() == self.job_entries@.len(),
            forall|i: int|
                0 <= i < r.rows@.len() ==> job_row_rel(
                    #[trigger] r.rows@[i],
                    self.job_entries@[i],
                    self.selected_job_index == Some(i as usize),
                ),
    {
        let mut rows: Vec<JobRow> = Vec::new();
        let mut i: usize = 0;
        while i < self.job_entries.len()
            invariant
                i <= self.job_entries@.len(),
                rows@.len() == i,
                forall|k: int|
                    0 <= k < i ==> job_row_rel(
                        #[trigger] rows@[k],
                        self.job_entries@[k],
                        self.selected_job_index == Some(k as usize),
                    ),
            decreases self.job_entries@.len() - i,
        {
            let job = &self.job_entries[i];
            let selected = match self.selected_job_index {
                Some(s) => s == i,
                None => false,
            };
            let (symbol, color) = get_job_status_symbol_and_color(&job.status);
            let marker = if selected { "> " } else { "  " };
            let name_tint = if selected { Tint::Cyan } else { color };
            rows.push(JobRow { marker, symbol, tint: color, name: job.name.clone(), name_tint });
            i = i + 1;
        }
        let n = self.jobs.len();
        let mut title = String::from_str("Jobs (");
        push_decimal(&mut title, n as u128);
        title.append("/");
        push_decimal(&mut title, n as u128);
        title.append(")");
        JobListSection { title, rows }
    }
}

} // verus!
