//! Giving a job the files its dependencies produced, before it runs.
//!
//! For each dependency that is a job of the workflow and has an `outputs/`
//! folder, the files in it (all of them, or those matching the job's input
//! patterns) are copied into the job's folder. A file name copied from one
//! dependency is not copied again from another. An [`InputCopy`] makes the
//! decisions and says which file-system call to make next.

use vstd::prelude::*;
use vstd::string::*;

use crate::docker::executor::{notes_view, path_file_name, path_file_name_text, plain, Note, NoteView, StatusView};
use crate::docker::job::JobStatus;
use crate::docker::logs::LogSource;
use crate::paths::{path_join, spec_path_join};
use crate::run::RunStyle;
use crate::text::{concat3, contains_string, decimal, push_decimal};

verus! {

/// The texts of a list of strings.
pub open spec fn strs(v: Seq<String>) -> Seq<Seq<char>> {
    v.map_values(|x: String| x@)
}

/// What a path in a dependency's outputs is.
#[derive(Debug, Clone, Copy, PartialEq, Eq, Structural)]
pub enum EntryKind {
    File,
    Folder,
    /// Neither a regular file nor a folder.
    Other,
}

/// The file-system call to make next.
#[derive(Debug)]
pub enum CopyAction {
    /// Find out whether the folder at `path` exists.
    CheckFolder { path: String },
    /// List the paths in the folder at `path`.
    ListFolder { path: String },
    /// List the paths that match the glob `pattern`.
    Glob { pattern: String },
    /// Find out what the path is.
    Inspect { path: String },
    CopyFile { from: String, to: String },
    /// Copy the folder with all it holds, counting the files.
    CopyFolder { from: String, to: String },
    /// Nothing more to copy.
    Done,
}

/// What came of the last call.
#[derive(Debug)]
pub enum CopyEvent {
    FolderExists(bool),
    Listed(Result<Vec<String>, String>),
    Globbed(Result<Vec<String>, String>),
    Kind(EntryKind),
    FileCopied(Result<(), String>),
    /// The number of files copied, or the error.
    FolderCopied(Result<usize, String>),
}

/// The call an input copy waits on.
#[derive(Debug, Clone, Copy, PartialEq, Eq, Structural)]
pub enum CopyPhase {
    Checking,
    Listing,
    /// Matching input pattern `k`.
    Globbing(usize),
    Inspecting,
    CopyingFile,
    CopyingFolder,
    Done,
}

/// Copying a job's input files from its dependencies' outputs.
#[derive(Debug)]
pub struct InputCopy {
    pub style: RunStyle,
    /// The folder the workflow's jobs are in.
    pub folder: String,
    /// The job that gets the files.
    pub job: String,
    /// The job's dependencies, by name.
    pub deps: Vec<String>,
    /// The names of the workflow's jobs.
    pub names: Vec<String>,
    /// The job's input patterns; none means every output file.
    pub inputs: Vec<String>,
    /// The dependency being handled.
    pub dep: usize,
    /// The paths found in its outputs.
    pub files: Vec<String>,
    /// The path being handled.
    pub file: usize,
    /// The name of the path being handled.
    pub current: String,
    /// The file names copied so far.
    pub copied: Vec<String>,
    pub phase: CopyPhase,
}

/// An input copy as plain values.
#[verifier::ext_equal]
pub struct CopyView {
    pub style: RunStyle,
    pub folder: Seq<char>,
    pub job: Seq<char>,
    pub deps: Seq<Seq<char>>,
    pub names: Seq<Seq<char>>,
    pub inputs: Seq<Seq<char>>,
    pub dep: usize,
    pub files: Seq<Seq<char>>,
    pub file: usize,
    pub current: Seq<char>,
    pub copied: Seq<Seq<char>>,
    pub phase: CopyPhase,
}

/// A call as plain values.
#[verifier::ext_equal]
pub enum CopyActionView {
    Check(Seq<char>),
    List(Seq<char>),
    Glob(Seq<char>),
    Inspect(Seq<char>),
    CopyFile(Seq<char>, Seq<char>),
    CopyFolder(Seq<char>, Seq<char>),
    Done,
}

/// A call as plain values.
pub open spec fn copy_action_view(a: CopyAction) -> CopyActionView {
    match a {
        CopyAction::CheckFolder { path } => CopyActionView::Check(path@),
        CopyAction::ListFolder { path } => CopyActionView::List(path@),
        CopyAction::Glob { pattern } => CopyActionView::Glob(pattern@),
        CopyAction::Inspect { path } => CopyActionView::Inspect(path@),
        CopyAction::CopyFile { from, to } => CopyActionView::CopyFile(from@, to@),
        CopyAction::CopyFolder { from, to } => CopyActionView::CopyFolder(from@, to@),
        CopyAction::Done => CopyActionView::Done,
    }
}

/// The state, messages and call of one step.
pub type CopyStep = (CopyView, Seq<NoteView>, CopyActionView);

/// Whether a step's outcome is `s`.
pub open spec fn is_copy_step(after: CopyView, notes: Seq<Note>, action: CopyAction, s: CopyStep) -> bool {
    &&& after == s.0
    &&& notes_view(notes) == s.1
    &&& copy_action_view(action) == s.2
}

/// A message: a headless run prints `headless` on the standard output, and
/// the interface reports `text` on `source`.
pub open spec fn line(style: RunStyle, headless: Seq<char>, source: LogSource, text: Seq<char>) -> Seq<
    NoteView,
> {
    match style {
        RunStyle::Headless => seq![plain(JobStatus::Running, LogSource::Stdout, headless)],
        RunStyle::Interface => seq![plain(JobStatus::Running, source, text)],
    }
}

/// The `outputs/` folder of job `d`.
pub open spec fn outputs_dir(v: CopyView, d: Seq<char>) -> Seq<char> {
    spec_path_join(spec_path_join(v.folder, d), "outputs"@)
}

/// The folder of the job that gets the files.
pub open spec fn job_dir(v: CopyView) -> Seq<char> {
    spec_path_join(v.folder, v.job)
}

/// The copy ends: the interface reports how many files it copied, when it
/// copied any.
pub open spec fn copy_finish(v: CopyView, ms: Seq<NoteView>) -> CopyStep {
    (
        CopyView { phase: CopyPhase::Done, ..v },
        ms + if v.style == RunStyle::Interface && v.copied.len() > 0 {
            seq![
                plain(
                    JobStatus::Running,
                    LogSource::Stdout,
                    "Copied "@ + decimal(v.copied.len()) + " input file(s) from dependencies"@,
                ),
            ]
        } else {
            Seq::empty()
        },
        CopyActionView::Done,
    )
}

/// From dependency `di` on: a dependency that is no job is skipped with a
/// warning; for the first that is a job, its outputs folder is looked for.
pub open spec fn seek_dep(v: CopyView, di: int, ms: Seq<NoteView>) -> CopyStep
    decreases v.deps.len() - di,
{
    if di < 0 || di >= v.deps.len() {
        copy_finish(v, ms)
    } else {
        let d = v.deps[di];
        if !v.names.contains(d) {
            let t = "Warning: Dependency job '"@ + d + "' not found"@;
            seek_dep(v, di + 1, ms + line(v.style, t, LogSource::Stderr, t))
        } else {
            (
                CopyView { dep: di as usize, phase: CopyPhase::Checking, ..v },
                ms,
                CopyActionView::Check(outputs_dir(v, d)),
            )
        }
    }
}

/// From path `fi` of the dependency's outputs on: a path without a file
/// name is passed over, and one whose name was copied already is skipped
/// with a warning; the first other one is looked at. Past the last path
/// comes the next dependency.
pub open spec fn seek_file(v: CopyView, fi: int, ms: Seq<NoteView>) -> CopyStep
    decreases v.files.len() - fi,
{
    if fi < 0 || fi >= v.files.len() {
        seek_dep(v, v.dep + 1, ms)
    } else {
        let p = v.files[fi];
        match path_file_name_text(p) {
            None => seek_file(v, fi + 1, ms),
            Some(f) => if v.copied.contains(f) {
                let d = v.deps[v.dep as int];
                seek_file(
                    v,
                    fi + 1,
                    ms + line(
                        v.style,
                        "Warning: File '"@ + f + "' already copied, skipping from '"@ + d + "'"@,
                        LogSource::Stderr,
                        "Warning: File '"@ + f + "' already copied from another dependency, skipping from '"@
                            + d + "'"@,
                    ),
                )
            } else {
                (
                    CopyView { file: fi as usize, current: f, phase: CopyPhase::Inspecting, ..v },
                    ms,
                    CopyActionView::Inspect(p),
                )
            },
        }
    }
}

/// Whether a copy in state `v` takes `e`: the event must answer the call it
/// waits on.
pub open spec fn copy_accepts(v: CopyView, e: CopyEvent) -> bool {
    &&& v.dep < v.deps.len()
    &&& match v.phase {
        CopyPhase::Checking => e is FolderExists,
        CopyPhase::Listing => e is Listed,
        CopyPhase::Globbing(k) => e is Globbed && k < v.inputs.len(),
        CopyPhase::Inspecting => e is Kind && v.file < v.files.len(),
        CopyPhase::CopyingFile => e is FileCopied && v.file < v.files.len(),
        CopyPhase::CopyingFolder => e is FolderCopied && v.file < v.files.len(),
        CopyPhase::Done => false,
    }
}

/// The step a copy in state `v` takes on `e`.
pub open spec fn copy_advance(v: CopyView, e: CopyEvent) -> CopyStep {
    let d = v.deps[v.dep as int];
    let f = v.current;
    match e {
        CopyEvent::FolderExists(false) => {
            let t = "No outputs found for dependency '"@ + d + "', skipping"@;
            seek_dep(v, v.dep + 1, line(v.style, t, LogSource::Stdout, t))
        },
        CopyEvent::FolderExists(true) => if v.inputs.len() == 0 {
            (CopyView { phase: CopyPhase::Listing, ..v }, Seq::empty(), CopyActionView::List(outputs_dir(v, d)))
        } else {
            (
                CopyView { files: Seq::empty(), phase: CopyPhase::Globbing(0), ..v },
                Seq::empty(),
                CopyActionView::Glob(spec_path_join(outputs_dir(v, d), v.inputs[0])),
            )
        },
        CopyEvent::Listed(Err(m)) => {
            let t = "Error reading outputs from '"@ + d + "': "@ + m@;
            seek_dep(v, v.dep + 1, line(v.style, t, LogSource::Stderr, t))
        },
        CopyEvent::Listed(Ok(paths)) => seek_file(CopyView { files: strs(paths@), ..v }, 0, Seq::empty()),
        CopyEvent::Globbed(r) => {
            let k = match v.phase {
                CopyPhase::Globbing(k) => k as int,
                _ => 0,
            };
            let files = match r {
                Ok(paths) => v.files + strs(paths@),
                Err(_) => v.files,
            };
            let ms = match r {
                Ok(_) => Seq::empty(),
                Err(m) => {
                    let t = "Invalid glob pattern '"@ + v.inputs[k] + "': "@ + m@;
                    line(v.style, t, LogSource::Stderr, t)
                },
            };
            if k + 1 < v.inputs.len() {
                (
                    CopyView { files, phase: CopyPhase::Globbing((k + 1) as usize), ..v },
                    ms,
                    CopyActionView::Glob(spec_path_join(outputs_dir(v, d), v.inputs[k + 1])),
                )
            } else {
                seek_file(CopyView { files, ..v }, 0, ms)
            }
        },
        CopyEvent::Kind(EntryKind::File) => (
            CopyView { phase: CopyPhase::CopyingFile, ..v },
            Seq::empty(),
            CopyActionView::CopyFile(v.files[v.file as int], spec_path_join(job_dir(v), f)),
        ),
        CopyEvent::Kind(EntryKind::Folder) => (
            CopyView { phase: CopyPhase::CopyingFolder, ..v },
            Seq::empty(),
            CopyActionView::CopyFolder(v.files[v.file as int], spec_path_join(job_dir(v), f)),
        ),
        CopyEvent::Kind(EntryKind::Other) => seek_file(
            v,
            v.file + 1,
            match v.style {
                RunStyle::Headless => Seq::empty(),
                RunStyle::Interface => seq![
                    plain(
                        JobStatus::Running,
                        LogSource::Stderr,
                        "Warning: Skipping '"@ + f + "' from '"@ + d
                            + "' (not a regular file or directory)"@,
                    ),
                ],
            },
        ),
        CopyEvent::FileCopied(Ok(_)) => seek_file(
            CopyView { copied: v.copied.push(f), ..v },
            v.file + 1,
            line(
                v.style,
                "Copied '"@ + f + "' from '"@ + d + "'"@,
                LogSource::Stdout,
                "Copied file '"@ + f + "' from '"@ + d + "'"@,
            ),
        ),
        CopyEvent::FileCopied(Err(m)) => seek_file(
            v,
            v.file + 1,
            line(
                v.style,
                "Error copying '"@ + f + "': "@ + m@,
                LogSource::Stderr,
                "Error copying file '"@ + f + "' from '"@ + d + "': "@ + m@,
            ),
        ),
        CopyEvent::FolderCopied(Ok(n)) => seek_file(
            CopyView { copied: v.copied.push(f), ..v },
            v.file + 1,
            line(
                v.style,
                "Copied directory '"@ + f + "/' ("@ + decimal(n as nat) + " files) from '"@ + d + "'"@,
                LogSource::Stdout,
                "Copied directory '"@ + f + "/' ("@ + decimal(n as nat) + " file(s)) from '"@ + d + "'"@,
            ),
        ),
        CopyEvent::FolderCopied(Err(m)) => seek_file(
            v,
            v.file + 1,
            line(
                v.style,
                "Error copying directory '"@ + f + "': "@ + m@,
                LogSource::Stderr,
                "Error copying directory '"@ + f + "/' from '"@ + d + "': "@ + m@,
            ),
        ),
    }
}

/// Adds a message.
fn push_line(notes: &mut Vec<Note>, style: RunStyle, headless: String, source: LogSource, text: String)
    ensures
        notes_view(final(notes)@) == notes_view(old(notes)@) + line(style, headless@, source, text@),
{
    let ghost before = notes_view(notes@);
    match style {
        RunStyle::Headless => {
            notes.push(Note { status: JobStatus::Running, source: LogSource::Stdout, text: headless });
        },
        RunStyle::Interface => {
            notes.push(Note { status: JobStatus::Running, source, text });
        },
    }
    proof {
        assert(notes_view(notes@) =~= before + line(style, headless@, source, text@));
    }
}

/// The `outputs/` folder of job `d` in `folder`.
fn outputs_path(folder: &str, d: &str) -> (r: String)
    ensures
        r@ == spec_path_join(spec_path_join(folder@, d@), "outputs"@),
{
    let a = path_join(folder, d);
    path_join(a.as_str(), "outputs")
}

impl InputCopy {
    /// The copy as plain values.
    pub open spec fn copy_view(&self) -> CopyView {
        CopyView {
            style: self.style,
            folder: self.folder@,
            job: self.job@,
            deps: strs(self.deps@),
            names: strs(self.names@),
            inputs: strs(self.inputs@),
            dep: self.dep,
            files: strs(self.files@),
            file: self.file,
            current: self.current@,
            copied: strs(self.copied@),
            phase: self.phase,
        }
    }

    fn finish(&mut self, notes: Vec<Note>) -> (r: (Vec<Note>, CopyAction))
        ensures
            is_copy_step(final(self).copy_view(), r.0@, r.1, copy_finish(old(self).copy_view(), notes_view(notes@))),
    {
        let mut notes = notes;
        let ghost before = notes_view(notes@);
        if self.style == RunStyle::Interface && self.copied.len() > 0 {
            let mut text = String::from_str("Copied ");
            push_decimal(&mut text, self.copied.len() as u128);
            text.append(" input file(s) from dependencies");
            notes.push(Note { status: JobStatus::Running, source: LogSource::Stdout, text });
            proof {
                assert(notes_view(notes@) =~= before + seq![
                    plain(
                        JobStatus::Running,
                        LogSource::Stdout,
                        "Copied "@ + decimal(self.copied@.len()) + " input file(s) from dependencies"@,
                    ),
                ]);
            }
        } else {
            proof {
                assert(notes_view(notes@) =~= before + Seq::<NoteView>::empty());
            }
        }
        self.phase = CopyPhase::Done;
        (notes, CopyAction::Done)
    }

    fn seek_dep(&mut self, di: usize, notes: Vec<Note>) -> (r: (Vec<Note>, CopyAction))
        ensures
            is_copy_step(final(self).copy_view(), r.0@, r.1, seek_dep(old(self).copy_view(), di as int, notes_view(notes@))),
    {
        let ghost v = self.copy_view();
        let ghost goal = seek_dep(v, di as int, notes_view(notes@));
        let mut notes = notes;
        let mut i = di;
        let n = self.deps.len();
        while i < n && !contains_string(&self.names, self.deps[i].as_str())
            invariant
                n == self.deps@.len(),
                v == self.copy_view(),
                di <= i,
                goal == seek_dep(v, i as int, notes_view(notes@)),
            decreases n - i,
        {
            let t = concat3("Warning: Dependency job '", self.deps[i].as_str(), "' not found");
            let t2 = t.clone();
            push_line(&mut notes, self.style, t, LogSource::Stderr, t2);
            i = i + 1;
        }
        if i >= n {
            return self.finish(notes);
        }
        self.dep = i;
        self.phase = CopyPhase::Checking;
        let path = outputs_path(self.folder.as_str(), self.deps[i].as_str());
        (notes, CopyAction::CheckFolder { path })
    }

    fn seek_file(&mut self, fi: usize, notes: Vec<Note>) -> (r: (Vec<Note>, CopyAction))
        requires
            old(self).dep < old(self).deps@.len(),
        ensures
            is_copy_step(final(self).copy_view(), r.0@, r.1, seek_file(old(self).copy_view(), fi as int, notes_view(notes@))),
    {
        let ghost v = self.copy_view();
        let ghost goal = seek_file(v, fi as int, notes_view(notes@));
        let mut notes = notes;
        let mut i = fi;
        let n = self.files.len();
        let mut found: Option<String> = None;
        while i < n && found.is_none()
            invariant
                n == self.files@.len(),
                v == self.copy_view(),
                self.dep < self.deps@.len(),
                fi <= i,
                goal == seek_file(v, i as int, notes_view(notes@)),
                found matches Some(f) ==> {
                    &&& i < n
                    &&& path_file_name_text(v.files[i as int]) == Some(f@)
                    &&& !v.copied.contains(f@)
                },
            decreases n - i, (if found is None { 1int } else { 0int }),
        {
            match path_file_name(self.files[i].as_str()) {
                None => {
                    i = i + 1;
                },
                Some(f) => {
                    if contains_string(&self.copied, f.as_str()) {
                        let d = self.deps[self.dep].as_str();
                        let mut h = concat3("Warning: File '", f.as_str(), "' already copied, skipping from '");
                        h.append(d);
                        h.append("'");
                        let mut t = concat3(
                            "Warning: File '",
                            f.as_str(),
                            "' already copied from another dependency, skipping from '",
                        );
                        t.append(d);
                        t.append("'");
                        push_line(&mut notes, self.style, h, LogSource::Stderr, t);
                        i = i + 1;
                    } else {
                        found = Some(f);
                    }
                },
            }
        }
        match found {
            Some(f) => {
                let ghost fv = f@;
                self.file = i;
                self.current = f;
                self.phase = CopyPhase::Inspecting;
                let path = self.files[i].clone();
                proof {
                    assert(self.copy_view() =~= CopyView {
                        file: i as usize,
                        current: fv,
                        phase: CopyPhase::Inspecting,
                        ..v
                    });
                }
                (notes, CopyAction::Inspect { path })
            },
            None => {
                let nd = self.deps.len();
                assert(self.dep < nd);
                let next = self.dep + 1;
                self.seek_dep(next, notes)
            },
        }
    }

    /// Starts copying the input files of job `job` of the workflow in
    /// `folder`, from its dependencies `deps`; `names` are the workflow's
    /// jobs and `inputs` the job's input patterns.
    pub fn start(
        style: RunStyle,
        folder: String,
        job: String,
        deps: Vec<String>,
        names: Vec<String>,
        inputs: Vec<String>,
    ) -> (r: (InputCopy, Vec<Note>, CopyAction))
        ensures
            is_copy_step(
                r.0.copy_view(),
                r.1@,
                r.2,
                seek_dep(
                    CopyView {
                        style,
                        folder: folder@,
                        job: job@,
                        deps: strs(deps@),
                        names: strs(names@),
                        inputs: strs(inputs@),
                        dep: 0,
                        files: Seq::empty(),
                        file: 0,
                        current: Seq::empty(),
                        copied: Seq::empty(),
                        phase: CopyPhase::Checking,
                    },
                    0,
                    Seq::empty(),
                ),
            ),
            copy_inv(r.0.copy_view()),
    {
        let mut c = InputCopy {
            style,
            folder,
            job,
            deps,
            names,
            inputs,
            dep: 0,
            files: Vec::new(),
            file: 0,
            current: String::new(),
            copied: Vec::new(),
            phase: CopyPhase::Checking,
        };
        let notes: Vec<Note> = Vec::new();
        proof {
            assert(notes_view(notes@) =~= Seq::<NoteView>::empty());
            assert(strs(c.files@) =~= Seq::<Seq<char>>::empty());
            assert(strs(c.copied@) =~= Seq::<Seq<char>>::empty());
        }
        proof {
            lemma_start_inv(c.copy_view());
        }
        let (notes, action) = c.seek_dep(0, notes);
        (c, notes, action)
    }

    /// Whether the copy takes `event`: whether it answers the call the copy
    /// waits on.
    pub fn accepts(&self, event: &CopyEvent) -> (r: bool)
        ensures
            r == copy_accepts(self.copy_view(), *event),
    {
        if self.dep >= self.deps.len() {
            return false;
        }
        match self.phase {
            CopyPhase::Checking => matches!(event, CopyEvent::FolderExists(_)),
            CopyPhase::Listing => matches!(event, CopyEvent::Listed(_)),
            CopyPhase::Globbing(k) => matches!(event, CopyEvent::Globbed(_)) && k < self.inputs.len(),
            CopyPhase::Inspecting => matches!(event, CopyEvent::Kind(_)) && self.file < self.files.len(),
            CopyPhase::CopyingFile => matches!(event, CopyEvent::FileCopied(_)) && self.file
                < self.files.len(),
            CopyPhase::CopyingFolder => matches!(event, CopyEvent::FolderCopied(_)) && self.file
                < self.files.len(),
            CopyPhase::Done => false,
        }
    }

    /// Whether the copy is over.
    pub fn is_done(&self) -> (r: bool)
        ensures
            r == (self.phase == CopyPhase::Done),
    {
        matches!(self.phase, CopyPhase::Done)
    }

    /// How many files were copied.
    pub fn copied_count(&self) -> (r: usize)
        ensures
            r == self.copied@.len(),
    {
        self.copied.len()
    }

    /// Takes what came of the last call: the messages to report and the
    /// next call.
    pub fn advance(&mut self, event: CopyEvent) -> (r: (Vec<Note>, CopyAction))
        requires
            copy_accepts(old(self).copy_view(), event),
        ensures
            is_copy_step(final(self).copy_view(), r.0@, r.1, copy_advance(old(self).copy_view(), event)),
            copy_inv(old(self).copy_view()) ==> copy_inv(final(self).copy_view()),
    {
        let ghost v = self.copy_view();
        proof {
            if copy_inv(v) {
                law_copied_names_distinct(v, event);
            }
        }
        let notes: Vec<Note> = Vec::new();
        proof {
            assert(notes_view(notes@) =~= Seq::<NoteView>::empty());
        }
        let nd = self.deps.len();
        assert(self.dep < nd);
        let next_dep = self.dep + 1;
        match event {
            CopyEvent::FolderExists(false) => {
                let mut notes = notes;
                let t = concat3("No outputs found for dependency '", self.deps[self.dep].as_str(), "', skipping");
                let t2 = t.clone();
                push_line(&mut notes, self.style, t, LogSource::Stdout, t2);
                self.seek_dep(next_dep, notes)
            },
            CopyEvent::FolderExists(true) => {
                let dir = outputs_path(self.folder.as_str(), self.deps[self.dep].as_str());
                if self.inputs.len() == 0 {
                    self.phase = CopyPhase::Listing;
                    (notes, CopyAction::ListFolder { path: dir })
                } else {
                    self.files = Vec::new();
                    self.phase = CopyPhase::Globbing(0);
                    let pattern = path_join(dir.as_str(), self.inputs[0].as_str());
                    proof {
                        assert(self.copy_view() =~= CopyView {
                            files: Seq::empty(),
                            phase: CopyPhase::Globbing(0),
                            ..v
                        });
                    }
                    (notes, CopyAction::Glob { pattern })
                }
            },
            CopyEvent::Listed(Err(m)) => {
                let mut notes = notes;
                let mut t = concat3("Error reading outputs from '", self.deps[self.dep].as_str(), "': ");
                t.append(m.as_str());
                let t2 = t.clone();
                push_line(&mut notes, self.style, t, LogSource::Stderr, t2);
                self.seek_dep(next_dep, notes)
            },
            CopyEvent::Listed(Ok(paths)) => {
                self.files = paths;
                self.seek_file(0, notes)
            },
            CopyEvent::Globbed(result) => {
                let k = match self.phase {
                    CopyPhase::Globbing(k) => k,
                    _ => 0,
                };
                let mut notes = notes;
                match result {
                    Ok(paths) => {
                        let ghost before = strs(self.files@);
                        let ghost added = strs(paths@);
                        let mut paths = paths;
                        self.files.append(&mut paths);
                        proof {
                            assert(strs(self.files@) =~= before + added);
                        }
                    },
                    Err(m) => {
                        let mut t = concat3("Invalid glob pattern '", self.inputs[k].as_str(), "': ");
                        t.append(m.as_str());
                        let t2 = t.clone();
                        push_line(&mut notes, self.style, t, LogSource::Stderr, t2);
                    },
                }
                let ni = self.inputs.len();
                assert(k < ni);
                if k + 1 < ni {
                    self.phase = CopyPhase::Globbing(k + 1);
                    let dir = outputs_path(self.folder.as_str(), self.deps[self.dep].as_str());
                    let pattern = path_join(dir.as_str(), self.inputs[k + 1].as_str());
                    (notes, CopyAction::Glob { pattern })
                } else {
                    self.seek_file(0, notes)
                }
            },
            CopyEvent::Kind(kind) => {
                let dir = path_join(self.folder.as_str(), self.job.as_str());
                let to = path_join(dir.as_str(), self.current.as_str());
                let from = self.files[self.file].clone();
                match kind {
                    EntryKind::File => {
                        self.phase = CopyPhase::CopyingFile;
                        (notes, CopyAction::CopyFile { from, to })
                    },
                    EntryKind::Folder => {
                        self.phase = CopyPhase::CopyingFolder;
                        (notes, CopyAction::CopyFolder { from, to })
                    },
                    EntryKind::Other => {
                        let mut notes = notes;
                        if self.style == RunStyle::Interface {
                            let mut t = concat3("Warning: Skipping '", self.current.as_str(), "' from '");
                            t.append(self.deps[self.dep].as_str());
                            t.append("' (not a regular file or directory)");
                            notes.push(Note { status: JobStatus::Running, source: LogSource::Stderr, text: t });
                        }
                        proof {
                            assert(notes_view(notes@) =~= match self.style {
                                RunStyle::Headless => Seq::<NoteView>::empty(),
                                RunStyle::Interface => seq![
                                    plain(
                                        JobStatus::Running,
                                        LogSource::Stderr,
                                        "Warning: Skipping '"@ + v.current + "' from '"@ + v.deps[v.dep as int]
                                            + "' (not a regular file or directory)"@,
                                    ),
                                ],
                            });
                        }
                        let nf = self.files.len();
                        assert(self.file < nf);
                        let next = self.file + 1;
                        self.seek_file(next, notes)
                    },
                }
            },
            CopyEvent::FileCopied(result) => {
                let mut notes = notes;
                let f = self.current.as_str();
                let d = self.deps[self.dep].as_str();
                match result {
                    Ok(_) => {
                        let mut h = concat3("Copied '", f, "' from '");
                        h.append(d);
                        h.append("'");
                        let mut t = concat3("Copied file '", f, "' from '");
                        t.append(d);
                        t.append("'");
                        let ghost lv = line(self.style, h@, LogSource::Stdout, t@);
                        push_line(&mut notes, self.style, h, LogSource::Stdout, t);
                        let name = self.current.clone();
                        self.copied.push(name);
                        proof {
                            assert(notes_view(notes@) =~= lv);
                            assert(self.copy_view() =~= CopyView { copied: v.copied.push(v.current), ..v });
                        }
                    },
                    Err(m) => {
                        let mut h = concat3("Error copying '", f, "': ");
                        h.append(m.as_str());
                        let mut t = concat3("Error copying file '", f, "' from '");
                        t.append(d);
                        t.append("': ");
                        t.append(m.as_str());
                        let ghost lv = line(self.style, h@, LogSource::Stderr, t@);
                        push_line(&mut notes, self.style, h, LogSource::Stderr, t);
                        proof {
                            assert(notes_view(notes@) =~= lv);
                        }
                    },
                }
                let nf = self.files.len();
                assert(self.file < nf);
                let next = self.file + 1;
                self.seek_file(next, notes)
            },
            CopyEvent::FolderCopied(result) => {
                let mut notes = notes;
                let f = self.current.as_str();
                let d = self.deps[self.dep].as_str();
                match result {
                    Ok(count) => {
                        let mut h = concat3("Copied directory '", f, "/' (");
                        push_decimal(&mut h, count as u128);
                        h.append(" files) from '");
                        h.append(d);
                        h.append("'");
                        let mut t = concat3("Copied directory '", f, "/' (");
                        push_decimal(&mut t, count as u128);
                        t.append(" file(s)) from '");
                        t.append(d);
                        t.append("'");
                        let ghost lv = line(self.style, h@, LogSource::Stdout, t@);
                        push_line(&mut notes, self.style, h, LogSource::Stdout, t);
                        let name = self.current.clone();
                        self.copied.push(name);
                        proof {
                            assert(notes_view(notes@) =~= lv);
                            assert(self.copy_view() =~= CopyView { copied: v.copied.push(v.current), ..v });
                        }
                    },
                    Err(m) => {
                        let mut h = concat3("Error copying directory '", f, "': ");
                        h.append(m.as_str());
                        let mut t = concat3("Error copying directory '", f, "/' from '");
                        t.append(d);
                        t.append("': ");
                        t.append(m.as_str());
                        let ghost lv = line(self.style, h@, LogSource::Stderr, t@);
                        push_line(&mut notes, self.style, h, LogSource::Stderr, t);
                        proof {
                            assert(notes_view(notes@) =~= lv);
                        }
                    },
                }
                let nf = self.files.len();
                assert(self.file < nf);
                let next = self.file + 1;
                self.seek_file(next, notes)
            },
        }
    }
}

/// No file name is copied twice, and the file being handled has not been
/// copied yet.
pub open spec fn copy_inv(v: CopyView) -> bool {
    &&& v.copied.no_duplicates()
    &&& (v.phase is Inspecting || v.phase is CopyingFile || v.phase is CopyingFolder) ==> !v.copied.contains(
        v.current,
    )
}

/// Looking for the next dependency keeps the copied names, and leaves the
/// copy waiting on a folder check or done.
proof fn lemma_seek_dep_inv(v: CopyView, di: int, ms: Seq<NoteView>)
    requires
        v.copied.no_duplicates(),
    ensures
        seek_dep(v, di, ms).0.copied == v.copied,
        copy_inv(seek_dep(v, di, ms).0),
    decreases v.deps.len() - di,
{
    if !(di < 0 || di >= v.deps.len()) && !v.names.contains(v.deps[di]) {
        let t = "Warning: Dependency job '"@ + v.deps[di] + "' not found"@;
        lemma_seek_dep_inv(v, di + 1, ms + line(v.style, t, LogSource::Stderr, t));
    }
}

/// Looking for the next file keeps the copied names, and picks only a file
/// whose name has not been copied.
proof fn lemma_seek_file_inv(v: CopyView, fi: int, ms: Seq<NoteView>)
    requires
        v.copied.no_duplicates(),
    ensures
        seek_file(v, fi, ms).0.copied == v.copied,
        copy_inv(seek_file(v, fi, ms).0),
    decreases v.files.len() - fi,
{
    if fi < 0 || fi >= v.files.len() {
        lemma_seek_dep_inv(v, v.dep + 1, ms);
    } else {
        let p = v.files[fi];
        match path_file_name_text(p) {
            None => lemma_seek_file_inv(v, fi + 1, ms),
            Some(f) => if v.copied.contains(f) {
                let d = v.deps[v.dep as int];
                lemma_seek_file_inv(
                    v,
                    fi + 1,
                    ms + line(
                        v.style,
                        "Warning: File '"@ + f + "' already copied, skipping from '"@ + d + "'"@,
                        LogSource::Stderr,
                        "Warning: File '"@ + f + "' already copied from another dependency, skipping from '"@
                            + d + "'"@,
                    ),
                );
            },
        }
    }
}

/// Adding a name that is not in a list without repeats keeps it without
/// repeats.
proof fn lemma_push_fresh(s: Seq<Seq<char>>, x: Seq<char>)
    requires
        s.no_duplicates(),
        !s.contains(x),
    ensures
        s.push(x).no_duplicates(),
{
    assert forall|i: int, j: int| 0 <= i < s.push(x).len() && 0 <= j < s.push(x).len() && i != j implies s.push(
        x,
    )[i] != s.push(x)[j] by {
        if i == s.len() {
            assert(s[j] == s.push(x)[j]);
        } else if j == s.len() {
            assert(s[i] == s.push(x)[i]);
        }
    }
}

/// Whatever the file system answers, a copy never copies a file name twice:
/// a name copied from one dependency is skipped in the others.
pub proof fn law_copied_names_distinct(v: CopyView, e: CopyEvent)
    requires
        copy_inv(v),
        copy_accepts(v, e),
    ensures
        copy_inv(copy_advance(v, e).0),
        copy_advance(v, e).0.copied.len() <= v.copied.len() + 1,
{
    let d = v.deps[v.dep as int];
    let f = v.current;
    match e {
        CopyEvent::FolderExists(false) => {
            let t = "No outputs found for dependency '"@ + d + "', skipping"@;
            lemma_seek_dep_inv(v, v.dep + 1, line(v.style, t, LogSource::Stdout, t));
        },
        CopyEvent::Listed(Err(m)) => {
            let t = "Error reading outputs from '"@ + d + "': "@ + m@;
            lemma_seek_dep_inv(v, v.dep + 1, line(v.style, t, LogSource::Stderr, t));
        },
        CopyEvent::Listed(Ok(paths)) => {
            lemma_seek_file_inv(CopyView { files: strs(paths@), ..v }, 0, Seq::empty());
        },
        CopyEvent::Globbed(r) => {
            let k = match v.phase {
                CopyPhase::Globbing(k) => k as int,
                _ => 0,
            };
            let files = match r {
                Ok(paths) => v.files + strs(paths@),
                Err(_) => v.files,
            };
            let ms = match r {
                Ok(_) => Seq::empty(),
                Err(m) => {
                    let t = "Invalid glob pattern '"@ + v.inputs[k] + "': "@ + m@;
                    line(v.style, t, LogSource::Stderr, t)
                },
            };
            if k + 1 >= v.inputs.len() {
                lemma_seek_file_inv(CopyView { files, ..v }, 0, ms);
            }
        },
        CopyEvent::Kind(EntryKind::Other) => {
            lemma_seek_file_inv(
                v,
                v.file + 1,
                match v.style {
                    RunStyle::Headless => Seq::empty(),
                    RunStyle::Interface => seq![
                        plain(
                            JobStatus::Running,
                            LogSource::Stderr,
                            "Warning: Skipping '"@ + f + "' from '"@ + d
                                + "' (not a regular file or directory)"@,
                        ),
                    ],
                },
            );
        },
        CopyEvent::FileCopied(Ok(_)) => {
            lemma_push_fresh(v.copied, f);
            lemma_seek_file_inv(
                CopyView { copied: v.copied.push(f), ..v },
                v.file + 1,
                line(
                    v.style,
                    "Copied '"@ + f + "' from '"@ + d + "'"@,
                    LogSource::Stdout,
                    "Copied file '"@ + f + "' from '"@ + d + "'"@,
                ),
            );
        },
        CopyEvent::FileCopied(Err(m)) => {
            lemma_seek_file_inv(
                v,
                v.file + 1,
                line(
                    v.style,
                    "Error copying '"@ + f + "': "@ + m@,
                    LogSource::Stderr,
                    "Error copying file '"@ + f + "' from '"@ + d + "': "@ + m@,
                ),
            );
        },
        CopyEvent::FolderCopied(Ok(n)) => {
            lemma_push_fresh(v.copied, f);
            lemma_seek_file_inv(
                CopyView { copied: v.copied.push(f), ..v },
                v.file + 1,
                line(
                    v.style,
                    "Copied directory '"@ + f + "/' ("@ + decimal(n as nat) + " files) from '"@ + d + "'"@,
                    LogSource::Stdout,
                    "Copied directory '"@ + f + "/' ("@ + decimal(n as nat) + " file(s)) from '"@ + d
                        + "'"@,
                ),
            );
        },
        CopyEvent::FolderCopied(Err(m)) => {
            lemma_seek_file_inv(
                v,
                v.file + 1,
                line(
                    v.style,
                    "Error copying directory '"@ + f + "': "@ + m@,
                    LogSource::Stderr,
                    "Error copying directory '"@ + f + "/' from '"@ + d + "': "@ + m@,
                ),
            );
        },
        _ => {},
    }
}

/// A copy starts with nothing copied.
pub proof fn lemma_start_inv(v: CopyView)
    requires
        v.copied.len() == 0,
    ensures
        copy_inv(seek_dep(v, 0, Seq::empty()).0),
{
    lemma_seek_dep_inv(v, 0, Seq::empty());
}

/// Every note reports the job as running.
pub open spec fn all_running(ms: Seq<NoteView>) -> bool {
    forall|i: int| 0 <= i < ms.len() ==> (#[trigger] ms[i]).0 == StatusView::Plain(JobStatus::Running)
}

/// A call writes, if at all, only into the folder of the job that gets the
/// files: a copy goes to a name directly inside it.
pub open spec fn writes_within(v: CopyView, a: CopyActionView) -> bool {
    match a {
        CopyActionView::CopyFile(_, to) => exists|f: Seq<char>| to == spec_path_join(job_dir(v), f),
        CopyActionView::CopyFolder(_, to) => exists|f: Seq<char>| to == spec_path_join(job_dir(v), f),
        _ => true,
    }
}

/// A step keeps what the copy works on: the run's folder, the job, its
/// dependencies, the job names and the input patterns.
pub open spec fn same_copy(v: CopyView, w: CopyView) -> bool {
    &&& w.style == v.style
    &&& w.folder == v.folder
    &&& w.job == v.job
    &&& w.deps == v.deps
    &&& w.names == v.names
    &&& w.inputs == v.inputs
}

proof fn lemma_line_running(style: RunStyle, headless: Seq<char>, source: LogSource, text: Seq<char>)
    ensures
        all_running(line(style, headless, source, text)),
{
}

proof fn lemma_concat_running(a: Seq<NoteView>, b: Seq<NoteView>)
    requires
        all_running(a),
        all_running(b),
    ensures
        all_running(a + b),
{
    assert forall|i: int| 0 <= i < (a + b).len() implies (#[trigger] (a + b)[i]).0 == StatusView::Plain(
        JobStatus::Running,
    ) by {
        if i < a.len() {
            assert((a + b)[i] == a[i]);
        } else {
            assert((a + b)[i] == b[i - a.len()]);
        }
    }
}

proof fn lemma_seek_dep_step(v: CopyView, di: int, ms: Seq<NoteView>)
    requires
        all_running(ms),
    ensures
        all_running(seek_dep(v, di, ms).1),
        writes_within(v, seek_dep(v, di, ms).2),
        same_copy(v, seek_dep(v, di, ms).0),
    decreases v.deps.len() - di,
{
    if di < 0 || di >= v.deps.len() {
        let extra = if v.style == RunStyle::Interface && v.copied.len() > 0 {
            seq![
                plain(
                    JobStatus::Running,
                    LogSource::Stdout,
                    "Copied "@ + decimal(v.copied.len()) + " input file(s) from dependencies"@,
                ),
            ]
        } else {
            Seq::empty()
        };
        lemma_concat_running(ms, extra);
    } else {
        let d = v.deps[di];
        if !v.names.contains(d) {
            let t = "Warning: Dependency job '"@ + d + "' not found"@;
            lemma_line_running(v.style, t, LogSource::Stderr, t);
            lemma_concat_running(ms, line(v.style, t, LogSource::Stderr, t));
            lemma_seek_dep_step(v, di + 1, ms + line(v.style, t, LogSource::Stderr, t));
        }
    }
}

proof fn lemma_seek_file_step(v: CopyView, fi: int, ms: Seq<NoteView>)
    requires
        all_running(ms),
    ensures
        all_running(seek_file(v, fi, ms).1),
        writes_within(v, seek_file(v, fi, ms).2),
        same_copy(v, seek_file(v, fi, ms).0),
    decreases v.files.len() - fi,
{
    if fi < 0 || fi >= v.files.len() {
        lemma_seek_dep_step(v, v.dep + 1, ms);
    } else {
        let p = v.files[fi];
        match path_file_name_text(p) {
            None => lemma_seek_file_step(v, fi + 1, ms),
            Some(f) => if v.copied.contains(f) {
                let d = v.deps[v.dep as int];
                let l = line(
                    v.style,
                    "Warning: File '"@ + f + "' already copied, skipping from '"@ + d + "'"@,
                    LogSource::Stderr,
                    "Warning: File '"@ + f + "' already copied from another dependency, skipping from '"@ + d
                        + "'"@,
                );
                lemma_concat_running(ms, l);
                lemma_seek_file_step(v, fi + 1, ms + l);
            },
        }
    }
}

/// A view that differs only in what it walks through copies into the same
/// folder and keeps the same copy.
proof fn lemma_same_copy_trans(v: CopyView, w: CopyView, x: CopyView, a: CopyActionView)
    requires
        same_copy(v, w),
        same_copy(w, x),
        writes_within(w, a),
    ensures
        same_copy(v, x),
        writes_within(v, a),
{
    assert(job_dir(v) == job_dir(w));
}

/// Whatever the file system answers, every step of an input copy reports
/// the job as running, writes only into the folder of the job that gets the
/// files, and keeps the run's folder, the job, its dependencies, the job
/// names and the input patterns.
pub proof fn law_copy_writes_only_into_the_job(v: CopyView, e: CopyEvent)
    requires
        copy_accepts(v, e),
    ensures
        all_running(copy_advance(v, e).1),
        writes_within(v, copy_advance(v, e).2),
        same_copy(v, copy_advance(v, e).0),
{
    let d = v.deps[v.dep as int];
    let f = v.current;
    let empty = Seq::<NoteView>::empty();
    match e {
        CopyEvent::FolderExists(false) => {
            let t = "No outputs found for dependency '"@ + d + "', skipping"@;
            lemma_seek_dep_step(v, v.dep + 1, line(v.style, t, LogSource::Stdout, t));
        },
        CopyEvent::FolderExists(true) => {},
        CopyEvent::Listed(Err(m)) => {
            let t = "Error reading outputs from '"@ + d + "': "@ + m@;
            lemma_seek_dep_step(v, v.dep + 1, line(v.style, t, LogSource::Stderr, t));
        },
        CopyEvent::Listed(Ok(paths)) => {
            let w = CopyView { files: strs(paths@), ..v };
            lemma_seek_file_step(w, 0, empty);
            lemma_same_copy_trans(v, w, seek_file(w, 0, empty).0, seek_file(w, 0, empty).2);
        },
        CopyEvent::Globbed(r) => {
            let k = match v.phase {
                CopyPhase::Globbing(k) => k as int,
                _ => 0,
            };
            let files = match r {
                Ok(paths) => v.files + strs(paths@),
                Err(_) => v.files,
            };
            let ms = match r {
                Ok(_) => Seq::empty(),
                Err(m) => {
                    let t = "Invalid glob pattern '"@ + v.inputs[k] + "': "@ + m@;
                    line(v.style, t, LogSource::Stderr, t)
                },
            };
            if k + 1 >= v.inputs.len() {
                let w = CopyView { files, ..v };
                lemma_seek_file_step(w, 0, ms);
                lemma_same_copy_trans(v, w, seek_file(w, 0, ms).0, seek_file(w, 0, ms).2);
            }
        },
        CopyEvent::Kind(EntryKind::File) => {
            assert(copy_advance(v, e).2 == CopyActionView::CopyFile(
                v.files[v.file as int],
                spec_path_join(job_dir(v), f),
            ));
        },
        CopyEvent::Kind(EntryKind::Folder) => {
            assert(copy_advance(v, e).2 == CopyActionView::CopyFolder(
                v.files[v.file as int],
                spec_path_join(job_dir(v), f),
            ));
        },
        CopyEvent::Kind(EntryKind::Other) => {
            let ms: Seq<NoteView> = match v.style {
                RunStyle::Headless => Seq::empty(),
                RunStyle::Interface => seq![
                    plain(
                        JobStatus::Running,
                        LogSource::Stderr,
                        "Warning: Skipping '"@ + f + "' from '"@ + d + "' (not a regular file or directory)"@,
                    ),
                ],
            };
            lemma_seek_file_step(v, v.file + 1, ms);
        },
        CopyEvent::FileCopied(Ok(_)) => {
            let w = CopyView { copied: v.copied.push(f), ..v };
            let l = line(
                v.style,
                "Copied '"@ + f + "' from '"@ + d + "'"@,
                LogSource::Stdout,
                "Copied file '"@ + f + "' from '"@ + d + "'"@,
            );
            lemma_seek_file_step(w, v.file + 1, l);
            lemma_same_copy_trans(v, w, seek_file(w, v.file + 1, l).0, seek_file(w, v.file + 1, l).2);
        },
        CopyEvent::FileCopied(Err(m)) => {
            let l = line(
                v.style,
                "Error copying '"@ + f + "': "@ + m@,
                LogSource::Stderr,
                "Error copying file '"@ + f + "' from '"@ + d + "': "@ + m@,
            );
            lemma_seek_file_step(v, v.file + 1, l);
        },
        CopyEvent::FolderCopied(Ok(n)) => {
            let w = CopyView { copied: v.copied.push(f), ..v };
            let l = line(
                v.style,
                "Copied directory '"@ + f + "/' ("@ + decimal(n as nat) + " files) from '"@ + d + "'"@,
                LogSource::Stdout,
                "Copied directory '"@ + f + "/' ("@ + decimal(n as nat) + " file(s)) from '"@ + d + "'"@,
            );
            lemma_seek_file_step(w, v.file + 1, l);
            lemma_same_copy_trans(v, w, seek_file(w, v.file + 1, l).0, seek_file(w, v.file + 1, l).2);
        },
        CopyEvent::FolderCopied(Err(m)) => {
            let l = line(
                v.style,
                "Error copying directory '"@ + f + "': "@ + m@,
                LogSource::Stderr,
                "Error copying directory '"@ + f + "/' from '"@ + d + "': "@ + m@,
            );
            lemma_seek_file_step(v, v.file + 1, l);
        },
    }
}

proof fn lemma_seek_dep_keeps_files(v: CopyView, di: int, ms: Seq<NoteView>)
    ensures
        seek_dep(v, di, ms).0.files == v.files,
    decreases v.deps.len() - di,
{
    if !(di < 0 || di >= v.deps.len()) {
        let d = v.deps[di];
        if !v.names.contains(d) {
            let t = "Warning: Dependency job '"@ + d + "' not found"@;
            lemma_seek_dep_keeps_files(v, di + 1, ms + line(v.style, t, LogSource::Stderr, t));
        }
    }
}

proof fn lemma_seek_file_keeps_files(v: CopyView, fi: int, ms: Seq<NoteView>)
    ensures
        seek_file(v, fi, ms).0.files == v.files,
    decreases v.files.len() - fi,
{
    if fi < 0 || fi >= v.files.len() {
        lemma_seek_dep_keeps_files(v, v.dep + 1, ms);
    } else {
        let p = v.files[fi];
        match path_file_name_text(p) {
            None => lemma_seek_file_keeps_files(v, fi + 1, ms),
            Some(f) => if v.copied.contains(f) {
                let d = v.deps[v.dep as int];
                lemma_seek_file_keeps_files(
                    v,
                    fi + 1,
                    ms + line(
                        v.style,
                        "Warning: File '"@ + f + "' already copied, skipping from '"@ + d + "'"@,
                        LogSource::Stderr,
                        "Warning: File '"@ + f + "' already copied from another dependency, skipping from '"@
                            + d + "'"@,
                    ),
                );
            },
        }
    }
}

/// The matches of the input patterns are gathered in pattern order: a
/// dependency's outputs are first looked at with no paths gathered, each
/// pattern's matches are added after those of the patterns before it (a
/// pattern that fails to match adds none), and the paths then walked
/// through for copying are all of them.
pub proof fn law_glob_matches_are_gathered(v: CopyView, e: CopyEvent)
    requires
        copy_accepts(v, e),
    ensures
        e == CopyEvent::FolderExists(true) && v.inputs.len() > 0 ==> copy_advance(v, e).0.files
            == Seq::<Seq<char>>::empty() && copy_advance(v, e).0.phase == CopyPhase::Globbing(0),
        e matches CopyEvent::Globbed(Ok(paths)) ==> copy_advance(v, e).0.files == v.files + paths@.map_values(
            |p: String| p@,
        ),
        e matches CopyEvent::Globbed(Err(_)) ==> copy_advance(v, e).0.files == v.files,
{
    match e {
        CopyEvent::Globbed(r) => {
            let d = v.deps[v.dep as int];
            let k = match v.phase {
                CopyPhase::Globbing(k) => k as int,
                _ => 0,
            };
            let files = match r {
                Ok(paths) => v.files + strs(paths@),
                Err(_) => v.files,
            };
            let ms = match r {
                Ok(_) => Seq::empty(),
                Err(m) => {
                    let t = "Invalid glob pattern '"@ + v.inputs[k] + "': "@ + m@;
                    line(v.style, t, LogSource::Stderr, t)
                },
            };
            if k + 1 >= v.inputs.len() {
                lemma_seek_file_keeps_files(CopyView { files, ..v }, 0, ms);
            }
            if let Ok(paths) = r {
                assert(strs(paths@) =~= paths@.map_values(|p: String| p@));
            }
        },
        _ => {},
    }
}

} // verus!
