//! The workflow folders in the home directory: the list kept sorted by name,
//! and the name a new workflow gets.
//!
//! Listing the directory and creating folders are the caller's part; the
//! manager works on what the caller found.

use vstd::prelude::*;
use vstd::string::*;

use crate::paths::{path_join, spec_path_join};
use crate::sorting::{insert_sorted, sorted_by_name};
use crate::text::{push_char, to_chars};
use crate::workflow::home::{home_error_message, WorkflowHome, WorkflowHomeError};
use crate::workflow::workflow_folder::WorkflowFolder;

verus! {

/// One entry of the home directory, as the caller read it.
pub struct DirEntryInfo {
    /// The entry's file name.
    pub name: String,
    /// The entry's path.
    pub path: String,
    /// Whether the entry is a directory.
    pub is_dir: bool,
    /// When the entry was created, in nanoseconds since the Unix epoch, if known.
    pub created: Option<u128>,
}

/// What the caller found when it listed the home directory.
pub enum HomeListing {
    /// The home directory does not exist.
    Missing,
    /// The home directory could not be read; the I/O error's message.
    Unreadable(String),
    /// The entries that could be read, in the order the listing gave them.
    Entries(Vec<DirEntryInfo>),
}

/// The workflow folders among the entries: one for each directory, in order.
pub open spec fn folders_of(entries: Seq<DirEntryInfo>) -> Seq<WorkflowFolder>
    decreases entries.len(),
{
    if entries.len() == 0 {
        Seq::empty()
    } else {
        let e = entries.last();
        if e.is_dir {
            folders_of(entries.drop_last()).push(
                WorkflowFolder { name: e.name, path: e.path, created: e.created },
            )
        } else {
            folders_of(entries.drop_last())
        }
    }
}

/// Error types for workflow operations.
#[derive(Debug, Clone, PartialEq)]
pub enum WorkflowError {
    HomeError(WorkflowHomeError),
    /// Reading the home directory failed; the I/O error's message.
    ScanError(String),
    InvalidWorkflow(String),
}

/// The message of a workflow error.
pub open spec fn workflow_error_message(e: WorkflowError) -> Seq<char> {
    match e {
        WorkflowError::HomeError(h) => "Home directory error: "@ + home_error_message(h),
        WorkflowError::ScanError(m) => "Scan error: "@ + m@,
        WorkflowError::InvalidWorkflow(m) => "Invalid workflow: "@ + m@,
    }
}

impl WorkflowError {
    /// The error's message, as it is displayed.
    pub fn message(&self) -> (r: String)
        ensures
            r@ == workflow_error_message(*self),
    {
        match self {
            WorkflowError::HomeError(h) => {
                let mut r = String::from_str("Home directory error: ");
                let m = h.message();
                r.append(m.as_str());
                r
            },
            WorkflowError::ScanError(m) => {
                let mut r = String::from_str("Scan error: ");
                r.append(m.as_str());
                r
            },
            WorkflowError::InvalidWorkflow(m) => {
                let mut r = String::from_str("Invalid workflow: ");
                r.append(m.as_str());
                r
            },
        }
    }
}

/// Whether `char::is_alphanumeric` holds of `c`: the Unicode `Alphabetic`
/// property or a numeric general category.
pub uninterp spec fn is_alphanumeric(c: char) -> bool;

/// Calls `char::is_alphanumeric`, which depends on `c` alone.
#[verifier::external_body]
fn alphanumeric(c: char) -> (r: bool)
    ensures
        r == is_alphanumeric(c),
{
    c.is_alphanumeric()
}

/// A character kept in a workflow name, or `_` in its place.
pub open spec fn sanitized_char(c: char) -> char {
    if is_alphanumeric(c) || c == '_' || c == '-' {
        c
    } else {
        '_'
    }
}

/// A workflow name with every character that is not alphanumeric, `_` or
/// `-` replaced by `_`.
pub open spec fn sanitized(name: Seq<char>) -> Seq<char> {
    name.map_values(|c: char| sanitized_char(c))
}

/// The name a workflow folder gets for `name`.
pub fn sanitize_workflow_name(name: &str) -> (r: String)
    ensures
        r@ == sanitized(name@),
{
    let cs = to_chars(name);
    let mut out = String::new();
    for i in 0..cs.len()
        invariant
            cs@ == name@,
            out@ == sanitized(name@.take(i as int)),
    {
        let c = cs[i];
        let k = if alphanumeric(c) || c == '_' || c == '-' { c } else { '_' };
        push_char(&mut out, k);
        assert(out@ =~= sanitized(name@.take(i + 1)));
    }
    assert(name@.take(cs.len() as int) =~= name@);
    out
}

/// Manages workflow folders in the home directory.
#[derive(Debug)]
pub struct WorkflowManager {
    home: WorkflowHome,
    workflows: Vec<WorkflowFolder>,
    last_scan_error: Option<String>,
}

/// What a scan leaves: the workflows found and the error noted, with the
/// result reported.
pub open spec fn scan_outcome(listing: HomeListing, workflows: Seq<WorkflowFolder>, error: Option<Seq<char>>, r: Result<(), WorkflowError>) -> bool {
    match listing {
        HomeListing::Missing => workflows.len() == 0 && error == Some("Home directory does not exist"@)
            && r is Ok,
        HomeListing::Unreadable(e) => workflows.len() == 0 && error == Some(
            "Failed to read directory: "@ + e@,
        ) && r == Err::<(), WorkflowError>(WorkflowError::ScanError(e)),
        HomeListing::Entries(entries) => sorted_by_name(workflows) && workflows.to_multiset()
            == folders_of(entries@).to_multiset() && error is None && r is Ok,
    }
}

impl WorkflowManager {
    /// The workflows found by the last scan.
    pub closed spec fn workflows_view(&self) -> Seq<WorkflowFolder> {
        self.workflows@
    }

    /// The error the last scan noted.
    pub closed spec fn last_error_view(&self) -> Option<Seq<char>> {
        match self.last_scan_error {
            Some(e) => Some(e@),
            None => None,
        }
    }

    /// The home directory's path.
    pub closed spec fn home_view(&self) -> Seq<char> {
        self.home.path_view()
    }

    /// Creates a new WorkflowManager with the given home directory.
    pub fn new(home: WorkflowHome) -> (r: Self)
        ensures
            r.workflows_view().len() == 0,
            r.last_error_view() is None,
            r.home_view() == home.path_view(),
    {
        Self { home, workflows: Vec::new(), last_scan_error: None }
    }

    /// Initializes the manager once the caller has made sure the home
    /// directory exists (`home_ready`): a home error is reported as such;
    /// otherwise the listing is scanned.
    pub fn initialize(&mut self, home_ready: Result<(), WorkflowHomeError>, listing: HomeListing) -> (r:
        Result<(), WorkflowError>)
        ensures
            final(self).home_view() == old(self).home_view(),
            home_ready matches Err(e) ==> r == Err::<(), WorkflowError>(WorkflowError::HomeError(e))
                && final(self).workflows_view() == old(self).workflows_view()
                && final(self).last_error_view() == old(self).last_error_view(),
            home_ready is Ok ==> scan_outcome(
                listing,
                final(self).workflows_view(),
                final(self).last_error_view(),
                r,
            ),
    {
        match home_ready {
            Err(e) => Err(WorkflowError::HomeError(e)),
            Ok(()) => self.scan_workflows(listing),
        }
    }

    /// Takes in a listing of the home directory: the directories among its
    /// entries become the workflow folders, sorted by name. A missing home is
    /// noted and is no error; an unreadable one is noted and reported.
    pub fn scan_workflows(&mut self, listing: HomeListing) -> (r: Result<(), WorkflowError>)
        ensures
            final(self).home_view() == old(self).home_view(),
            scan_outcome(listing, final(self).workflows_view(), final(self).last_error_view(), r),
    {
        self.last_scan_error = None;
        self.workflows = Vec::new();
        match listing {
            HomeListing::Missing => {
                self.last_scan_error = Some(String::from_str("Home directory does not exist"));
                Ok(())
            },
            HomeListing::Unreadable(e) => {
                let mut m = String::from_str("Failed to read directory: ");
                m.append(e.as_str());
                self.last_scan_error = Some(m);
                Err(WorkflowError::ScanError(e))
            },
            HomeListing::Entries(entries) => {
                let sorted = sorted_folders(entries);
                self.workflows = sorted;
                Ok(())
            },
        }
    }

    /// Returns all workflow folders, sorted by name.
    pub fn get_workflows(&self) -> (r: &[WorkflowFolder])
        ensures
            r@ == self.workflows_view(),
    {
        self.workflows.as_slice()
    }

    /// Returns the number of workflow folders.
    pub fn count(&self) -> (r: usize)
        ensures
            r == self.workflows_view().len(),
    {
        self.workflows.len()
    }

    /// Returns the home directory path.
    pub fn home_path(&self) -> (r: &str)
        ensures
            r@ == self.home_view(),
    {
        self.home.path()
    }

    /// Returns the last scan error, if any.
    pub fn last_error(&self) -> (r: Option<&str>)
        ensures
            match r {
                Some(e) => self.last_error_view() == Some(e@),
                None => self.last_error_view() is None,
            },
    {
        match &self.last_scan_error {
            Some(e) => Some(e.as_str()),
            None => None,
        }
    }

    /// Refreshes the workflow list from a new listing of the home directory.
    pub fn refresh(&mut self, listing: HomeListing) -> (r: Result<(), WorkflowError>)
        ensures
            final(self).home_view() == old(self).home_view(),
            scan_outcome(listing, final(self).workflows_view(), final(self).last_error_view(), r),
    {
        self.scan_workflows(listing)
    }

    /// The folder a new workflow named `name` gets: its sanitized name and
    /// its path in the home directory. An empty name is refused.
    pub fn new_workflow_target(&self, name: &str) -> (r: Result<(String, String), WorkflowError>)
        ensures
            name@.len() == 0 ==> (r matches Err(WorkflowError::InvalidWorkflow(m)) && m@
                == "Workflow name cannot be empty"@),
            name@.len() > 0 ==> (r matches Ok((n, p)) && n@ == sanitized(name@) && p@ == spec_path_join(
                self.home_view(),
                sanitized(name@),
            )),
    {
        if name.unicode_len() == 0 {
            return Err(WorkflowError::InvalidWorkflow(String::from_str("Workflow name cannot be empty")));
        }
        let sanitized = sanitize_workflow_name(name);
        let path = path_join(self.home.path(), sanitized.as_str());
        Ok((sanitized, path))
    }
}

/// The error for a new workflow whose folder exists already.
pub fn already_exists(sanitized_name: &str) -> (r: WorkflowError)
    ensures
        r matches WorkflowError::InvalidWorkflow(m) && m@ == "Workflow '"@ + sanitized_name@
            + "' already exists"@,
{
    let mut m = String::from_str("Workflow '");
    m.append(sanitized_name);
    m.append("' already exists");
    WorkflowError::InvalidWorkflow(m)
}

/// The workflow folders among `entries`, sorted by name.
fn sorted_folders(entries: Vec<DirEntryInfo>) -> (r: Vec<WorkflowFolder>)
    ensures
        sorted_by_name(r@),
        r@.to_multiset() == folders_of(entries@).to_multiset(),
{
    let ghost all = entries@;
    let n = entries.len();
    let mut rest = entries;
    let mut out: Vec<WorkflowFolder> = Vec::new();
    let mut i: usize = 0;
    proof {
        assert(all.take(0) =~= Seq::<DirEntryInfo>::empty());
        assert(folders_of(all.take(0)) =~= out@);
        assert(all.skip(0) =~= all);
    }
    while i < n
        invariant
            i <= n == all.len(),
            rest@ == all.skip(i as int),
            sorted_by_name(out@),
            out@.to_multiset() == folders_of(all.take(i as int)).to_multiset(),
        decreases n - i,
    {
        proof {
            assert(all.take(i + 1).drop_last() =~= all.take(i as int));
            assert(all.take(i + 1).last() == all[i as int]);
        }
        let e = rest.remove(0);
        proof {
            assert(rest@ =~= all.skip(i + 1));
        }
        if e.is_dir {
            let ghost f = WorkflowFolder { name: e.name, path: e.path, created: e.created };
            let folder = WorkflowFolder::new(e.name, e.path, e.created);
            insert_sorted(&mut out, folder);
            proof {
                vstd::seq_lib::to_multiset_build(folders_of(all.take(i as int)), f);
            }
        }
        i = i + 1;
    }
    proof {
        assert(all.take(n as int) =~= all);
    }
    out
}

} // verus!
