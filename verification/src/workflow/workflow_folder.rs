//! A workflow folder and the files its metadata lives in.

use vstd::prelude::*;
use vstd::string::*;

use crate::docker::logs::clock_since_epoch;
use crate::paths::{path_join, spec_path_join};
use crate::sorting::Named;
use crate::text::{decimal, push_decimal};

verus! {

/// How long ago something happened, `elapsed` seconds back: in seconds under a
/// minute, minutes under an hour, hours under a day, else days.
pub open spec fn age_text(elapsed: nat) -> Seq<char> {
    if elapsed < 60 {
        decimal(elapsed) + "s ago"@
    } else if elapsed < 3600 {
        decimal(elapsed / 60) + "m ago"@
    } else if elapsed < 86400 {
        decimal(elapsed / 3600) + "h ago"@
    } else {
        decimal(elapsed / 86400) + "d ago"@
    }
}

/// The whole seconds from `created` to `now` (nanoseconds since the Unix
/// epoch), or 0 when `now` is earlier.
pub open spec fn elapsed_secs(created: u128, now: u128) -> nat {
    if now >= created {
        ((now - created) / 1_000_000_000) as nat
    } else {
        0
    }
}

/// The current time, in nanoseconds since the Unix epoch, from the system
/// clock (0 for a clock set before the epoch). Nothing is claimed of the
/// value: it depends on the clock.
pub(crate) fn now_nanos() -> u128 {
    match clock_since_epoch() {
        Ok(n) => n,
        Err(_) => 0,
    }
}

/// Represents a single workflow folder.
#[derive(Debug, Clone, PartialEq)]
pub struct WorkflowFolder {
    pub name: String,
    pub path: String,
    /// When the folder was created, in nanoseconds since the Unix epoch.
    pub created: Option<u128>,
}

impl WorkflowFolder {
    /// Creates a new WorkflowFolder.
    pub fn new(name: String, path: String, created: Option<u128>) -> (r: Self)
        ensures
            r.name == name,
            r.path == path,
            r.created == created,
    {
        Self { name, path, created }
    }

    /// A copy of the folder.
    pub fn copy(&self) -> (r: Self)
        ensures
            r == *self,
    {
        WorkflowFolder { name: self.name.clone(), path: self.path.clone(), created: self.created }
    }

    /// Returns the path to the workflow's .chiral directory.
    pub fn chiral_dir(&self) -> (r: String)
        ensures
            r@ == spec_path_join(self.path@, ".chiral"@),
    {
        path_join(self.path.as_str(), ".chiral")
    }

    /// Returns the path to the workflow.toml metadata file.
    pub fn workflow_metadata_path(&self) -> (r: String)
        ensures
            r@ == spec_path_join(spec_path_join(self.path@, ".chiral"@), "workflow.toml"@),
    {
        let dir = self.chiral_dir();
        path_join(dir.as_str(), "workflow.toml")
    }

    /// Returns the path to the global_params.json file, at the top of the
    /// workflow folder.
    pub fn workflow_params_path(&self) -> (r: String)
        ensures
            r@ == spec_path_join(self.path@, "global_params.json"@),
    {
        path_join(self.path.as_str(), "global_params.json")
    }

    /// The display string for the creation time, as seen at `now`
    /// (nanoseconds since the Unix epoch): how long ago it was, or `Unknown`.
    pub fn created_display_at(&self, now: u128) -> (r: String)
        ensures
            r@ == match self.created {
                Some(c) => age_text(elapsed_secs(c, now)),
                None => "Unknown"@,
            },
    {
        match self.created {
            Some(c) => {
                let secs: u128 = if now >= c { (now - c) / 1_000_000_000 } else { 0 };
                let mut out = String::new();
                let (n, unit) = if secs < 60 {
                    (secs, "s ago")
                } else if secs < 3600 {
                    (secs / 60, "m ago")
                } else if secs < 86400 {
                    (secs / 3600, "h ago")
                } else {
                    (secs / 86400, "d ago")
                };
                push_decimal(&mut out, n);
                out.append(unit);
                out
            },
            None => String::from_str("Unknown"),
        }
    }

    /// Returns a display string for the creation time: how long ago it was,
    /// by the clock now, or `Unknown` when it is not known.
    pub fn created_display(&self) -> (r: String)
        ensures
            self.created is None ==> r@ == "Unknown"@,
            self.created matches Some(c) ==> exists|now: u128| r@ == age_text(elapsed_secs(c, now)),
    {
        let now = now_nanos();
        self.created_display_at(now)
    }
}

impl Named for WorkflowFolder {
    open spec fn name_view(&self) -> Seq<char> {
        self.name@
    }

    fn name_str(&self) -> (r: &str) {
        self.name.as_str()
    }
}

} // verus!
