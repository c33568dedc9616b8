//! The health checks of the environment silva runs in: the environment
//! variables it uses and the software it calls.
//!
//! Reading the variables and looking the programs up are the caller's part;
//! this module turns what was found into the items the checks list.

use vstd::prelude::*;
use vstd::string::*;

use crate::script::{trim, trim_range};
use crate::palette::Tint;
use crate::text::{concat3, push_char, to_chars};

verus! {

#[derive(Debug, Clone, Copy, PartialEq, Eq, Structural)]
pub enum HealthStatus {
    Pass,
    Fail,
    Warning,
    Checking,
}

#[derive(Debug, Clone)]
pub struct HealthCheckItem {
    pub name: String,
    pub status: HealthStatus,
    pub details: String,
}

/// The environment variables the checks look at, in order.
pub fn checked_env_vars() -> (r: Vec<&'static str>)
    ensures
        r@.len() == 2,
        r@[0]@ == "SILVA_WORKFLOW_HOME"@,
        r@[1]@ == "SHELL"@,
{
    let mut v: Vec<&'static str> = Vec::new();
    v.push("SILVA_WORKFLOW_HOME");
    v.push("SHELL");
    v
}

/// The programs the checks look for, in order.
pub fn checked_software() -> (r: Vec<&'static str>)
    ensures
        r@.len() == 1,
        r@[0]@ == "docker"@,
{
    let mut v: Vec<&'static str> = Vec::new();
    v.push("docker");
    v
}

/// The number of bytes `c` takes in UTF-8.
pub open spec fn utf8_width(c: char) -> nat {
    if (c as u32) < 0x80 {
        1
    } else if (c as u32) < 0x800 {
        2
    } else if (c as u32) < 0x10000 {
        3
    } else {
        4
    }
}

/// The number of bytes `s` takes in UTF-8, what `str::len` counts.
pub open spec fn utf8_len(s: Seq<char>) -> nat
    decreases s.len(),
{
    if s.len() == 0 {
        0
    } else {
        utf8_len(s.drop_last()) + utf8_width(s.last())
    }
}

/// A longer prefix takes more bytes.
pub proof fn lemma_utf8_len_grows(s: Seq<char>, i: int, j: int)
    requires
        0 <= i < j <= s.len(),
    ensures
        utf8_len(s.take(i)) < utf8_len(s.take(j)),
    decreases j - i,
{
    assert(s.take(j).drop_last() =~= s.take(j - 1));
    if i < j - 1 {
        lemma_utf8_len_grows(s, i, j - 1);
    }
}

/// Byte `b` of `s` starts a character, or ends the text: some prefix of `s`
/// takes exactly `b` bytes.
pub open spec fn char_boundary(s: Seq<char>, b: nat) -> bool {
    exists|k: int| 0 <= k <= s.len() && #[trigger] utf8_len(s.take(k)) == b
}

/// The prefix of `s` that takes `b` bytes, at a character boundary.
pub open spec fn byte_prefix(s: Seq<char>, b: nat) -> Seq<char> {
    let k = choose|k: int| 0 <= k <= s.len() && #[trigger] utf8_len(s.take(k)) == b;
    s.take(k)
}

/// A value as the checks show it: when it takes more than 50 bytes, its
/// first 47 bytes and `...`.
pub open spec fn shown_value(s: Seq<char>) -> Seq<char> {
    if utf8_len(s) > 50 {
        byte_prefix(s, 47) + "..."@
    } else {
        s
    }
}

/// A value that the checks can show: one that takes more than 50 bytes has a
/// character boundary at byte 47 (cutting it elsewhere would panic).
pub open spec fn showable(s: Seq<char>) -> bool {
    utf8_len(s) > 50 ==> char_boundary(s, 47)
}

/// The UTF-8 length of joined texts is the sum of theirs.
pub proof fn lemma_utf8_len_concat(a: Seq<char>, b: Seq<char>)
    ensures
        utf8_len(a + b) == utf8_len(a) + utf8_len(b),
    decreases b.len(),
{
    if b.len() == 0 {
        assert(a + b =~= a);
    } else {
        assert((a + b).drop_last() =~= a + b.drop_last());
        assert((a + b).last() == b.last());
        lemma_utf8_len_concat(a, b.drop_last());
    }
}

/// What the checks show of a value takes at most 50 bytes.
pub proof fn law_shown_value_fits(s: Seq<char>)
    requires
        showable(s),
    ensures
        utf8_len(shown_value(s)) <= 50,
{
    if utf8_len(s) > 50 {
        let p = byte_prefix(s, 47);
        lemma_utf8_len_concat(p, "..."@);
        reveal_strlit("...");
        assert("..."@ =~= seq!['.', '.', '.']);
        assert(seq!['.', '.', '.'].drop_last() =~= seq!['.', '.']);
        assert(seq!['.', '.'].drop_last() =~= seq!['.']);
        assert(seq!['.'].drop_last() =~= Seq::<char>::empty());
        assert(utf8_width('.') == 1);
        assert(seq!['.'].last() == '.');
        assert(utf8_len(Seq::<char>::empty()) == 0);
        assert(utf8_len(seq!['.']) == utf8_len(seq!['.'].drop_last()) + utf8_width('.'));
        assert(utf8_len(seq!['.']) == 1);
        assert(utf8_len(seq!['.', '.']) == 2);
        assert(utf8_len(seq!['.', '.', '.']) == 3);
        assert(utf8_len(p) == 47);
    }
}

fn width(c: char) -> (r: u64)
    ensures
        r == utf8_width(c),
{
    let n = c as u32;
    if n < 0x80 {
        1
    } else if n < 0x800 {
        2
    } else if n < 0x10000 {
        3
    } else {
        4
    }
}

/// The value as the checks show it.
pub fn show_value(value: &str) -> (r: String)
    requires
        showable(value@),
    ensures
        r@ == shown_value(value@),
{
    let cs = to_chars(value);
    // Count bytes until the count passes 50 or the text ends.
    let mut n: usize = 0;
    let mut total: u64 = 0;
    while n < cs.len() && total <= 50
        invariant
            cs@ == value@,
            n <= cs.len(),
            total == utf8_len(cs@.take(n as int)),
            total <= 54,
        decreases cs.len() - n,
    {
        assert(cs@.take(n + 1).drop_last() =~= cs@.take(n as int));
        total = total + width(cs[n]);
        n = n + 1;
    }
    if total <= 50 {
        assert(cs@.take(n as int) =~= cs@);
        return value.to_string();
    }
    proof {
        if n < cs.len() {
            lemma_utf8_len_grows(value@, n as int, cs.len() as int);
        }
        assert(value@.take(value@.len() as int) =~= value@);
    }
    let mut i: usize = 0;
    let mut w: u64 = 0;
    while w < 47
        invariant
            cs@ == value@,
            i <= cs.len(),
            w == utf8_len(cs@.take(i as int)),
            w <= 50,
            i > 0 ==> utf8_len(cs@.take(i - 1)) < 47,
            utf8_len(cs@) > 50,
        decreases cs.len() - i,
    {
        if i == cs.len() {
            assert(cs@.take(i as int) =~= cs@);
        }
        assert(cs@.take(i + 1).drop_last() =~= cs@.take(i as int));
        w = w + width(cs[i]);
        i = i + 1;
    }
    proof {
        let k = choose|k: int| 0 <= k <= value@.len() && #[trigger] utf8_len(value@.take(k)) == 47;
        if k < i - 1 {
            lemma_utf8_len_grows(value@, k, i - 1);
        }
        if k > i {
            lemma_utf8_len_grows(value@, i as int, k);
        }
        assert(k == i);
    }
    let mut out = String::new();
    for j in 0..i
        invariant
            cs@ == value@,
            i <= cs.len(),
            out@ == cs@.take(j as int),
    {
        push_char(&mut out, cs[j]);
        assert(cs@.take(j + 1) =~= cs@.take(j as int).push(cs@[j as int]));
    }
    out.append("...");
    out
}

/// A variable's value, when it is set, can be shown.
pub open spec fn value_showable(p: (String, Option<String>)) -> bool {
    match p.1 {
        Some(v) => showable(v@),
        None => true,
    }
}

/// What a check item says: its name, status and details.
pub open spec fn item_view(item: HealthCheckItem) -> (Seq<char>, HealthStatus, Seq<char>) {
    (item.name@, item.status, item.details@)
}

/// The item for an environment variable with the given value (`None` when
/// it is not set).
pub open spec fn env_item(var: Seq<char>, value: Option<String>) -> (Seq<char>, HealthStatus, Seq<char>) {
    (
        "Environmental vairables: "@ + var,
        if value is Some { HealthStatus::Pass } else { HealthStatus::Fail },
        match value {
            Some(v) => shown_value(v@),
            None => "Not set"@,
        },
    )
}

/// The item for a program, with the output of looking it up when that
/// succeeded.
pub open spec fn software_item(sw: Seq<char>, found: Option<String>) -> (Seq<char>, HealthStatus, Seq<char>) {
    (
        "Software: "@ + sw,
        if found is Some { HealthStatus::Pass } else { HealthStatus::Fail },
        match found {
            Some(out) => trim(out@),
            None => "Not found"@,
        },
    )
}

/// The state of the health check tab: the items of the last run.
#[derive(Debug)]
pub struct State {
    pub health_checks: Vec<HealthCheckItem>,
}

impl Default for State {
    fn default() -> (r: Self)
        ensures
            r.health_checks@.len() == 0,
    {
        Self { health_checks: Vec::new() }
    }
}

/// The views of a list of items.
pub open spec fn items_view(v: Seq<HealthCheckItem>) -> Seq<(Seq<char>, HealthStatus, Seq<char>)> {
    v.map_values(|i: HealthCheckItem| item_view(i))
}

impl State {
    /// Adds an item for each environment variable, given with its value
    /// (`None` when it is not set), in order.
    pub fn check_environment_variables(&mut self, values: &Vec<(String, Option<String>)>)
        requires
            forall|i: int| 0 <= i < values@.len() ==> value_showable(#[trigger] values@[i]),
        ensures
            items_view(final(self).health_checks@) == items_view(old(self).health_checks@) + values@.map_values(
                |p: (String, Option<String>)| env_item(p.0@, p.1),
            ),
    {
        let ghost start = items_view(self.health_checks@);
        for i in 0..values.len()
            invariant
                forall|i: int| 0 <= i < values@.len() ==> value_showable(#[trigger] values@[i]),
                items_view(self.health_checks@) == start + values@.take(i as int).map_values(
                    |p: (String, Option<String>)| env_item(p.0@, p.1),
                ),
        {
            let (var, value) = &values[i];
            let mut name = String::from_str("Environmental vairables: ");
            name.append(var.as_str());
            let item = match value {
                Some(v) => {
                    assert(value_showable(values@[i as int]));
                    HealthCheckItem { name, status: HealthStatus::Pass, details: show_value(v.as_str()) }
                },
                None => HealthCheckItem { name, status: HealthStatus::Fail, details: String::from_str("Not set") },
            };
            let ghost before = self.health_checks@;
            let ghost iv = item_view(item);
            assert(iv == env_item(values@[i as int].0@, values@[i as int].1));
            self.health_checks.push(item);
            assert(items_view(self.health_checks@) =~= items_view(before).push(iv));
            assert(values@.take(i + 1).map_values(|p: (String, Option<String>)| env_item(p.0@, p.1))
                =~= values@.take(i as int).map_values(|p: (String, Option<String>)| env_item(p.0@, p.1)).push(iv));
            assert(items_view(self.health_checks@) =~= start + values@.take(i + 1).map_values(
                |p: (String, Option<String>)| env_item(p.0@, p.1),
            ));
        }
        assert(values@.take(values.len() as int) =~= values@);
    }

    /// Adds an item for each program, given with the output of looking it up
    /// when that succeeded, in order.
    pub fn check_software_installations(&mut self, found: &Vec<(String, Option<String>)>)
        ensures
            items_view(final(self).health_checks@) == items_view(old(self).health_checks@) + found@.map_values(
                |p: (String, Option<String>)| software_item(p.0@, p.1),
            ),
    {
        let ghost start = items_view(self.health_checks@);
        for i in 0..found.len()
            invariant
                items_view(self.health_checks@) == start + found@.take(i as int).map_values(
                    |p: (String, Option<String>)| software_item(p.0@, p.1),
                ),
        {
            let (sw, out) = &found[i];
            let mut name = String::from_str("Software: ");
            name.append(sw.as_str());
            let item = match out {
                Some(o) => {
                    let cs = to_chars(o.as_str());
                    let (a, b) = trim_range(&cs, 0, cs.len());
                    assert(cs@.subrange(0, cs.len() as int) =~= o@);
                    let path = o.as_str().substring_char(a, b).to_string();
                    HealthCheckItem { name, status: HealthStatus::Pass, details: path }
                },
                None => HealthCheckItem { name, status: HealthStatus::Fail, details: String::from_str("Not found") },
            };
            let ghost before = self.health_checks@;
            let ghost iv = item_view(item);
            assert(iv == software_item(found@[i as int].0@, found@[i as int].1));
            self.health_checks.push(item);
            assert(items_view(self.health_checks@) =~= items_view(before).push(iv));
            assert(found@.take(i + 1).map_values(|p: (String, Option<String>)| software_item(p.0@, p.1))
                =~= found@.take(i as int).map_values(|p: (String, Option<String>)| software_item(p.0@, p.1)).push(iv));
            assert(items_view(self.health_checks@) =~= start + found@.take(i + 1).map_values(
                |p: (String, Option<String>)| software_item(p.0@, p.1),
            ));
        }
        assert(found@.take(found.len() as int) =~= found@);
    }

    /// Replaces the items with those of a new run: the environment
    /// variables first, then the programs.
    pub fn run_health_checks(
        &mut self,
        values: &Vec<(String, Option<String>)>,
        found: &Vec<(String, Option<String>)>,
    )
        requires
            forall|i: int| 0 <= i < values@.len() ==> value_showable(#[trigger] values@[i]),
        ensures
            items_view(final(self).health_checks@) == values@.map_values(
                |p: (String, Option<String>)| env_item(p.0@, p.1),
            ) + found@.map_values(|p: (String, Option<String>)| software_item(p.0@, p.1)),
    {
        self.health_checks = Vec::new();
        assert(items_view(self.health_checks@) =~= Seq::empty());
        self.check_environment_variables(values);
        self.check_software_installations(found);
    }
}

/// One row of the health check list: the status icon in its colour, the
/// check's name as ` <name>: `, and its details.
pub struct HealthRow {
    pub icon: &'static str,
    pub tint: Tint,
    pub label: String,
    pub details: String,
}

/// The icon and colour of a status.
pub open spec fn status_icon(s: HealthStatus) -> (Seq<char>, Tint) {
    match s {
        HealthStatus::Pass => ("✅"@, Tint::Green),
        HealthStatus::Fail => ("❌"@, Tint::Red),
        HealthStatus::Warning => ("⚠️"@, Tint::Yellow),
        HealthStatus::Checking => ("🔄"@, Tint::Blue),
    }
}

/// Row `row` shows check `c`.
pub open spec fn health_row_rel(row: HealthRow, c: HealthCheckItem) -> bool {
    &&& (row.icon@, row.tint) == status_icon(c.status)
    &&& row.label@ == " "@ + c.name@ + ": "@
    &&& row.details@ == c.details@
}

impl State {
    /// The rows of the health check list: one per check, in order, or, while
    /// there are none yet, one that says the checks are running.
    pub fn health_rows(&self) -> (r: Vec<HealthRow>)
        ensures
            self.health_checks@.len() > 0 ==> r@.len() == self.health_checks@.len() && forall|i: int|
                0 <= i < r@.len() ==> health_row_rel(#[trigger] r@[i], self.health_checks@[i]),
            self.health_checks@.len() == 0 ==> r@.len() == 1 && r@[0].icon@ == "🔄"@ && r@[0].tint
                == Tint::Blue && r@[0].label@ == " Running health checks..."@ && r@[0].details@
                == Seq::<char>::empty(),
    {
        let mut rows: Vec<HealthRow> = Vec::new();
        let mut i: usize = 0;
        while i < self.health_checks.len()
            invariant
                i <= self.health_checks@.len(),
                rows@.len() == i,
                forall|k: int| 0 <= k < i ==> health_row_rel(#[trigger] rows@[k], self.health_checks@[k]),
            decreases self.health_checks@.len() - i,
        {
            let c = &self.health_checks[i];
            let (icon, tint) = match c.status {
                HealthStatus::Pass => ("✅", Tint::Green),
                HealthStatus::Fail => ("❌", Tint::Red),
                HealthStatus::Warning => ("⚠️", Tint::Yellow),
                HealthStatus::Checking => ("🔄", Tint::Blue),
            };
            rows.push(HealthRow { icon, tint, label: concat3(" ", c.name.as_str(), ": "), details: c.details.clone() });
            i = i + 1;
        }
        if rows.len() == 0 {
            rows.push(
                HealthRow {
                    icon: "🔄",
                    tint: Tint::Blue,
                    label: String::from_str(" Running health checks..."),
                    details: String::new(),
                },
            );
        }
        rows
    }
}

} // verus!
