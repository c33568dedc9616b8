//! The terminal interface as a whole: three tabs (applications, workflows,
//! health checks), a help line, and the keys that move between them.

use vstd::prelude::*;
use vstd::string::*;

use crate::application::{ApplicationCatalog, State as ApplicationState};
use crate::health_check::State as HealthCheckState;
use crate::keys::Key;
use crate::palette::Tint;
use crate::text::{push_char, spaces};
use crate::workflow::manager::WorkflowManager;
use crate::workflow::state::{State as WorkflowState, WorkflowAction};

verus! {

/// What the interface asks of its owner after a key.
#[derive(Debug)]
pub enum AppAction {
    /// Leave the interface.
    Quit,
    /// Nothing to do.
    Continue,
    /// Run the health checks again.
    RunHealthChecks,
    /// What the workflow tab asks.
    Workflow(WorkflowAction),
}

/// The state of the terminal interface.
#[derive(Debug)]
pub struct App {
    /// The tab shown: 0 applications, 1 workflows, 2 health checks.
    pub selected_tab: usize,
    pub show_help: bool,
    pub application_state: ApplicationState,
    pub health_check_state: HealthCheckState,
    pub workflow_state: WorkflowState,
}

/// The catalog shown when none could be loaded: version 1.0, no
/// applications.
pub fn fallback_catalog() -> (r: ApplicationCatalog)
    ensures
        r.version@ == "1.0"@,
        r.last_updated@ == Seq::<char>::empty(),
        r.applications@.len() == 0,
{
    ApplicationCatalog {
        version: String::from_str("1.0"),
        last_updated: String::new(),
        applications: Vec::new(),
    }
}

/// The tab after moving right: the next one, after the last the first.
pub open spec fn tab_right(t: usize) -> usize {
    ((t + 1) % 3) as usize
}

/// The tab after moving left: the previous one, before the first the last.
pub open spec fn tab_left(t: usize) -> usize {
    if t > 0 {
        (t - 1) as usize
    } else {
        2
    }
}

impl App {
    /// The interface on the first tab, with the applications of `catalog`
    /// and the workflows of `workflow_manager`.
    pub fn new(catalog: ApplicationCatalog, workflow_manager: WorkflowManager) -> (r: Self)
        ensures
            r.selected_tab == 0,
            !r.show_help,
            r.application_state.catalog == catalog,
            r.application_state.selected_index == 0,
            r.health_check_state.health_checks@.len() == 0,
            r.workflow_state.workflow_manager == workflow_manager,
    {
        App {
            selected_tab: 0,
            show_help: false,
            application_state: ApplicationState::new(catalog),
            health_check_state: HealthCheckState::default(),
            workflow_state: WorkflowState::new(workflow_manager),
        }
    }

    /// Takes a key. `q` quits and `i` shows or hides the help everywhere;
    /// the right arrow or `l` and the left arrow or `h` move between the
    /// tabs, wrapping around; every other key goes to the tab shown, where
    /// on the health tab `r` runs the checks again. `shift`, `buffer_float`
    /// and `value_floats` are passed on to the workflow tab.
    pub fn handle_key_event(
        &mut self,
        key: Key,
        shift: bool,
        buffer_float: Option<u64>,
        value_floats: &Vec<Option<u64>>,
    ) -> (r: AppAction)
        requires
            old(self).workflow_state.show_global_params_popup ==> (old(self).workflow_state.global_params_editor_state matches Some(e)
                ==> value_floats@.len() == e.param_values@.len()),
            !old(self).workflow_state.show_global_params_popup && old(self).workflow_state.show_params_popup
                ==> (old(self).workflow_state.params_editor_state matches Some(e)
                ==> value_floats@.len() == e.param_values@.len()),
        ensures
            key == Key::Char('q') ==> r is Quit && *final(self) == *old(self),
            key == Key::Char('i') ==> r is Continue && final(self).show_help == !old(self).show_help
                && final(self).selected_tab == old(self).selected_tab,
            (key == Key::Right || key == Key::Char('l')) ==> r is Continue && final(self).selected_tab
                == tab_right(old(self).selected_tab),
            (key == Key::Left || key == Key::Char('h')) ==> r is Continue && final(self).selected_tab
                == tab_left(old(self).selected_tab),
            ({
                let other = key != Key::Char('q') && key != Key::Char('i') && key != Key::Right
                    && key != Key::Char('l') && key != Key::Left && key != Key::Char('h');
                &&& (other && old(self).selected_tab == 0) ==> r is Continue && final(self).selected_tab == 0
                    && final(self).workflow_state == old(self).workflow_state
                &&& (other && old(self).selected_tab == 1) ==> r is Workflow && final(self).selected_tab == 1
                    && final(self).application_state == old(self).application_state
                &&& (other && old(self).selected_tab == 2) ==> (r is RunHealthChecks <==> key == Key::Char(
                    'r',
                )) && (r is RunHealthChecks || r is Continue) && *final(self) == *old(self)
                &&& (other && old(self).selected_tab > 2) ==> r is Continue && *final(self) == *old(self)
            }),
    {
        if key == Key::Char('q') {
            return AppAction::Quit;
        }
        if key == Key::Char('i') {
            self.show_help = !self.show_help;
            return AppAction::Continue;
        }
        if key == Key::Right || key == Key::Char('l') {
            self.selected_tab = (self.selected_tab % 3 + 1) % 3;
            proof {
                vstd::arithmetic::div_mod::lemma_add_mod_noop(old(self).selected_tab as int, 1, 3);
                vstd::arithmetic::div_mod::lemma_mod_twice(old(self).selected_tab as int, 3);
                vstd::arithmetic::div_mod::lemma_add_mod_noop((old(self).selected_tab % 3) as int, 1, 3);
            }
            return AppAction::Continue;
        }
        if key == Key::Left || key == Key::Char('h') {
            self.selected_tab = if self.selected_tab > 0 { self.selected_tab - 1 } else { 2 };
            return AppAction::Continue;
        }
        if self.selected_tab == 0 {
            self.application_state.handle_input(key);
            AppAction::Continue
        } else if self.selected_tab == 1 {
            let action = self.workflow_state.handle_input(key, shift, buffer_float, value_floats);
            AppAction::Workflow(action)
        } else if self.selected_tab == 2 && key == Key::Char('r') {
            AppAction::RunHealthChecks
        } else {
            AppAction::Continue
        }
    }
}

/// What the body of the screen shows, by tab.
#[derive(Debug, Clone, Copy, PartialEq, Eq, Structural)]
pub enum Body {
    Applications,
    Workflows,
    HealthChecks,
    Nothing,
}

/// What the screen is made of: the body under the header and above the
/// footer, and the popups drawn over it, in the order they are drawn.
pub struct Screen {
    pub body: Body,
    pub run_popup: bool,
    pub params_popup: bool,
    pub help_popup: bool,
}

/// A line of the help popup: blank, a note, or a key and what it does.
pub enum HelpLine {
    Blank,
    Note { text: String },
    Key { key: String, tint: Tint, action: String },
}

/// A line of the help popup as text: the key column, the key's colour, and
/// the rest of the line.
pub open spec fn help_line_view(l: HelpLine) -> (Seq<char>, Option<Tint>, Seq<char>) {
    match l {
        HelpLine::Blank => (Seq::empty(), None, Seq::empty()),
        HelpLine::Note { text } => (Seq::empty(), None, text@),
        HelpLine::Key { key, tint, action } => (key@, Some(tint), action@),
    }
}

/// A key right-aligned in a column of twelve characters.
pub open spec fn pad_key(k: Seq<char>) -> Seq<char> {
    if k.len() < 12 { spaces((12 - k.len()) as nat) + k } else { k }
}

/// A blank help line.
pub open spec fn blank_line() -> (Seq<char>, Option<Tint>, Seq<char>) {
    (Seq::empty(), None, Seq::empty())
}

/// A help line for key `k`, drawn in `t`, that does `a`.
pub open spec fn key_line(k: Seq<char>, t: Tint, a: Seq<char>) -> (Seq<char>, Option<Tint>, Seq<char>) {
    (pad_key(k), Some(t), a)
}

/// The keys of a tab, as the help popup lists them.
pub open spec fn tab_help(tab: usize) -> Seq<(Seq<char>, Option<Tint>, Seq<char>)> {
    if tab == 0 {
        seq![
            key_line("↑↓ or j/k "@, Tint::Green, "Navigate"@),
            key_line("Enter or d "@, Tint::Green, "View Details"@),
            key_line("Esc or d "@, Tint::Green, "Close Details"@),
        ]
    } else if tab == 1 {
        seq![
            key_line("↑↓ or j/k "@, Tint::Green, "Navigate Workflows"@),
            key_line("r "@, Tint::Green, "Refresh Workflows"@),
            key_line("Enter "@, Tint::Green, "Run Workflow"@),
            key_line("d "@, Tint::Green, "Toggle Job Details"@),
            key_line("p "@, Tint::Green, "Edit Job Parameters"@),
            key_line("g "@, Tint::Green, "Edit Global Parameters"@),
            blank_line(),
            (Seq::empty(), None, "In Job Details:"@),
            key_line("Shift+↑↓ "@, Tint::Green, "Scroll Logs"@),
            key_line("PgUp/PgDn "@, Tint::Green, "Page Scroll"@),
            key_line("b "@, Tint::Green, "Scroll to Bottom"@),
        ]
    } else if tab == 2 {
        seq![key_line("r "@, Tint::Green, "Refresh Health Check"@)]
    } else {
        Seq::empty()
    }
}

/// The lines of the help popup on tab `tab`: the keys that work everywhere,
/// those of the tab, and the key that closes the popup.
pub open spec fn help_lines(tab: usize) -> Seq<(Seq<char>, Option<Tint>, Seq<char>)> {
    seq![
        blank_line(),
        key_line("←/→ or h/l "@, Tint::Cyan, "Switch tabs"@),
        key_line("q "@, Tint::Red, "Quit"@),
    ] + tab_help(tab) + seq![blank_line(), key_line("i "@, Tint::Cyan, "Toggle Help"@)]
}

/// Where a popup goes: its corner and its size.
#[derive(Debug, Clone, Copy, PartialEq, Eq, Structural)]
pub struct PopupArea {
    pub x: u16,
    pub y: u16,
    pub width: u16,
    pub height: u16,
}

/// The help popup: where it goes, its title and its lines.
pub struct HelpPopup {
    pub area: PopupArea,
    pub title: String,
    pub lines: Vec<HelpLine>,
}

/// `a - b`, or zero when `b` is the larger.
pub open spec fn minus(a: u16, b: u16) -> int {
    if a >= b { a - b } else { 0 }
}

/// The help popup's place on a screen `width` by `height`: at most 40 by 20,
/// leaving a margin of two on each side, centred.
pub open spec fn help_area(width: u16, height: u16) -> PopupArea {
    let w = if minus(width, 4) < 40 { minus(width, 4) } else { 40 };
    let h = if minus(height, 4) < 20 { minus(height, 4) } else { 20 };
    PopupArea {
        x: ((width - w) / 2) as u16,
        y: ((height - h) / 2) as u16,
        width: w as u16,
        height: h as u16,
    }
}

/// `k` right-aligned in a column of twelve characters.
fn padded_key(k: &str) -> (r: String)
    ensures
        r@ == pad_key(k@),
{
    let n = k.unicode_len();
    let mut out = String::new();
    if n < 12 {
        let mut i: usize = 0;
        while i < 12 - n
            invariant
                n < 12,
                i <= 12 - n,
                out@ == spaces(i as nat),
            decreases 12 - n - i,
        {
            push_char(&mut out, ' ');
            i = i + 1;
            assert(out@ =~= spaces(i as nat));
        }
    }
    out.append(k);
    out
}

/// Appends a help line for key `k`, drawn in `t`, that does `a`.
fn push_key_line(lines: &mut Vec<HelpLine>, k: &str, t: Tint, a: &str)
    ensures
        final(lines)@.map_values(|l: HelpLine| help_line_view(l)) == old(lines)@.map_values(
            |l: HelpLine| help_line_view(l),
        ).push(key_line(k@, t, a@)),
{
    let key = padded_key(k);
    lines.push(HelpLine::Key { key, tint: t, action: String::from_str(a) });
    assert(final(lines)@.map_values(|l: HelpLine| help_line_view(l)) =~= old(lines)@.map_values(
        |l: HelpLine| help_line_view(l),
    ).push(key_line(k@, t, a@)));
}

/// Appends a blank help line.
fn push_blank_line(lines: &mut Vec<HelpLine>)
    ensures
        final(lines)@.map_values(|l: HelpLine| help_line_view(l)) == old(lines)@.map_values(
            |l: HelpLine| help_line_view(l),
        ).push(blank_line()),
{
    lines.push(HelpLine::Blank);
    assert(final(lines)@.map_values(|l: HelpLine| help_line_view(l)) =~= old(lines)@.map_values(
        |l: HelpLine| help_line_view(l),
    ).push(blank_line()));
}

impl App {
    /// What the screen shows: the body of the selected tab, the run view
    /// when it is open, the parameter editor when it is open and has a
    /// state, and the help when it is shown.
    pub fn screen(&self) -> (r: Screen)
        ensures
            r.body == if self.selected_tab == 0 {
                Body::Applications
            } else if self.selected_tab == 1 {
                Body::Workflows
            } else if self.selected_tab == 2 {
                Body::HealthChecks
            } else {
                Body::Nothing
            },
            r.run_popup == self.workflow_state.show_docker_popup,
            r.params_popup == (self.workflow_state.show_params_popup
                && self.workflow_state.params_editor_state is Some),
            r.help_popup == self.show_help,
    {
        let body = if self.selected_tab == 0 {
            Body::Applications
        } else if self.selected_tab == 1 {
            Body::Workflows
        } else if self.selected_tab == 2 {
            Body::HealthChecks
        } else {
            Body::Nothing
        };
        Screen {
            body,
            run_popup: self.workflow_state.show_docker_popup,
            params_popup: self.workflow_state.show_params_popup
                && self.workflow_state.params_editor_state.is_some(),
            help_popup: self.show_help,
        }
    }

    /// The help popup on a screen `width` by `height`, listing the keys of
    /// the selected tab.
    pub fn help_popup(&self, width: u16, height: u16) -> (r: HelpPopup)
        ensures
            r.area == help_area(width, height),
            r.title@ == " Help (Press 'i' to close) "@,
            r.lines@.map_values(|l: HelpLine| help_line_view(l)) == help_lines(self.selected_tab),
    {
        let w: u16 = if width >= 4 { width - 4 } else { 0 };
        let w: u16 = if w < 40 { w } else { 40 };
        let h: u16 = if height >= 4 { height - 4 } else { 0 };
        let h: u16 = if h < 20 { h } else { 20 };
        let area = PopupArea { x: (width - w) / 2, y: (height - h) / 2, width: w, height: h };
        let mut lines: Vec<HelpLine> = Vec::new();
        push_blank_line(&mut lines);
        push_key_line(&mut lines, "←/→ or h/l ", Tint::Cyan, "Switch tabs");
        push_key_line(&mut lines, "q ", Tint::Red, "Quit");
        let ghost common = lines@.map_values(|l: HelpLine| help_line_view(l));
        let tab = self.selected_tab;
        if tab == 0 {
            push_key_line(&mut lines, "↑↓ or j/k ", Tint::Green, "Navigate");
            push_key_line(&mut lines, "Enter or d ", Tint::Green, "View Details");
            push_key_line(&mut lines, "Esc or d ", Tint::Green, "Close Details");
        } else if tab == 1 {
            push_key_line(&mut lines, "↑↓ or j/k ", Tint::Green, "Navigate Workflows");
            push_key_line(&mut lines, "r ", Tint::Green, "Refresh Workflows");
            push_key_line(&mut lines, "Enter ", Tint::Green, "Run Workflow");
            push_key_line(&mut lines, "d ", Tint::Green, "Toggle Job Details");
            push_key_line(&mut lines, "p ", Tint::Green, "Edit Job Parameters");
            push_key_line(&mut lines, "g ", Tint::Green, "Edit Global Parameters");
            push_blank_line(&mut lines);
            let ghost before = lines@.map_values(|l: HelpLine| help_line_view(l));
            lines.push(HelpLine::Note { text: String::from_str("In Job Details:") });
            assert(lines@.map_values(|l: HelpLine| help_line_view(l)) =~= before.push(
                (Seq::empty(), None, "In Job Details:"@),
            ));
            push_key_line(&mut lines, "Shift+↑↓ ", Tint::Green, "Scroll Logs");
            push_key_line(&mut lines, "PgUp/PgDn ", Tint::Green, "Page Scroll");
            push_key_line(&mut lines, "b ", Tint::Green, "Scroll to Bottom");
        } else if tab == 2 {
            push_key_line(&mut lines, "r ", Tint::Green, "Refresh Health Check");
        }
        assert(lines@.map_values(|l: HelpLine| help_line_view(l)) =~= common + tab_help(tab));
        push_blank_line(&mut lines);
        push_key_line(&mut lines, "i ", Tint::Cyan, "Toggle Help");
        assert(lines@.map_values(|l: HelpLine| help_line_view(l)) =~= help_lines(tab));
        HelpPopup { area, title: String::from_str(" Help (Press 'i' to close) "), lines }
    }
}

} // verus!
