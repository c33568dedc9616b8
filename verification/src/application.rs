//! The catalog of container applications, and the state of the tab that
//! browses it.
//!
//! Reading the catalog's JSON is the caller's part.

use vstd::prelude::*;
use vstd::string::*;

use crate::keys::Key;
use crate::text::{concat2, concat3, contains_string, decimal, join, join_strings, push_decimal, str_eq};

verus! {

#[derive(Debug, Clone)]
pub struct Requirements {
    pub gpu: bool,
    pub memory_gb: u32,
    pub cuda_version: Option<String>,
}

#[derive(Debug, Clone)]
pub struct Application {
    pub id: String,
    pub name: String,
    pub version: String,
    pub category: String,
    pub description: String,
    pub long_description: String,
    pub base_image: String,
    pub registry: String,
    pub image_path: String,
    pub tags: Vec<String>,
    pub requirements: Requirements,
    pub documentation_url: String,
}

impl Application {
    /// The image to pull: the registry followed by the image path.
    pub fn full_image_name(&self) -> (r: String)
        ensures
            r@ == self.registry@ + self.image_path@,
    {
        let mut r = self.registry.clone();
        r.append(self.image_path.as_str());
        r
    }

    /// The command that pulls the application's image.
    pub fn docker_pull_command(&self) -> (r: String)
        ensures
            r@ == "docker pull "@ + self.registry@ + self.image_path@,
    {
        let mut r = String::from_str("docker pull ");
        let image = self.full_image_name();
        r.append(image.as_str());
        r
    }
}

#[derive(Debug, Clone)]
pub struct ApplicationCatalog {
    pub version: String,
    pub last_updated: String,
    pub applications: Vec<Application>,
}

/// The applications whose category is `category`, in catalog order.
pub open spec fn in_category(apps: Seq<Application>, category: Seq<char>) -> Seq<Application>
    decreases apps.len(),
{
    if apps.len() == 0 {
        Seq::empty()
    } else {
        let rest = in_category(apps.drop_last(), category);
        if apps.last().category@ == category {
            rest.push(apps.last())
        } else {
            rest
        }
    }
}

/// The applications tagged `tag`, in catalog order.
pub open spec fn with_tag(apps: Seq<Application>, tag: Seq<char>) -> Seq<Application>
    decreases apps.len(),
{
    if apps.len() == 0 {
        Seq::empty()
    } else {
        let rest = with_tag(apps.drop_last(), tag);
        if apps.last().tags@.map_values(|t: String| t@).contains(tag) {
            rest.push(apps.last())
        } else {
            rest
        }
    }
}

impl ApplicationCatalog {
    /// The first application with the given id.
    pub fn get_by_id(&self, id: &str) -> (r: Option<&Application>)
        ensures
            r is None <==> forall|i: int|
                0 <= i < self.applications@.len() ==> (#[trigger] self.applications@[i]).id@ != id@,
            r matches Some(a) ==> exists|i: int|
                0 <= i < self.applications@.len() && self.applications@[i] == *a && a.id@ == id@
                    && forall|j: int| 0 <= j < i ==> (#[trigger] self.applications@[j]).id@ != id@,
    {
        let mut i: usize = 0;
        while i < self.applications.len()
            invariant
                i <= self.applications@.len(),
                forall|j: int| 0 <= j < i ==> (#[trigger] self.applications@[j]).id@ != id@,
            decreases self.applications@.len() - i,
        {
            if str_eq(self.applications[i].id.as_str(), id) {
                return Some(&self.applications[i]);
            }
            i = i + 1;
        }
        None
    }

    /// The applications in the given category, in catalog order.
    pub fn filter_by_category(&self, category: &str) -> (r: Vec<&Application>)
        ensures
            r@.map_values(|a: &Application| *a) == in_category(self.applications@, category@),
    {
        let ghost apps = self.applications@;
        let mut out: Vec<&Application> = Vec::new();
        for i in 0..self.applications.len()
            invariant
                apps == self.applications@,
                out@.map_values(|a: &Application| *a) == in_category(apps.take(i as int), category@),
        {
            proof {
                assert(apps.take(i + 1).drop_last() =~= apps.take(i as int));
                assert(apps.take(i + 1).last() == apps[i as int]);
            }
            if str_eq(self.applications[i].category.as_str(), category) {
                out.push(&self.applications[i]);
            }
            assert(out@.map_values(|a: &Application| *a) =~= in_category(apps.take(i + 1), category@));
        }
        assert(apps.take(apps.len() as int) =~= apps);
        out
    }

    /// The applications tagged `tag`, in catalog order.
    pub fn filter_by_tag(&self, tag: &str) -> (r: Vec<&Application>)
        ensures
            r@.map_values(|a: &Application| *a) == with_tag(self.applications@, tag@),
    {
        let ghost apps = self.applications@;
        let mut out: Vec<&Application> = Vec::new();
        for i in 0..self.applications.len()
            invariant
                apps == self.applications@,
                out@.map_values(|a: &Application| *a) == with_tag(apps.take(i as int), tag@),
        {
            proof {
                assert(apps.take(i + 1).drop_last() =~= apps.take(i as int));
                assert(apps.take(i + 1).last() == apps[i as int]);
            }
            if contains_string(self.applications[i].tags.as_slice(), tag) {
                out.push(&self.applications[i]);
            }
            assert(out@.map_values(|a: &Application| *a) =~= with_tag(apps.take(i + 1), tag@));
        }
        assert(apps.take(apps.len() as int) =~= apps);
        out
    }
}

/// Where the application catalog is read from.
pub struct ApplicationLoader {
    file_path: String,
}

impl ApplicationLoader {
    /// The catalog file the loader reads.
    pub closed spec fn file_path_view(&self) -> Seq<char> {
        self.file_path@
    }

    pub fn new(file_path: String) -> (r: Self)
        ensures
            r.file_path_view() == file_path@,
    {
        Self { file_path }
    }

    /// The catalog file the loader reads.
    pub fn file_path(&self) -> (r: &str)
        ensures
            r@ == self.file_path_view(),
    {
        self.file_path.as_str()
    }
}

impl Default for ApplicationLoader {
    fn default() -> (r: Self)
        ensures
            r.file_path_view() == "applications.json"@,
    {
        Self::new(String::from_str("applications.json"))
    }
}

/// The cursor one down from `i` among `n` items, wrapping to the first; it
/// stays where it is when there are none.
pub open spec fn next_index(i: int, n: int) -> int {
    if n == 0 {
        i
    } else {
        (i + 1) % n
    }
}

/// The cursor one up from `i` among `n` items, wrapping to the last; it stays
/// where it is when there are none.
pub open spec fn previous_index(i: int, n: int) -> int {
    if n == 0 {
        i
    } else if i == 0 {
        n - 1
    } else {
        i - 1
    }
}

/// The state of the applications tab.
#[derive(Debug)]
pub struct State {
    pub catalog: ApplicationCatalog,
    pub selected_index: usize,
    pub show_popup: bool,
}

impl State {
    pub fn new(catalog: ApplicationCatalog) -> (r: Self)
        ensures
            r.catalog == catalog,
            r.selected_index == 0,
            !r.show_popup,
    {
        Self { catalog, selected_index: 0, show_popup: false }
    }

    /// The application under the cursor, if the cursor is on one.
    pub fn selected_application(&self) -> (r: Option<&Application>)
        ensures
            self.selected_index < self.catalog.applications@.len() ==> r == Some(
                &self.catalog.applications@[self.selected_index as int],
            ),
            self.selected_index >= self.catalog.applications@.len() ==> r is None,
    {
        if self.selected_index < self.catalog.applications.len() {
            Some(&self.catalog.applications[self.selected_index])
        } else {
            None
        }
    }

    /// Moves the cursor down, wrapping to the first application.
    pub fn select_next(&mut self)
        ensures
            final(self).catalog == old(self).catalog,
            final(self).show_popup == old(self).show_popup,
            final(self).selected_index == next_index(
                old(self).selected_index as int,
                old(self).catalog.applications@.len() as int,
            ),
    {
        let n = self.catalog.applications.len();
        if n > 0 {
            let i = self.selected_index;
            if i < n - 1 {
                proof {
                    vstd::arithmetic::div_mod::lemma_small_mod((i + 1) as nat, n as nat);
                }
                self.selected_index = i + 1;
            } else {
                let m = (i as u128 + 1) % (n as u128);
                proof {
                    vstd::arithmetic::div_mod::lemma_mod_bound((i + 1) as int, n as int);
                }
                self.selected_index = m as usize;
            }
        }
    }

    /// Moves the cursor up, wrapping to the last application.
    pub fn select_previous(&mut self)
        ensures
            final(self).catalog == old(self).catalog,
            final(self).show_popup == old(self).show_popup,
            final(self).selected_index == previous_index(
                old(self).selected_index as int,
                old(self).catalog.applications@.len() as int,
            ),
    {
        let n = self.catalog.applications.len();
        if n > 0 {
            if self.selected_index == 0 {
                self.selected_index = n - 1;
            } else {
                self.selected_index = self.selected_index - 1;
            }
        }
    }

    pub fn toggle_popup(&mut self)
        ensures
            final(self).show_popup == !old(self).show_popup,
            final(self).catalog == old(self).catalog,
            final(self).selected_index == old(self).selected_index,
    {
        self.show_popup = !self.show_popup;
    }

    pub fn open_popup(&mut self)
        ensures
            final(self).show_popup,
            final(self).catalog == old(self).catalog,
            final(self).selected_index == old(self).selected_index,
    {
        self.show_popup = true;
    }

    pub fn close_popup(&mut self)
        ensures
            !final(self).show_popup,
            final(self).catalog == old(self).catalog,
            final(self).selected_index == old(self).selected_index,
    {
        self.show_popup = false;
    }

    /// Reacts to a key: up/`k` and down/`j` move the cursor; enter or `d`
    /// opens the details popup, and escape or `d` closes it.
    pub fn handle_input(&mut self, key: Key)
        ensures
            final(self).catalog == old(self).catalog,
            final(self).selected_index == if key == Key::Up || key == Key::Char('k') {
                previous_index(old(self).selected_index as int, old(self).catalog.applications@.len() as int)
            } else if key == Key::Down || key == Key::Char('j') {
                next_index(old(self).selected_index as int, old(self).catalog.applications@.len() as int)
            } else {
                old(self).selected_index as int
            },
            final(self).show_popup == if (key == Key::Enter || key == Key::Char('d')) && !old(self).show_popup {
                true
            } else if (key == Key::Esc || key == Key::Char('d')) && old(self).show_popup {
                false
            } else {
                old(self).show_popup
            },
    {
        if key == Key::Up || key == Key::Char('k') {
            self.select_previous();
        } else if key == Key::Down || key == Key::Char('j') {
            self.select_next();
        } else if (key == Key::Enter || key == Key::Char('d')) && !self.show_popup {
            self.open_popup();
        } else if (key == Key::Esc || key == Key::Char('d')) && self.show_popup {
            self.close_popup();
        }
    }
}

impl Default for State {
    fn default() -> (r: Self)
        ensures
            r.catalog.version@.len() == 0,
            r.catalog.last_updated@.len() == 0,
            r.catalog.applications@.len() == 0,
            r.selected_index == 0,
            !r.show_popup,
    {
        Self {
            catalog: ApplicationCatalog {
                version: String::new(),
                last_updated: String::new(),
                applications: Vec::new(),
            },
            selected_index: 0,
            show_popup: false,
        }
    }
}

/// One row of the applications table: name, category, version, description,
/// the GPU mark, and whether it is the selected row.
pub struct AppRow {
    pub name: String,
    pub category: String,
    pub version: String,
    pub description: String,
    pub gpu: &'static str,
    pub selected: bool,
}

/// The applications table: its title and one row per application.
pub struct AppTable {
    pub title: String,
    pub rows: Vec<AppRow>,
}

/// Row `row` shows application `a`.
pub open spec fn app_row_rel(row: AppRow, a: Application, selected: bool) -> bool {
    &&& row.name@ == a.name@
    &&& row.category@ == a.category@
    &&& row.version@ == a.version@
    &&& row.description@ == a.description@
    &&& row.gpu@ == if a.requirements.gpu { "🎮"@ } else { "  "@ }
    &&& row.selected == selected
}

/// The details before the requirements' CUDA line: name, category and
/// version, the long description, the image, and the GPU and memory needs.
pub open spec fn detail_head(a: Application) -> Seq<Seq<char>> {
    seq![
        "Name: "@ + a.name@,
        Seq::<char>::empty(),
        "Category: "@ + a.category@,
        "Version: "@ + a.version@,
        Seq::<char>::empty(),
        "Description:"@,
        a.long_description@,
        Seq::<char>::empty(),
        "Technical Details:"@,
        "  Base Image: "@ + a.base_image@,
        "  Registry: "@ + a.registry@ + a.image_path@,
        Seq::<char>::empty(),
        "Requirements:"@,
        "  GPU Required: "@ + (if a.requirements.gpu { "Yes"@ } else { "No"@ }),
        "  Memory: "@ + decimal(a.requirements.memory_gb as nat) + " GB"@,
    ]
}

/// The CUDA line, when the application names a CUDA version.
pub open spec fn detail_cuda(a: Application) -> Seq<Seq<char>> {
    match a.requirements.cuda_version {
        Some(c) => seq!["  CUDA Version: "@ + c@],
        None => Seq::empty(),
    }
}

/// The details after the requirements: the tags, the pull command and the
/// documentation.
pub open spec fn detail_tail(a: Application) -> Seq<Seq<char>> {
    seq![
        Seq::<char>::empty(),
        "Tags: "@ + join(a.tags@.map_values(|t: String| t@), ", "@),
        Seq::<char>::empty(),
        "Docker Pull Command:"@,
        "  "@ + ("docker pull "@ + a.registry@ + a.image_path@),
        Seq::<char>::empty(),
        "Documentation: "@ + a.documentation_url@,
    ]
}

/// The lines of an application's details, as the details popup shows them.
pub open spec fn detail_lines(a: Application) -> Seq<Seq<char>> {
    detail_head(a) + detail_cuda(a) + detail_tail(a)
}

impl Application {
    /// The details popup's lines for this application.
    pub fn detail_lines(&self) -> (r: Vec<String>)
        ensures
            r@.map_values(|l: String| l@) == detail_lines(*self),
    {
        let mut out: Vec<String> = Vec::new();
        out.push(concat2("Name: ", self.name.as_str()));
        out.push(String::new());
        out.push(concat2("Category: ", self.category.as_str()));
        out.push(concat2("Version: ", self.version.as_str()));
        out.push(String::new());
        out.push(String::from_str("Description:"));
        out.push(self.long_description.clone());
        out.push(String::new());
        out.push(String::from_str("Technical Details:"));
        out.push(concat2("  Base Image: ", self.base_image.as_str()));
        let image = self.full_image_name();
        out.push(concat2("  Registry: ", image.as_str()));
        out.push(String::new());
        out.push(String::from_str("Requirements:"));
        out.push(concat2("  GPU Required: ", if self.requirements.gpu { "Yes" } else { "No" }));
        let mut memory = String::from_str("  Memory: ");
        push_decimal(&mut memory, self.requirements.memory_gb as u128);
        memory.append(" GB");
        out.push(memory);
        assert(out@.map_values(|l: String| l@) =~~= detail_head(*self));
        match &self.requirements.cuda_version {
            Some(c) => out.push(concat2("  CUDA Version: ", c.as_str())),
            None => {},
        }
        assert(out@.map_values(|l: String| l@) =~= detail_head(*self) + detail_cuda(*self));
        let ghost before_tail = out@;
        out.push(String::new());
        let tags = join_strings(&self.tags, ", ");
        out.push(concat2("Tags: ", tags.as_str()));
        out.push(String::new());
        out.push(String::from_str("Docker Pull Command:"));
        let pull = self.docker_pull_command();
        out.push(concat2("  ", pull.as_str()));
        out.push(String::new());
        out.push(concat2("Documentation: ", self.documentation_url.as_str()));
        proof {
            let tail = out@.subrange(before_tail.len() as int, out@.len() as int);
            assert(tail.map_values(|l: String| l@) =~~= detail_tail(*self));
            assert(out@ =~= before_tail + tail);
            assert(out@.map_values(|l: String| l@) =~= detail_lines(*self));
        }
        out
    }

    /// The title of the details popup: ` <name> - Details `.
    pub fn details_title(&self) -> (r: String)
        ensures
            r@ == " "@ + self.name@ + " - Details "@,
    {
        concat3(" ", self.name.as_str(), " - Details ")
    }
}

impl State {
    /// The applications table: `Available Applications (n)` and a row per
    /// application, the one under the cursor marked.
    pub fn applications_table(&self) -> (r: AppTable)
        ensures
            r.title@ == "Available Applications ("@ + decimal(self.catalog.applications@.len()) + ")"@,
            r.rows@.len() == self.catalog.applications@.len(),
            forall|i: int|
                0 <= i < r.rows@.len() ==> app_row_rel(
                    #[trigger] r.rows@[i],
                    self.catalog.applications@[i],
                    i == self.selected_index,
                ),
    {
        let apps = &self.catalog.applications;
        let mut rows: Vec<AppRow> = Vec::new();
        let mut i: usize = 0;
        while i < apps.len()
            invariant
                apps == &self.catalog.applications,
                i <= apps@.len(),
                rows@.len() == i,
                forall|k: int|
                    0 <= k < i ==> app_row_rel(#[trigger] rows@[k], apps@[k], k == self.selected_index),
            decreases apps@.len() - i,
        {
            let a = &apps[i];
            rows.push(
                AppRow {
                    name: a.name.clone(),
                    category: a.category.clone(),
                    version: a.version.clone(),
                    description: a.description.clone(),
                    gpu: if a.requirements.gpu { "🎮" } else { "  " },
                    selected: i == self.selected_index,
                },
            );
            i = i + 1;
        }
        let mut title = String::from_str("Available Applications (");
        push_decimal(&mut title, apps.len() as u128);
        title.append(")");
        AppTable { title, rows }
    }
}

} // verus!
