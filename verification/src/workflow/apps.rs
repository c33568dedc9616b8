//! Local application images shipped inside a workflow folder.
//!
//! A workflow may carry its own `apps/` directory holding one Dockerfile
//! directory per image it needs, e.g. `apps/p2rank_2026_07_10/Dockerfile`.
//! Those images exist in no registry, so a job referencing a bare
//! `p2rank:2026_07_10` cannot be satisfied by a pull. This module derives the
//! image tag of each such directory and works out which of them a workflow
//! actually needs, so the run can build them first.

use vstd::prelude::*;
use vstd::string::*;

use crate::job_config::job::JobMeta;
use crate::sorting::{insert_sorted, sorted_by_name};
use crate::text::{contains_string, to_chars};

verus! {

/// A local application image definition found under a workflow's `apps/` folder.
#[derive(Debug, Clone, PartialEq)]
pub struct LocalApp {
    /// Directory name as it appears under `apps/`, e.g. `admet_pipeline_2026_06_02`.
    pub dir_name: String,
    /// Image tag derived from `dir_name`, e.g. `admet_pipeline:2026_06_02`.
    pub image: String,
    /// Path to the Dockerfile that builds this image. Its parent is the build context.
    pub dockerfile: String,
}

/// An ASCII decimal digit.
pub open spec fn is_digit(c: char) -> bool {
    '0' <= c && c <= '9'
}

/// Position `k` of `s` holds a `_` followed by four digits.
pub open spec fn date_boundary(s: Seq<char>, k: int) -> bool {
    &&& 0 <= k
    &&& k + 4 < s.len()
    &&& s[k] == '_'
    &&& is_digit(s[k + 1])
    &&& is_digit(s[k + 2])
    &&& is_digit(s[k + 3])
    &&& is_digit(s[k + 4])
}

/// `k` is the last date boundary of `s`.
pub open spec fn last_date_boundary(s: Seq<char>, k: int) -> bool {
    date_boundary(s, k) && forall|j: int| k < j < s.len() ==> !#[trigger] date_boundary(s, j)
}

/// The image tag a directory name derives: the part before its last date
/// boundary, a colon, and the part after the underscore. `None` when the name
/// has no date boundary or nothing before it.
pub open spec fn derived_tag(s: Seq<char>) -> Option<Seq<char>> {
    if exists|k: int| #[trigger] last_date_boundary(s, k) && k > 0 {
        let k = choose|k: int| #[trigger] last_date_boundary(s, k) && k > 0;
        Some(s.subrange(0, k) + seq![':'] + s.subrange(k + 1, s.len() as int))
    } else {
        None
    }
}

/// The last date boundary is unique.
proof fn lemma_last_boundary_unique(s: Seq<char>, a: int, b: int)
    requires
        last_date_boundary(s, a),
        last_date_boundary(s, b),
    ensures
        a == b,
{
    if a < b {
        assert(!date_boundary(s, b));
    }
    if b < a {
        assert(!date_boundary(s, a));
    }
}

/// The tag is split at the largest date boundary: when `k` is the largest
/// position holding `_` and four digits, the name derives the part before
/// `k`, a colon and the part after the `_`, unless `k` is the start of the
/// name.
pub proof fn law_tag_from_largest_boundary(s: Seq<char>, k: int)
    requires
        date_boundary(s, k),
        forall|j: int| #[trigger] date_boundary(s, j) ==> j <= k,
    ensures
        derived_tag(s) == if k == 0 {
            None
        } else {
            Some(s.subrange(0, k) + seq![':'] + s.subrange(k + 1, s.len() as int))
        },
{
    assert(last_date_boundary(s, k));
    if k > 0 {
        let kk = choose|k2: int| #[trigger] last_date_boundary(s, k2) && k2 > 0;
        lemma_last_boundary_unique(s, kk, k);
    } else {
        assert forall|k2: int| #[trigger] last_date_boundary(s, k2) implies k2 <= 0 by {
            lemma_last_boundary_unique(s, k2, k);
        }
    }
}

/// A name without a date boundary derives no tag.
pub proof fn law_no_boundary_no_tag(s: Seq<char>)
    requires
        forall|j: int| !#[trigger] date_boundary(s, j),
    ensures
        derived_tag(s) is None,
{
    assert forall|k: int| #[trigger] last_date_boundary(s, k) implies false by {
        assert(date_boundary(s, k));
    }
}

fn is_ascii_digit(c: char) -> (r: bool)
    ensures
        r == is_digit(c),
{
    '0' <= c && c <= '9'
}

/// Derives an image tag from an `apps/` directory name.
///
/// Splits on the last `_` followed by four digits: everything before it becomes
/// the image name, everything after becomes the tag. A trailing `_v<n>` stays
/// part of the tag: `chai_2026_05_20_v2` derives `chai:2026_05_20_v2`, and
/// `admet_pipeline_2026_06_02` derives `admet_pipeline:2026_06_02`.
///
/// Returns `None` when the name has no such boundary, or when either side of it
/// would be empty; such a directory is not a recognised app definition.
pub fn derive_image_tag(dir_name: &str) -> (r: Option<String>)
    ensures
        r matches Some(t) ==> derived_tag(dir_name@) == Some(t@),
        r is None ==> derived_tag(dir_name@) is None,
{
    let cs = to_chars(dir_name);
    let n = cs.len();
    let ghost s = cs@;
    let mut k: usize = n;
    while k > 0
        invariant
            k <= n,
            n == s.len(),
            s == cs@,
            s == dir_name@,
            forall|j: int| k <= j < n ==> !#[trigger] date_boundary(s, j),
        decreases k,
    {
        let i = k - 1;
        if n - i > 4 && cs[i] == '_' && is_ascii_digit(cs[i + 1]) && is_ascii_digit(cs[i + 2])
            && is_ascii_digit(cs[i + 3]) && is_ascii_digit(cs[i + 4]) {
            assert(last_date_boundary(s, i as int));
            if i == 0 {
                proof {
                    if exists|k2: int| #[trigger] last_date_boundary(s, k2) && k2 > 0 {
                        let k2 = choose|k2: int| #[trigger] last_date_boundary(s, k2) && k2 > 0;
                        lemma_last_boundary_unique(s, k2, 0);
                    }
                }
                return None;
            }
            let name = dir_name.substring_char(0, i);
            let tag = dir_name.substring_char(i + 1, n);
            let mut out = String::from_str(name);
            out.append(":");
            out.append(tag);
            proof {
                let kk = choose|k2: int| #[trigger] last_date_boundary(s, k2) && k2 > 0;
                lemma_last_boundary_unique(s, kk, i as int);
                reveal_strlit(":");
                assert(out@ =~= s.subrange(0, i as int) + seq![':'] + s.subrange(i + 1, s.len() as int));
            }
            return Some(out);
        }
        k = k - 1;
    }
    proof {
        assert forall|k2: int| #[trigger] last_date_boundary(s, k2) && k2 > 0 implies false by {
            assert(date_boundary(s, k2));
        }
    }
    None
}

} // verus!

verus! {

/// What a local app holds: its directory name, image tag and Dockerfile path.
pub open spec fn app_view(a: LocalApp) -> (Seq<char>, Seq<char>, Seq<char>) {
    (a.dir_name@, a.image@, a.dockerfile@)
}

/// The views of a list of string pairs.
pub open spec fn pair_views(v: Seq<(String, String)>) -> Seq<(Seq<char>, Seq<char>)> {
    v.map_values(|p: (String, String)| (p.0@, p.1@))
}

/// The local apps described by `dirs`, each a directory name with the path of
/// its Dockerfile: one for every directory whose name derives a tag, in the
/// given order.
pub open spec fn derived_apps(dirs: Seq<(Seq<char>, Seq<char>)>) -> Seq<(Seq<char>, Seq<char>, Seq<char>)>
    decreases dirs.len(),
{
    if dirs.len() == 0 {
        Seq::empty()
    } else {
        let rest = derived_apps(dirs.drop_last());
        let (d, f) = dirs.last();
        match derived_tag(d) {
            Some(t) => rest.push((d, t, f)),
            None => rest,
        }
    }
}

/// Builds the local app definitions from the directories found under `apps/`
/// that hold a Dockerfile, given as pairs of directory name and Dockerfile
/// path, in the order given. Directories whose name derives no image tag are
/// skipped.
pub fn apps_from_dirs(dirs: &Vec<(String, String)>) -> (r: Vec<LocalApp>)
    ensures
        r@.map_values(|a: LocalApp| app_view(a)) == derived_apps(pair_views(dirs@)),
{
    let mut out: Vec<LocalApp> = Vec::new();
    let mut i: usize = 0;
    while i < dirs.len()
        invariant
            i <= dirs.len(),
            out@.map_values(|a: LocalApp| app_view(a)) == derived_apps(pair_views(dirs@.take(i as int))),
        decreases dirs.len() - i,
    {
        proof {
            assert(pair_views(dirs@.take(i as int + 1)).drop_last() =~= pair_views(dirs@.take(i as int)));
        }
        let (d, f) = &dirs[i];
        match derive_image_tag(d.as_str()) {
            Some(image) => {
                let app = LocalApp { dir_name: d.clone(), image, dockerfile: f.clone() };
                out.push(app);
                proof {
                    assert(out@.map_values(|a: LocalApp| app_view(a)) =~= derived_apps(pair_views(dirs@.take(i as int + 1))));
                }
            },
            None => {
                proof {
                    assert(out@.map_values(|a: LocalApp| app_view(a)) =~= derived_apps(pair_views(dirs@.take(i as int + 1))));
                }
            },
        }
        i = i + 1;
    }
    proof {
        assert(dirs@.take(dirs.len() as int) =~= dirs@);
    }
    out
}

/// The local apps of a workflow, from the directories under its `apps/`
/// folder that hold a Dockerfile, each given as its name and the path of the
/// Dockerfile, in the order the folder listed them: the directories are put
/// in name order, and those whose name derives an image tag become apps.
pub fn discover_apps(dirs: Vec<(String, String)>) -> (r: Vec<LocalApp>)
    ensures
        exists|sorted: Seq<(String, String)>|
            sorted_by_name(sorted) && sorted.to_multiset() == dirs@.to_multiset()
                && r@.map_values(|a: LocalApp| app_view(a)) == derived_apps(pair_views(sorted)),
{
    let mut sorted: Vec<(String, String)> = Vec::new();
    let ghost all = dirs@;
    proof {
        assert(all.subrange(0, 0) =~= sorted@);
    }
    let n = dirs.len();
    let mut i: usize = 0;
    while i < n
        invariant
            n == dirs@.len(),
            dirs@ == all,
            i <= n,
            sorted_by_name(sorted@),
            sorted@.to_multiset() == all.subrange(0, i as int).to_multiset(),
        decreases n - i,
    {
        let e = (dirs[i].0.clone(), dirs[i].1.clone());
        proof {
            assert(e == all[i as int]);
            assert(all.subrange(0, i + 1) =~= all.subrange(0, i as int).push(all[i as int]));
            vstd::seq_lib::to_multiset_build(all.subrange(0, i as int), all[i as int]);
        }
        insert_sorted(&mut sorted, e);
        i = i + 1;
    }
    proof {
        assert(all.subrange(0, n as int) =~= all);
    }
    apps_from_dirs(&sorted)
}

/// The images that `images` names, those of jobs whose configuration loaded.
pub open spec fn loaded_images(metas: Seq<Option<JobMeta>>) -> Seq<Seq<char>>
    decreases metas.len(),
{
    if metas.len() == 0 {
        Seq::empty()
    } else {
        let rest = loaded_images(metas.drop_last());
        match metas.last() {
            Some(m) => rest.push(m.container.image@),
            None => rest,
        }
    }
}

/// Collects the `container.image` of every job whose configuration loaded
/// (`Some`); jobs whose configuration failed to load (`None`) are skipped.
pub fn referenced_images(metas: &Vec<Option<JobMeta>>) -> (r: Vec<String>)
    ensures
        r@.map_values(|s: String| s@) == loaded_images(metas@),
{
    let mut out: Vec<String> = Vec::new();
    let mut i: usize = 0;
    while i < metas.len()
        invariant
            i <= metas.len(),
            out@.map_values(|s: String| s@) == loaded_images(metas@.take(i as int)),
        decreases metas.len() - i,
    {
        proof {
            assert(metas@.take(i as int + 1).drop_last() =~= metas@.take(i as int));
        }
        match &metas[i] {
            Some(m) => {
                out.push(m.container.image.clone());
            },
            None => {},
        }
        proof {
            assert(out@.map_values(|s: String| s@) =~= loaded_images(metas@.take(i as int + 1)));
        }
        i = i + 1;
    }
    proof {
        assert(metas@.take(metas.len() as int) =~= metas@);
    }
    out
}

/// The apps among `apps` whose image some entry of `referenced` names exactly.
pub open spec fn referenced_apps(apps: Seq<LocalApp>, referenced: Seq<Seq<char>>) -> Seq<LocalApp>
    decreases apps.len(),
{
    if apps.len() == 0 {
        Seq::empty()
    } else {
        let rest = referenced_apps(apps.drop_last(), referenced);
        if referenced.contains(apps.last().image@) {
            rest.push(apps.last())
        } else {
            rest
        }
    }
}

/// Every app kept for building is one of the discovered apps, and some job
/// references its image verbatim.
pub proof fn law_built_apps_are_referenced(apps: Seq<LocalApp>, referenced: Seq<Seq<char>>, i: int)
    requires
        0 <= i < referenced_apps(apps, referenced).len(),
    ensures
        referenced.contains(referenced_apps(apps, referenced)[i].image@),
        apps.contains(referenced_apps(apps, referenced)[i]),
    decreases apps.len(),
{
    let rest = referenced_apps(apps.drop_last(), referenced);
    if i < rest.len() {
        law_built_apps_are_referenced(apps.drop_last(), referenced, i);
        let j = choose|j: int| 0 <= j < apps.drop_last().len() && apps.drop_last()[j] == rest[i];
        assert(apps[j] == rest[i]);
    } else {
        assert(apps[apps.len() - 1] == apps.last());
    }
}

/// Returns the local apps this workflow actually needs: those whose derived tag
/// is referenced verbatim by at least one job's `container.image`, in the order
/// of `apps`.
///
/// An app directory nothing references is skipped, and so is a
/// registry-qualified image, since a derived tag never carries a registry
/// prefix.
pub fn apps_to_build(apps: Vec<LocalApp>, referenced: &Vec<String>) -> (r: Vec<LocalApp>)
    ensures
        r@ == referenced_apps(apps@, referenced@.map_values(|x: String| x@)),
{
    let ghost refs = referenced@.map_values(|x: String| x@);
    let ghost all = apps@;
    let mut out: Vec<LocalApp> = Vec::new();
    let mut i: usize = 0;
    let n = apps.len();
    let mut apps = apps;
    while i < n
        invariant
            i <= n,
            n == all.len(),
            apps@ == all.skip(i as int),
            refs == referenced@.map_values(|x: String| x@),
            out@ == referenced_apps(all.take(i as int), refs),
        decreases n - i,
    {
        proof {
            assert(all.take(i as int + 1).drop_last() =~= all.take(i as int));
        }
        let app = apps.remove(0);
        proof {
            assert(apps@ =~= all.skip(i as int + 1));
        }
        let keep = contains_string(referenced.as_slice(), app.image.as_str());
        if keep {
            out.push(app);
        }
        i = i + 1;
    }
    proof {
        assert(all.take(n as int) =~= all);
    }
    out
}

} // verus!
