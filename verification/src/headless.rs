//! Ordering the jobs of a workflow so that every job runs after the jobs it
//! depends on.

use vstd::prelude::*;
use vstd::string::*;

use crate::job_config::workflow::{deps_of, WorkflowMeta};
use crate::docker::executor::{path_file_name, path_file_name_text};
use crate::text::{concat2, join, lemma_join_push, str_eq};
use crate::workflow::job_folder::JobFolder;

verus! {

/// The dependencies of job `i`, by name.
pub open spec fn job_deps(jobs: Seq<JobFolder>, deps: Seq<(String, Vec<String>)>, i: int) -> Seq<
    String,
> {
    deps_of(deps, jobs[i].name@)
}

/// Whether some job is named `d`.
pub open spec fn names_job(jobs: Seq<JobFolder>, d: Seq<char>) -> bool {
    exists|i: int| 0 <= i < jobs.len() && (#[trigger] jobs[i]).name@ == d
}

/// Dependency `k` of job `i` names no job.
pub open spec fn missing_at(
    jobs: Seq<JobFolder>,
    deps: Seq<(String, Vec<String>)>,
    i: int,
    k: int,
) -> bool {
    0 <= i < jobs.len() && 0 <= k < job_deps(jobs, deps, i).len() && !names_job(
        jobs,
        job_deps(jobs, deps, i)[k]@,
    )
}

/// Some dependency names no job.
pub open spec fn has_missing(jobs: Seq<JobFolder>, deps: Seq<(String, Vec<String>)>) -> bool {
    exists|i: int, k: int| missing_at(jobs, deps, i, k)
}

/// `(i, k)` is the first missing dependency: jobs in order, and each job's
/// dependencies in order.
pub open spec fn first_missing(
    jobs: Seq<JobFolder>,
    deps: Seq<(String, Vec<String>)>,
    i: int,
    k: int,
) -> bool {
    &&& missing_at(jobs, deps, i, k)
    &&& forall|i2: int, k2: int|
        (i2 < i || (i2 == i && k2 < k)) ==> !#[trigger] missing_at(jobs, deps, i2, k2)
}

/// The message for a dependency that names no job.
pub open spec fn missing_message(job: Seq<char>, dep: Seq<char>) -> Seq<char> {
    "Job '"@ + job + "' depends on '"@ + dep + "', but '"@ + dep + "' does not exist"@
}

/// No two jobs share a name.
pub open spec fn names_distinct(jobs: Seq<JobFolder>) -> bool {
    forall|i: int, j: int|
        0 <= i < jobs.len() && 0 <= j < jobs.len() && i != j ==> (#[trigger] jobs[i]).name@
            != (#[trigger] jobs[j]).name@
}

/// Some job in `s` is named `n`.
pub open spec fn has_name_in(jobs: Seq<JobFolder>, n: Seq<char>, s: Set<int>) -> bool {
    exists|i: int| s.contains(i) && 0 <= i < jobs.len() && #[trigger] jobs[i].name@ == n
}

/// Every name in `list` is the name of a job in `s`.
pub open spec fn names_within(jobs: Seq<JobFolder>, list: Seq<String>, s: Set<int>) -> bool {
    forall|k: int| 0 <= k < list.len() ==> #[trigger] has_name_in(jobs, list[k]@, s)
}

/// Every dependency of job `j` is the name of a job in `s`.
pub open spec fn deps_within(
    jobs: Seq<JobFolder>,
    deps: Seq<(String, Vec<String>)>,
    j: int,
    s: Set<int>,
) -> bool {
    names_within(jobs, job_deps(jobs, deps, j), s)
}

/// The jobs that can run after `k` rounds, each round running every job whose
/// dependencies ran in the rounds before.
pub open spec fn settled_after(
    jobs: Seq<JobFolder>,
    deps: Seq<(String, Vec<String>)>,
    k: nat,
) -> Set<int>
    decreases k,
{
    if k == 0 {
        Set::empty()
    } else {
        Set::new(|j: int| 0 <= j < jobs.len() && deps_within(jobs, deps, j, settled_after(jobs, deps, (k - 1) as nat)))
    }
}

/// The jobs that can ever run: no dependency of theirs leads into a cycle.
pub open spec fn settled(jobs: Seq<JobFolder>, deps: Seq<(String, Vec<String>)>) -> Set<int> {
    settled_after(jobs, deps, jobs.len())
}

/// Job `j` can never run: no job of its name can.
pub open spec fn blocked(jobs: Seq<JobFolder>, deps: Seq<(String, Vec<String>)>, j: int) -> bool {
    !exists|i: int|
        settled(jobs, deps).contains(i) && 0 <= i < jobs.len() && #[trigger] jobs[i].name@
            == jobs[j].name@
}

/// The names of the blocked jobs among the first `m`, in job order.
pub open spec fn blocked_names_upto(
    jobs: Seq<JobFolder>,
    deps: Seq<(String, Vec<String>)>,
    m: int,
) -> Seq<Seq<char>>
    decreases m,
{
    if m <= 0 {
        Seq::empty()
    } else {
        let prev = blocked_names_upto(jobs, deps, m - 1);
        if blocked(jobs, deps, m - 1) {
            prev.push(jobs[m - 1].name@)
        } else {
            prev
        }
    }
}

/// The message for a workflow whose jobs cannot all be ordered.
pub open spec fn circular_message(jobs: Seq<JobFolder>, deps: Seq<(String, Vec<String>)>) -> Seq<
    char,
> {
    "Circular dependency detected: "@ + join(blocked_names_upto(jobs, deps, jobs.len() as int), ", "@)
}

/// Dependency `k` of the job at position `p` of `order` names a job at an
/// earlier position.
pub open spec fn dep_precedes(
    jobs: Seq<JobFolder>,
    deps: Seq<(String, Vec<String>)>,
    order: Seq<usize>,
    p: int,
    k: int,
) -> bool {
    exists|q: int|
        0 <= q < p && jobs[order[q] as int].name@ == job_deps(jobs, deps, order[p] as int)[k]@
}

/// `order` lists every job once, and each job after every job named by its
/// dependencies.
pub open spec fn valid_order(
    jobs: Seq<JobFolder>,
    deps: Seq<(String, Vec<String>)>,
    order: Seq<usize>,
) -> bool {
    &&& forall|p: int| 0 <= p < order.len() ==> (#[trigger] order[p]) < jobs.len()
    &&& forall|j: int| 0 <= j < jobs.len() ==> #[trigger] appears(order, j)
    &&& forall|p: int, q: int|
        0 <= p < order.len() && 0 <= q < order.len() && p != q ==> (#[trigger] order[p])
            != (#[trigger] order[q])
    &&& forall|p: int, k: int|
        0 <= p < order.len() && 0 <= k < job_deps(jobs, deps, order[p] as int).len()
            ==> #[trigger] dep_precedes(jobs, deps, order, p, k)
}

/// Job `j` is listed in `order`.
pub open spec fn appears(order: Seq<usize>, j: int) -> bool {
    exists|p: int| 0 <= p < order.len() && order[p] == j
}

/// Some order runs every job after the jobs it depends on.
pub open spec fn orderable(jobs: Seq<JobFolder>, deps: Seq<(String, Vec<String>)>) -> bool {
    exists|order: Seq<usize>| valid_order(jobs, deps, order)
}

/// The set of indices marked in `processed`.
pub open spec fn marked(processed: Seq<bool>) -> Set<int> {
    Set::new(|i: int| 0 <= i < processed.len() && processed[i])
}

/// Whether some job is named `d`.
pub fn names_a_job(jobs: &[JobFolder], d: &str) -> (r: bool)
    ensures
        r == names_job(jobs@, d@),
{
    let mut i: usize = 0;
    while i < jobs.len()
        invariant
            i <= jobs@.len(),
            forall|j: int| 0 <= j < i ==> (#[trigger] jobs@[j]).name@ != d@,
        decreases jobs@.len() - i,
    {
        if str_eq(jobs[i].name.as_str(), d) {
            return true;
        }
        i = i + 1;
    }
    false
}

/// The first dependency that names no job, as (job, position in its list).
fn find_missing(jobs: &[JobFolder], meta: &WorkflowMeta) -> (r: Option<(usize, usize)>)
    ensures
        r is None ==> !has_missing(jobs@, meta.dependencies@),
        r matches Some((i, k)) ==> first_missing(jobs@, meta.dependencies@, i as int, k as int),
{
    let ghost d = meta.dependencies@;
    let mut i: usize = 0;
    while i < jobs.len()
        invariant
            i <= jobs@.len(),
            d == meta.dependencies@,
            forall|i2: int, k2: int| i2 < i ==> !#[trigger] missing_at(jobs@, d, i2, k2),
        decreases jobs@.len() - i,
    {
        let list = meta.get_job_dependencies(jobs[i].name.as_str());
        let mut k: usize = 0;
        while k < list.len()
            invariant
                i < jobs@.len(),
                k <= list@.len(),
                d == meta.dependencies@,
                list@ == job_deps(jobs@, d, i as int),
                forall|i2: int, k2: int| i2 < i ==> !#[trigger] missing_at(jobs@, d, i2, k2),
                forall|k2: int| k2 < k ==> !#[trigger] missing_at(jobs@, d, i as int, k2),
            decreases list@.len() - k,
        {
            if !names_a_job(jobs, list[k].as_str()) {
                assert forall|i2: int, k2: int|
                    (i2 < i || (i2 == i && k2 < k)) implies !#[trigger] missing_at(
                    jobs@,
                    d,
                    i2,
                    k2,
                ) by {}
                return Some((i, k));
            }
            k = k + 1;
        }
        assert forall|i2: int, k2: int| i2 < i + 1 implies !#[trigger] missing_at(
            jobs@,
            d,
            i2,
            k2,
        ) by {
            if i2 == i && 0 <= k2 < list@.len() {
                assert(!missing_at(jobs@, d, i as int, k2));
            }
        }
        i = i + 1;
    }
    None
}

/// Whether some marked job is named `d`.
fn names_a_marked_job(jobs: &[JobFolder], processed: &Vec<bool>, d: &str) -> (r: bool)
    requires
        processed@.len() == jobs@.len(),
    ensures
        r == exists|i: int|
            marked(processed@).contains(i) && 0 <= i < jobs@.len() && #[trigger] jobs@[i].name@
                == d@,
{
    let mut i: usize = 0;
    while i < jobs.len()
        invariant
            i <= jobs@.len(),
            processed@.len() == jobs@.len(),
            forall|j: int| 0 <= j < i && processed@[j] ==> (#[trigger] jobs@[j]).name@ != d@,
        decreases jobs@.len() - i,
    {
        if processed[i] && str_eq(jobs[i].name.as_str(), d) {
            assert(marked(processed@).contains(i as int));
            return true;
        }
        i = i + 1;
    }
    false
}

/// Whether every dependency of job `j` names a marked job.
fn is_ready(jobs: &[JobFolder], meta: &WorkflowMeta, processed: &Vec<bool>, j: usize) -> (r: bool)
    requires
        processed@.len() == jobs@.len(),
        j < jobs@.len(),
    ensures
        r == deps_within(jobs@, meta.dependencies@, j as int, marked(processed@)),
{
    let list = meta.get_job_dependencies(jobs[j].name.as_str());
    let mut k: usize = 0;
    while k < list.len()
        invariant
            k <= list@.len(),
            processed@.len() == jobs@.len(),
            j < jobs@.len(),
            list@ == job_deps(jobs@, meta.dependencies@, j as int),
            names_within(jobs@, list@.take(k as int), marked(processed@)),
        decreases list@.len() - k,
    {
        if !names_a_marked_job(jobs, processed, list[k].as_str()) {
            assert(list@[k as int] == list@.take(list@.len() as int)[k as int]);
            assert(!has_name_in(jobs@, list@[k as int]@, marked(processed@)));
            return false;
        }
        assert forall|k2: int| 0 <= k2 < k + 1 implies #[trigger] has_name_in(
            jobs@,
            list@.take(k + 1)[k2]@,
            marked(processed@),
        ) by {
            if k2 < k {
                assert(list@.take(k + 1)[k2] == list@.take(k as int)[k2]);
            }
        }
        k = k + 1;
    }
    assert(list@.take(list@.len() as int) =~= list@);
    true
}

/// The jobs marked in `processed` are those of `order`, which lists each of
/// them once, each after every job named by its dependencies.
pub open spec fn greedy_inv(
    jobs: Seq<JobFolder>,
    deps: Seq<(String, Vec<String>)>,
    processed: Seq<bool>,
    order: Seq<usize>,
) -> bool {
    &&& processed.len() == jobs.len()
    &&& order.len() <= jobs.len()
    &&& forall|p: int| 0 <= p < order.len() ==> (#[trigger] order[p]) < jobs.len()
    &&& forall|p: int, q: int|
        0 <= p < order.len() && 0 <= q < order.len() && p != q ==> (#[trigger] order[p])
            != (#[trigger] order[q])
    &&& forall|i: int| 0 <= i < jobs.len() ==> (processed[i] <==> #[trigger] appears(order, i))
    &&& forall|p: int, k: int|
        0 <= p < order.len() && 0 <= k < job_deps(jobs, deps, order[p] as int).len()
            ==> #[trigger] dep_precedes(jobs, deps, order, p, k)
}

/// Running rounds only adds jobs.
pub proof fn lemma_settled_grows(jobs: Seq<JobFolder>, deps: Seq<(String, Vec<String>)>, a: nat, b: nat)
    requires
        a <= b,
    ensures
        settled_after(jobs, deps, a).subset_of(settled_after(jobs, deps, b)),
    decreases b,
{
    if a < b {
        lemma_settled_grows(jobs, deps, a, (b - 1) as nat);
        lemma_settled_step(jobs, deps, (b - 1) as nat);
    }
}

/// One more round only adds jobs.
pub proof fn lemma_settled_step(jobs: Seq<JobFolder>, deps: Seq<(String, Vec<String>)>, k: nat)
    ensures
        settled_after(jobs, deps, k).subset_of(settled_after(jobs, deps, k + 1)),
    decreases k,
{
    if k > 0 {
        lemma_settled_step(jobs, deps, (k - 1) as nat);
        let s = settled_after(jobs, deps, (k - 1) as nat);
        let t = settled_after(jobs, deps, k);
        assert forall|j: int| settled_after(jobs, deps, k).contains(j) implies settled_after(
            jobs,
            deps,
            k + 1,
        ).contains(j) by {
            lemma_deps_within_mono(jobs, deps, j, s, t);
        }
    }
}

/// Names within a set are within any larger set.
pub proof fn lemma_names_within_mono(jobs: Seq<JobFolder>, list: Seq<String>, s: Set<int>, t: Set<int>)
    requires
        s.subset_of(t),
        names_within(jobs, list, s),
    ensures
        names_within(jobs, list, t),
{
    assert forall|k: int| 0 <= k < list.len() implies #[trigger] has_name_in(jobs, list[k]@, t) by {
        assert(has_name_in(jobs, list[k]@, s));
        let i = choose|i: int| s.contains(i) && 0 <= i < jobs.len() && jobs[i].name@ == list[k]@;
        assert(t.contains(i));
    }
}

/// A job whose dependencies name jobs of a set also has them naming jobs of
/// any larger set.
pub proof fn lemma_deps_within_mono(
    jobs: Seq<JobFolder>,
    deps: Seq<(String, Vec<String>)>,
    j: int,
    s: Set<int>,
    t: Set<int>,
)
    requires
        s.subset_of(t),
        deps_within(jobs, deps, j, s),
    ensures
        deps_within(jobs, deps, j, t),
{
    lemma_names_within_mono(jobs, job_deps(jobs, deps, j), s, t);
}

/// Every job of `order` is among those that can run, each after the jobs it
/// depends on.
pub proof fn lemma_order_settled(
    jobs: Seq<JobFolder>,
    deps: Seq<(String, Vec<String>)>,
    processed: Seq<bool>,
    order: Seq<usize>,
    p: int,
)
    requires
        greedy_inv(jobs, deps, processed, order),
        0 <= p < order.len(),
    ensures
        settled_after(jobs, deps, (p + 1) as nat).contains(order[p] as int),
    decreases p,
{
    let sp = settled_after(jobs, deps, p as nat);
    assert forall|q: int| 0 <= q < p implies sp.contains(#[trigger] order[q] as int) by {
        lemma_order_settled(jobs, deps, processed, order, q);
        lemma_settled_grows(jobs, deps, (q + 1) as nat, p as nat);
    }
    let j = order[p] as int;
    let list = job_deps(jobs, deps, j);
    assert forall|k: int| 0 <= k < list.len() implies #[trigger] has_name_in(jobs, list[k]@, sp) by {
        assert(dep_precedes(jobs, deps, order, p, k));
        let q = choose|q: int|
            0 <= q < p && jobs[order[q] as int].name@ == job_deps(jobs, deps, order[p] as int)[k]@;
        assert(sp.contains(order[q] as int));
    }
}

/// What can run is what the greedy pass ran, once no further job is ready.
pub proof fn lemma_marked_is_settled(
    jobs: Seq<JobFolder>,
    deps: Seq<(String, Vec<String>)>,
    processed: Seq<bool>,
    order: Seq<usize>,
)
    requires
        greedy_inv(jobs, deps, processed, order),
        forall|j: int|
            0 <= j < jobs.len() && !processed[j] ==> !#[trigger] deps_within(
                jobs,
                deps,
                j,
                marked(processed),
            ),
    ensures
        marked(processed) =~= settled(jobs, deps),
{
    let n = jobs.len();
    assert forall|j: int| marked(processed).contains(j) implies settled(jobs, deps).contains(j) by {
        assert(appears(order, j));
        let p = choose|p: int| 0 <= p < order.len() && order[p] == j;
        lemma_order_settled(jobs, deps, processed, order, p);
        lemma_settled_grows(jobs, deps, (p + 1) as nat, n);
    }
    lemma_settled_within_marked(jobs, deps, processed, order, n);
}

/// Every round of what can run stays within what the greedy pass ran.
pub proof fn lemma_settled_within_marked(
    jobs: Seq<JobFolder>,
    deps: Seq<(String, Vec<String>)>,
    processed: Seq<bool>,
    order: Seq<usize>,
    k: nat,
)
    requires
        greedy_inv(jobs, deps, processed, order),
        forall|j: int|
            0 <= j < jobs.len() && !processed[j] ==> !#[trigger] deps_within(
                jobs,
                deps,
                j,
                marked(processed),
            ),
    ensures
        settled_after(jobs, deps, k).subset_of(marked(processed)),
    decreases k,
{
    if k > 0 {
        lemma_settled_within_marked(jobs, deps, processed, order, (k - 1) as nat);
        assert forall|j: int| settled_after(jobs, deps, k).contains(j) implies marked(
            processed,
        ).contains(j) by {
            lemma_deps_within_mono(
                jobs,
                deps,
                j,
                settled_after(jobs, deps, (k - 1) as nat),
                marked(processed),
            );
        }
    }
}

/// Among the positions of `order`, one holding an unmarked job comes first.
pub proof fn lemma_first_unmarked(order: Seq<usize>, processed: Seq<bool>, p0: int)
    requires
        0 <= p0 < order.len(),
        forall|p: int| 0 <= p < order.len() ==> (#[trigger] order[p]) < processed.len(),
        !processed[order[p0] as int],
    ensures
        exists|p: int|
            0 <= p <= p0 && !processed[order[p] as int] && forall|q: int|
                0 <= q < p ==> processed[#[trigger] order[q] as int],
    decreases p0,
{
    if exists|q: int| 0 <= q < p0 && !processed[#[trigger] order[q] as int] {
        let q = choose|q: int| 0 <= q < p0 && !processed[#[trigger] order[q] as int];
        lemma_first_unmarked(order, processed, q);
    } else {
        assert forall|q: int| 0 <= q < p0 implies processed[#[trigger] order[q] as int] by {}
    }
}

/// When some job is left that no pass could run, no order runs every job
/// after the jobs it depends on.
pub proof fn lemma_stuck_not_orderable(
    jobs: Seq<JobFolder>,
    deps: Seq<(String, Vec<String>)>,
    processed: Seq<bool>,
    j0: int,
)
    requires
        processed.len() == jobs.len(),
        0 <= j0 < jobs.len(),
        !processed[j0],
        forall|j: int|
            0 <= j < jobs.len() && !processed[j] ==> !#[trigger] deps_within(
                jobs,
                deps,
                j,
                marked(processed),
            ),
    ensures
        !orderable(jobs, deps),
{
    if orderable(jobs, deps) {
        let order = choose|order: Seq<usize>| valid_order(jobs, deps, order);
        assert(appears(order, j0));
        let p0 = choose|p: int| 0 <= p < order.len() && order[p] == j0;
        lemma_first_unmarked(order, processed, p0);
        let p = choose|p: int|
            0 <= p <= p0 && !processed[order[p] as int] && forall|q: int|
                0 <= q < p ==> processed[#[trigger] order[q] as int];
        let j = order[p] as int;
        assert(!deps_within(jobs, deps, j, marked(processed)));
        let list = job_deps(jobs, deps, j);
        let k = choose|k: int| 0 <= k < list.len() && !#[trigger] has_name_in(jobs, list[k]@, marked(processed));
        assert(dep_precedes(jobs, deps, order, p, k));
        let q = choose|q: int|
            0 <= q < p && jobs[order[q] as int].name@ == job_deps(jobs, deps, order[p] as int)[k]@;
        assert(processed[order[q] as int]);
        assert(marked(processed).contains(order[q] as int));
    }
}

/// Whether no two jobs share a name.
fn all_names_distinct(jobs: &[JobFolder]) -> (r: bool)
    ensures
        r == names_distinct(jobs@),
{
    let mut i: usize = 0;
    while i < jobs.len()
        invariant
            i <= jobs@.len(),
            forall|a: int, b: int|
                0 <= a < i && 0 <= b < jobs@.len() && a != b ==> (#[trigger] jobs@[a]).name@
                    != (#[trigger] jobs@[b]).name@,
        decreases jobs@.len() - i,
    {
        let mut j: usize = 0;
        while j < jobs.len()
            invariant
                i < jobs@.len(),
                j <= jobs@.len(),
                forall|a: int, b: int|
                    0 <= a < i && 0 <= b < jobs@.len() && a != b ==> (#[trigger] jobs@[a]).name@
                        != (#[trigger] jobs@[b]).name@,
                forall|b: int| 0 <= b < j && b != i ==> jobs@[i as int].name@ != (#[trigger] jobs@[b]).name@,
            decreases jobs@.len() - j,
        {
            if j != i && str_eq(jobs[i].name.as_str(), jobs[j].name.as_str()) {
                return false;
            }
            j = j + 1;
        }
        i = i + 1;
    }
    true
}

/// The names of the jobs that can never run, joined with `, `, given that
/// `processed` marks exactly the jobs that can.
fn blocked_list(jobs: &[JobFolder], processed: &Vec<bool>, Ghost(deps): Ghost<Seq<(String, Vec<String>)>>) -> (r: String)
    requires
        processed@.len() == jobs@.len(),
        marked(processed@) =~= settled(jobs@, deps),
    ensures
        r@ == join(blocked_names_upto(jobs@, deps, jobs@.len() as int), ", "@),
{
    let mut listed = String::new();
    let mut any_listed = false;
    let mut j: usize = 0;
    while j < jobs.len()
        invariant
            j <= jobs@.len(),
            processed@.len() == jobs@.len(),
            marked(processed@) =~= settled(jobs@, deps),
            listed@ == join(blocked_names_upto(jobs@, deps, j as int), ", "@),
            any_listed == (blocked_names_upto(jobs@, deps, j as int).len() > 0),
        decreases jobs@.len() - j,
    {
        let runs = names_a_marked_job(jobs, processed, jobs[j].name.as_str());
        proof {
            lemma_join_push(blocked_names_upto(jobs@, deps, j as int), ", "@, jobs@[j as int].name@);
            assert(runs == !blocked(jobs@, deps, j as int));
        }
        if !runs {
            if any_listed {
                listed.append(", ");
            }
            listed.append(jobs[j].name.as_str());
            any_listed = true;
        }
        j = j + 1;
    }
    listed
}

/// Why the jobs could not be ordered.
pub enum OrderError {
    /// Dependency `dep` (a position in its list) of job `job` names no job.
    MissingDependency { job: usize, dep: usize },
    /// Some jobs can never run; their names, joined with `, `.
    Blocked(String),
}

/// Orders the jobs so that each comes after the jobs it depends on, as
/// indices into `jobs`.
///
/// The first dependency that names no job is reported first. Otherwise the
/// jobs are ordered when their names are distinct and some order satisfies
/// every dependency; when not, the error lists the jobs that can never run.
pub fn order_jobs(jobs: &[JobFolder], meta: &WorkflowMeta) -> (r: Result<Vec<usize>, OrderError>)
    ensures
        has_missing(jobs@, meta.dependencies@) ==> (r matches Err(OrderError::MissingDependency { job, dep })
            && first_missing(jobs@, meta.dependencies@, job as int, dep as int)),
        !has_missing(jobs@, meta.dependencies@) ==> (r is Ok <==> names_distinct(jobs@) && orderable(
            jobs@,
            meta.dependencies@,
        )),
        !has_missing(jobs@, meta.dependencies@) ==> (r matches Err(e) ==> (e matches OrderError::Blocked(list)
            && list@ == join(blocked_names_upto(jobs@, meta.dependencies@, jobs@.len() as int), ", "@))),
        r matches Ok(order) ==> valid_order(jobs@, meta.dependencies@, order@),
        !has_missing(jobs@, meta.dependencies@) && names_distinct(jobs@) && r is Err ==> exists|c: Seq<int>|
            dependency_cycle(jobs@, meta.dependencies@, c),
{
    let ghost deps = meta.dependencies@;
    match find_missing(jobs, meta) {
        Some((i, k)) => {
            return Err(OrderError::MissingDependency { job: i, dep: k });
        },
        None => {},
    }
    let n = jobs.len();
    let mut processed: Vec<bool> = Vec::new();
    for i in 0..n
        invariant
            processed@.len() == i,
            forall|k: int| 0 <= k < i ==> !processed@[k],
    {
        processed.push(false);
    }
    let mut order: Vec<usize> = Vec::new();
    assert(greedy_inv(jobs@, deps, processed@, order@));
    let mut done = false;
    while !done
        invariant
            n == jobs@.len(),
            deps == meta.dependencies@,
            greedy_inv(jobs@, deps, processed@, order@),
            done ==> forall|x: int|
                0 <= x < jobs@.len() && !processed@[x] ==> !#[trigger] deps_within(
                    jobs@,
                    deps,
                    x,
                    marked(processed@),
                ),
        decreases jobs@.len() - order@.len(), if done { 0int } else { 1int },
    {
        let mut found: Option<usize> = None;
        let mut j: usize = 0;
        while j < n
            invariant_except_break
                found is None,
            invariant
                n == jobs@.len(),
                deps == meta.dependencies@,
                greedy_inv(jobs@, deps, processed@, order@),
                j <= n,
                forall|x: int|
                    0 <= x < j && !processed@[x] ==> !#[trigger] deps_within(jobs@, deps, x, marked(processed@)),
            ensures
                found is None ==> forall|x: int|
                    0 <= x < n && !processed@[x] ==> !#[trigger] deps_within(jobs@, deps, x, marked(processed@)),
                found matches Some(x) ==> x < n && !processed@[x as int] && deps_within(jobs@, deps, x as int, marked(processed@)),
            decreases n - j,
        {
            if !processed[j] && is_ready(jobs, meta, &processed, j) {
                found = Some(j);
                break;
            }
            j = j + 1;
        }
        match found {
            Some(x) => {
                let ghost old_p = processed@;
                let ghost old_o = order@;
                proof {
                    assert(!appears(old_o, x as int));
                    assert(old_o.len() < jobs@.len()) by {
                        lemma_short_order(jobs@, deps, old_p, old_o, x as int);
                    }
                }
                processed.set(x, true);
                order.push(x);
                proof {
                    let o = order@;
                    assert(processed@.len() == jobs@.len());
                    assert(o.len() <= jobs@.len());
                    assert forall|p: int| 0 <= p < o.len() implies (#[trigger] o[p]) < jobs@.len() by {
                        if p < old_o.len() {
                            assert(o[p] == old_o[p]);
                        }
                    }
                    assert forall|i: int| 0 <= i < jobs@.len() implies (processed@[i] <==> #[trigger] appears(o, i)) by {
                        if processed@[i] && i != x {
                            assert(appears(old_o, i));
                            let p = choose|p: int| 0 <= p < old_o.len() && old_o[p] == i;
                            assert(o[p] == i);
                        }
                        if appears(o, i) {
                            let p = choose|p: int| 0 <= p < o.len() && o[p] == i;
                            if p < old_o.len() {
                                assert(old_o[p] == i);
                                assert(appears(old_o, i));
                            }
                        }
                        if i == x {
                            assert(o[old_o.len() as int] == x);
                        }
                    }
                    assert forall|p: int, k: int|
                        0 <= p < o.len() && 0 <= k < job_deps(jobs@, deps, o[p] as int).len()
                        implies #[trigger] dep_precedes(jobs@, deps, o, p, k) by {
                        if p < old_o.len() {
                            assert(o[p] == old_o[p]);
                            assert(dep_precedes(jobs@, deps, old_o, p, k));
                            let q = choose|q: int|
                                0 <= q < p && jobs@[old_o[q] as int].name@ == job_deps(jobs@, deps, old_o[p] as int)[k]@;
                            assert(o[q] == old_o[q]);
                        } else {
                            let list = job_deps(jobs@, deps, x as int);
                            assert(p == old_o.len());
                            assert(o[p] == x);
                            assert(has_name_in(jobs@, list[k]@, marked(old_p)));
                            let i = choose|i: int| marked(old_p).contains(i) && 0 <= i < jobs@.len() && jobs@[i].name@ == list[k]@;
                            assert(appears(old_o, i));
                            let q = choose|q: int| 0 <= q < old_o.len() && old_o[q] == i;
                            assert(o[q] == i);
                        }
                    }
                    assert forall|p: int, q: int|
                        0 <= p < o.len() && 0 <= q < o.len() && p != q implies (#[trigger] o[p]) != (#[trigger] o[q]) by {
                        if p < old_o.len() && q < old_o.len() {
                            assert(o[p] == old_o[p] && o[q] == old_o[q]);
                        } else if p < old_o.len() {
                            assert(o[p] == old_o[p]);
                            assert(appears(old_o, o[p] as int));
                        } else if q < old_o.len() {
                            assert(o[q] == old_o[q]);
                            assert(appears(old_o, o[q] as int));
                        }
                    }
                }
            },
            None => {
                done = true;
            },
        }
    }
    let ghost p_final = processed@;
    let ghost o_final = order@;
    proof {
        lemma_marked_is_settled(jobs@, deps, p_final, o_final);
    }
    let mut all_run = true;
    let mut i: usize = 0;
    while i < n
        invariant
            n == jobs@.len(),
            i <= n,
            processed@ == p_final,
            processed@.len() == n,
            all_run == forall|x: int| 0 <= x < i ==> processed@[x],
        decreases n - i,
    {
        if !processed[i] {
            all_run = false;
        }
        i = i + 1;
    }
    if all_run && all_names_distinct(jobs) {
        proof {
            assert forall|j: int| 0 <= j < jobs@.len() implies #[trigger] appears(o_final, j) by {
                assert(p_final[j]);
            }
            assert(valid_order(jobs@, deps, o_final));
        }
        Ok(order)
    } else {
        proof {
            if !all_run {
                let j0 = choose|x: int| 0 <= x < n && !processed@[x];
                lemma_stuck_not_orderable(jobs@, deps, p_final, j0);
                lemma_stuck_has_cycle(jobs@, deps, p_final, j0);
            }
        }
        Err(OrderError::Blocked(blocked_list(jobs, &processed, Ghost(deps))))
    }
}

/// The dependency `k` of job `i`, when it is one.
fn dependency_name(jobs: &[JobFolder], meta: &WorkflowMeta, i: usize, k: usize) -> (r: String)
    requires
        missing_at(jobs@, meta.dependencies@, i as int, k as int),
    ensures
        r@ == job_deps(jobs@, meta.dependencies@, i as int)[k as int]@,
{
    let list = meta.get_job_dependencies(jobs[i].name.as_str());
    list[k].clone()
}

/// Orders the jobs so that each comes after the jobs it depends on, as
/// indices into `jobs`.
///
/// A dependency that names no job is reported first, naming the first such
/// dependency. Otherwise the jobs are ordered when their names are distinct
/// and some order satisfies every dependency; when not, the error names the
/// jobs that can never run.
pub fn topological_order(jobs: &[JobFolder], meta: &WorkflowMeta) -> (r: Result<Vec<usize>, String>)
    ensures
        has_missing(jobs@, meta.dependencies@) ==> exists|i: int, k: int|
            first_missing(jobs@, meta.dependencies@, i, k) && (r matches Err(m) && m@
                == missing_message(jobs@[i].name@, job_deps(jobs@, meta.dependencies@, i)[k]@)),
        !has_missing(jobs@, meta.dependencies@) ==> (r is Ok <==> names_distinct(jobs@) && orderable(
            jobs@,
            meta.dependencies@,
        )),
        !has_missing(jobs@, meta.dependencies@) ==> (r matches Err(m) ==> m@ == circular_message(
            jobs@,
            meta.dependencies@,
        )),
        r matches Ok(order) ==> valid_order(jobs@, meta.dependencies@, order@),
        !has_missing(jobs@, meta.dependencies@) && names_distinct(jobs@) && r is Err ==> exists|c: Seq<int>|
            dependency_cycle(jobs@, meta.dependencies@, c),
{
    match order_jobs(jobs, meta) {
        Ok(order) => Ok(order),
        Err(OrderError::MissingDependency { job, dep }) => {
            let d = dependency_name(jobs, meta, job, dep);
            let mut m = String::from_str("Job '");
            m.append(jobs[job].name.as_str());
            m.append("' depends on '");
            m.append(d.as_str());
            m.append("', but '");
            m.append(d.as_str());
            m.append("' does not exist");
            Err(m)
        },
        Err(OrderError::Blocked(list)) => {
            let mut m = String::from_str("Circular dependency detected: ");
            m.append(list.as_str());
            Err(m)
        },
    }
}

/// An order that leaves some job out is shorter than the job list.
proof fn lemma_short_order(
    jobs: Seq<JobFolder>,
    deps: Seq<(String, Vec<String>)>,
    processed: Seq<bool>,
    order: Seq<usize>,
    x: int,
)
    requires
        greedy_inv(jobs, deps, processed, order),
        0 <= x < jobs.len(),
        !appears(order, x),
    ensures
        order.len() < jobs.len(),
{
    let oi = order.map_values(|u: usize| u as int);
    let all = vstd::set_lib::set_int_range(0, jobs.len() as int);
    assert(oi.no_duplicates()) by {
        assert forall|p: int, q: int| 0 <= p < oi.len() && 0 <= q < oi.len() && p != q implies oi[p]
            != oi[q] by {
            assert(order[p] != order[q]);
        }
    }
    oi.unique_seq_to_set();
    let si = oi.to_set();
    assert forall|u: int| #[trigger] si.contains(u) implies all.remove(x).contains(u) by {
        let p = choose|p: int| 0 <= p < oi.len() && oi[p] == u;
        assert(order[p] as int == u);
        if u == x {
            assert(appears(order, x));
        }
    }
    vstd::set_lib::lemma_int_range(0, jobs.len() as int);
    vstd::set_lib::lemma_len_subset(si, all.remove(x));
}

/// Sorts the jobs so that each comes after the jobs it depends on, as named
/// by the workflow's dependencies (see `topological_order`).
pub fn topological_sort_jobs(jobs: &[JobFolder], workflow_metadata: &WorkflowMeta) -> (r: Result<
    Vec<JobFolder>,
    String,
>)
    ensures
        has_missing(jobs@, workflow_metadata.dependencies@) ==> exists|i: int, k: int|
            first_missing(jobs@, workflow_metadata.dependencies@, i, k) && (r matches Err(m) && m@
                == missing_message(
                jobs@[i].name@,
                job_deps(jobs@, workflow_metadata.dependencies@, i)[k]@,
            )),
        !has_missing(jobs@, workflow_metadata.dependencies@) ==> (r is Ok <==> names_distinct(jobs@)
            && orderable(jobs@, workflow_metadata.dependencies@)),
        !has_missing(jobs@, workflow_metadata.dependencies@) ==> (r matches Err(m) ==> m@
            == circular_message(jobs@, workflow_metadata.dependencies@)),
        r matches Ok(sorted) ==> exists|order: Seq<usize>|
            valid_order(jobs@, workflow_metadata.dependencies@, order) && sorted@.len() == order.len()
                && forall|p: int| 0 <= p < order.len() ==> #[trigger] sorted@[p] == jobs@[order[p] as int],
        !has_missing(jobs@, workflow_metadata.dependencies@) && names_distinct(jobs@) ==> (r is Err
            <==> exists|c: Seq<int>| dependency_cycle(jobs@, workflow_metadata.dependencies@, c)),
{
    proof {
        let deps = workflow_metadata.dependencies@;
        if names_distinct(jobs@) && exists|c: Seq<int>| dependency_cycle(jobs@, deps, c) {
            let c = choose|c: Seq<int>| dependency_cycle(jobs@, deps, c);
            law_cycle_not_orderable(jobs@, deps, c);
        }
    }
    match topological_order(jobs, workflow_metadata) {
        Ok(order) => {
            let mut sorted: Vec<JobFolder> = Vec::new();
            for p in 0..order.len()
                invariant
                    valid_order(jobs@, workflow_metadata.dependencies@, order@),
                    sorted@.len() == p,
                    forall|q: int| 0 <= q < p ==> #[trigger] sorted@[q] == jobs@[order@[q] as int],
            {
                sorted.push(jobs[order[p]].copy());
            }
            Ok(sorted)
        },
        Err(m) => Err(m),
    }
}

/// The error that ordering the jobs reports, if any: the first dependency that
/// names no job, or else the jobs that can never run.
pub open spec fn sort_error(jobs: Seq<JobFolder>, deps: Seq<(String, Vec<String>)>) -> Option<
    Seq<char>,
> {
    if has_missing(jobs, deps) {
        let (i, k) = choose|i: int, k: int| first_missing(jobs, deps, i, k);
        Some(missing_message(jobs[i].name@, job_deps(jobs, deps, i)[k]@))
    } else if names_distinct(jobs) && orderable(jobs, deps) {
        None
    } else {
        Some(circular_message(jobs, deps))
    }
}

/// `names` are the job names of an order that runs every job after the jobs
/// it depends on.
pub open spec fn is_execution_order(
    jobs: Seq<JobFolder>,
    deps: Seq<(String, Vec<String>)>,
    names: Seq<Seq<char>>,
) -> bool {
    exists|order: Seq<usize>|
        valid_order(jobs, deps, order) && names.len() == order.len() && forall|p: int|
            0 <= p < order.len() ==> #[trigger] names[p] == jobs[order[p] as int].name@
}

/// Job `b` is named among the dependencies of job `a`.
pub open spec fn depends_on(jobs: Seq<JobFolder>, deps: Seq<(String, Vec<String>)>, a: int, b: int) -> bool {
    &&& 0 <= a < jobs.len()
    &&& 0 <= b < jobs.len()
    &&& exists|k: int|
        0 <= k < job_deps(jobs, deps, a).len() && #[trigger] job_deps(jobs, deps, a)[k]@ == jobs[b].name@
}

/// `c` is a cycle of dependencies: it starts and ends at the same job, and
/// each job in it depends on the next.
pub open spec fn dependency_cycle(jobs: Seq<JobFolder>, deps: Seq<(String, Vec<String>)>, c: Seq<int>) -> bool {
    &&& c.len() >= 2
    &&& c[0] == c.last()
    &&& forall|t: int| 0 <= t < c.len() - 1 ==> #[trigger] depends_on(jobs, deps, c[t], c[t + 1])
}

/// The position of job `j` in `order`.
spec fn position(order: Seq<usize>, j: int) -> int {
    choose|p: int| 0 <= p < order.len() && order[p] == j
}

/// In a valid order, a job comes after every job it depends on.
proof fn lemma_dependency_earlier(
    jobs: Seq<JobFolder>,
    deps: Seq<(String, Vec<String>)>,
    order: Seq<usize>,
    a: int,
    b: int,
)
    requires
        names_distinct(jobs),
        valid_order(jobs, deps, order),
        depends_on(jobs, deps, a, b),
    ensures
        0 <= position(order, b) < position(order, a) < order.len(),
        order[position(order, a)] == a,
        order[position(order, b)] == b,
{
    assert(appears(order, a));
    assert(appears(order, b));
    let pa = position(order, a);
    let pb = position(order, b);
    let k = choose|k: int|
        0 <= k < job_deps(jobs, deps, a).len() && #[trigger] job_deps(jobs, deps, a)[k]@ == jobs[b].name@;
    assert(dep_precedes(jobs, deps, order, pa, k));
    let q = choose|q: int|
        0 <= q < pa && jobs[order[q] as int].name@ == job_deps(jobs, deps, order[pa] as int)[k]@;
    assert(order[q] < jobs.len());
    assert(order[q] == b);
    if pb != q {
        assert(order[pb] != order[q]);
    }
}

/// Along a cycle, positions in a valid order fall at every step.
proof fn lemma_cycle_positions_fall(
    jobs: Seq<JobFolder>,
    deps: Seq<(String, Vec<String>)>,
    order: Seq<usize>,
    c: Seq<int>,
    t: int,
)
    requires
        names_distinct(jobs),
        valid_order(jobs, deps, order),
        dependency_cycle(jobs, deps, c),
        1 <= t < c.len(),
    ensures
        position(order, c[t]) < position(order, c[0]),
    decreases t,
{
    let s = t - 1;
    assert(depends_on(jobs, deps, c[s], c[s + 1]));
    assert(s + 1 == t);
    lemma_dependency_earlier(jobs, deps, order, c[t - 1], c[t]);
    if t > 1 {
        lemma_cycle_positions_fall(jobs, deps, order, c, t - 1);
    }
}

/// Jobs whose dependencies form a cycle cannot be ordered, so the sort
/// refuses them.
pub proof fn law_cycle_not_orderable(jobs: Seq<JobFolder>, deps: Seq<(String, Vec<String>)>, c: Seq<int>)
    requires
        names_distinct(jobs),
        dependency_cycle(jobs, deps, c),
    ensures
        !orderable(jobs, deps),
{
    if orderable(jobs, deps) {
        let order = choose|order: Seq<usize>| valid_order(jobs, deps, order);
        lemma_cycle_positions_fall(jobs, deps, order, c, c.len() - 1);
    }
}

/// An unfinished job of a stuck pass depends on another unfinished job:
/// which one.
spec fn stuck_next(jobs: Seq<JobFolder>, deps: Seq<(String, Vec<String>)>, processed: Seq<bool>, j: int) -> int {
    choose|i: int| depends_on(jobs, deps, j, i) && !processed[i]
}

/// Following unfinished dependencies `m` times from `j0`.
spec fn stuck_walk(
    jobs: Seq<JobFolder>,
    deps: Seq<(String, Vec<String>)>,
    processed: Seq<bool>,
    j0: int,
    m: nat,
) -> int
    decreases m,
{
    if m == 0 {
        j0
    } else {
        stuck_next(jobs, deps, processed, stuck_walk(jobs, deps, processed, j0, (m - 1) as nat))
    }
}

/// The pass is stuck: no unfinished job has all its dependencies finished.
pub open spec fn stuck(jobs: Seq<JobFolder>, deps: Seq<(String, Vec<String>)>, processed: Seq<bool>) -> bool {
    &&& processed.len() == jobs.len()
    &&& forall|j: int|
        0 <= j < jobs.len() && !processed[j] ==> !#[trigger] deps_within(jobs, deps, j, marked(processed))
}

proof fn lemma_stuck_next(jobs: Seq<JobFolder>, deps: Seq<(String, Vec<String>)>, processed: Seq<bool>, j: int)
    requires
        stuck(jobs, deps, processed),
        !has_missing(jobs, deps),
        0 <= j < jobs.len(),
        !processed[j],
    ensures
        depends_on(jobs, deps, j, stuck_next(jobs, deps, processed, j)),
        !processed[stuck_next(jobs, deps, processed, j)],
{
    assert(!deps_within(jobs, deps, j, marked(processed)));
    let list = job_deps(jobs, deps, j);
    let k = choose|k: int| 0 <= k < list.len() && !#[trigger] has_name_in(jobs, list[k]@, marked(processed));
    assert(!missing_at(jobs, deps, j, k));
    assert(names_job(jobs, list[k]@));
    let i = choose|i: int| 0 <= i < jobs.len() && (#[trigger] jobs[i]).name@ == list[k]@;
    if processed[i] {
        assert(marked(processed).contains(i));
        assert(has_name_in(jobs, list[k]@, marked(processed)));
    }
    assert(depends_on(jobs, deps, j, i));
}

proof fn lemma_stuck_walk(
    jobs: Seq<JobFolder>,
    deps: Seq<(String, Vec<String>)>,
    processed: Seq<bool>,
    j0: int,
    m: nat,
)
    requires
        stuck(jobs, deps, processed),
        !has_missing(jobs, deps),
        0 <= j0 < jobs.len(),
        !processed[j0],
    ensures
        0 <= stuck_walk(jobs, deps, processed, j0, m) < jobs.len(),
        !processed[stuck_walk(jobs, deps, processed, j0, m)],
        m > 0 ==> depends_on(
            jobs,
            deps,
            stuck_walk(jobs, deps, processed, j0, (m - 1) as nat),
            stuck_walk(jobs, deps, processed, j0, m),
        ),
    decreases m,
{
    if m > 0 {
        lemma_stuck_walk(jobs, deps, processed, j0, (m - 1) as nat);
        lemma_stuck_next(jobs, deps, processed, stuck_walk(jobs, deps, processed, j0, (m - 1) as nat));
    }
}

/// A stuck pass with an unfinished job, when every dependency names a job,
/// shows a cycle of dependencies.
proof fn lemma_stuck_has_cycle(jobs: Seq<JobFolder>, deps: Seq<(String, Vec<String>)>, processed: Seq<bool>, j0: int)
    requires
        stuck(jobs, deps, processed),
        !has_missing(jobs, deps),
        0 <= j0 < jobs.len(),
        !processed[j0],
    ensures
        exists|c: Seq<int>| dependency_cycle(jobs, deps, c),
{
    let n = jobs.len();
    let w = Seq::new((n + 1) as nat, |m: int| stuck_walk(jobs, deps, processed, j0, m as nat));
    assert forall|m: int| 0 <= m < w.len() implies 0 <= #[trigger] w[m] < n by {
        lemma_stuck_walk(jobs, deps, processed, j0, m as nat);
    }
    if w.no_duplicates() {
        w.unique_seq_to_set();
        let all = vstd::set_lib::set_int_range(0, n as int);
        assert forall|u: int| #[trigger] w.to_set().contains(u) implies all.contains(u) by {
            let m = choose|m: int| 0 <= m < w.len() && w[m] == u;
        }
        vstd::set_lib::lemma_int_range(0, n as int);
        vstd::set_lib::lemma_len_subset(w.to_set(), all);
        assert(false);
    }
    let (a, b) = choose|a: int, b: int| 0 <= a < w.len() && 0 <= b < w.len() && a != b && w[a] == w[b];
    let p = if a < b { a } else { b };
    let q = if a < b { b } else { a };
    let c = w.subrange(p, q + 1);
    assert forall|t: int| 0 <= t < c.len() - 1 implies #[trigger] depends_on(jobs, deps, c[t], c[t + 1]) by {
        lemma_stuck_walk(jobs, deps, processed, j0, (p + t + 1) as nat);
        assert(c[t] == w[p + t]);
        assert(c[t + 1] == w[p + t + 1]);
    }
    assert(dependency_cycle(jobs, deps, c));
}

/// There is one first missing dependency.
pub proof fn lemma_first_missing_unique(
    jobs: Seq<JobFolder>,
    deps: Seq<(String, Vec<String>)>,
    i: int,
    k: int,
    i2: int,
    k2: int,
)
    requires
        first_missing(jobs, deps, i, k),
        first_missing(jobs, deps, i2, k2),
    ensures
        i == i2 && k == k2,
{
    if i < i2 || (i == i2 && k < k2) {
        assert(!missing_at(jobs, deps, i, k));
    }
    if i2 < i || (i2 == i && k2 < k) {
        assert(!missing_at(jobs, deps, i2, k2));
    }
}

/// The sorted jobs, with the error of `sort_error` when there is one.
pub(crate) fn sort_jobs_checked(jobs: &[JobFolder], workflow_metadata: &WorkflowMeta) -> (r: Result<
    Vec<JobFolder>,
    String,
>)
    ensures
        r matches Err(m) ==> sort_error(jobs@, workflow_metadata.dependencies@) == Some(m@),
        r is Ok ==> sort_error(jobs@, workflow_metadata.dependencies@) is None,
        r matches Ok(sorted) ==> is_execution_order(
            jobs@,
            workflow_metadata.dependencies@,
            sorted@.map_values(|j: JobFolder| j.name@),
        ),
{
    let r = topological_sort_jobs(jobs, workflow_metadata);
    proof {
        let deps = workflow_metadata.dependencies@;
        if has_missing(jobs@, deps) {
            let (i, k) = choose|i: int, k: int|
                first_missing(jobs@, deps, i, k) && (r matches Err(m) && m@ == missing_message(
                    jobs@[i].name@,
                    job_deps(jobs@, deps, i)[k]@,
                ));
            let (i2, k2) = choose|i: int, k: int| first_missing(jobs@, deps, i, k);
            lemma_first_missing_unique(jobs@, deps, i, k, i2, k2);
        }
        match &r {
            Ok(sorted) => {
                let order = choose|order: Seq<usize>|
                    valid_order(jobs@, deps, order) && sorted@.len() == order.len() && forall|p: int|
                        0 <= p < order.len() ==> #[trigger] sorted@[p] == jobs@[order[p] as int];
                let names = sorted@.map_values(|j: JobFolder| j.name@);
                assert forall|p: int| 0 <= p < order.len() implies #[trigger] names[p]
                    == jobs@[order[p] as int].name@ by {
                    assert(sorted@[p] == jobs@[order[p] as int]);
                }
            },
            Err(_) => {},
        }
    }
    r
}

/// What the checks before a run make of the workflow path: the path as
/// resolved and the name the workflow is known by (its last component, or
/// `workflow` when it has none); or why the run cannot start. `resolved` is
/// the canonical path or why it could not be resolved, `is_dir` whether it
/// is a directory.
pub fn check_run_path(resolved: Result<String, String>, is_dir: bool) -> (r: Result<(String, String), String>)
    ensures
        match resolved {
            Err(e) => r matches Err(m) && m@ == "Invalid workflow path: "@ + e@,
            Ok(p) => if !is_dir {
                r matches Err(m) && m@ == "Workflow path is not a directory: "@ + p@
            } else {
                r matches Ok((path, name)) && path@ == p@ && name@ == match path_file_name_text(p@) {
                    Some(n) => n,
                    None => "workflow"@,
                }
            },
        },
{
    match resolved {
        Err(e) => Err(concat2("Invalid workflow path: ", e.as_str())),
        Ok(p) => {
            if !is_dir {
                return Err(concat2("Workflow path is not a directory: ", p.as_str()));
            }
            let name = match path_file_name(p.as_str()) {
                Some(n) => n,
                None => String::from_str("workflow"),
            };
            Ok((p, name))
        },
    }
}

/// The error when the run's temporary copy of the workflow could not be made.
pub fn temp_copy_failure(error: &str) -> (r: String)
    ensures
        r@ == "Failed to create temp workflow: "@ + error@,
{
    concat2("Failed to create temp workflow: ", error)
}

/// The jobs a run goes on with: those the scan of the temporary copy found,
/// or why the run stops (the scan failed, or found no job).
pub fn found_jobs(scan: Result<Vec<JobFolder>, String>) -> (r: Result<Vec<JobFolder>, String>)
    ensures
        match scan {
            Err(e) => r matches Err(m) && m@ == "Failed to scan jobs: "@ + e@,
            Ok(jobs) => if jobs@.len() == 0 {
                r matches Err(m) && m@ == "No jobs found in workflow"@
            } else {
                r == Ok::<Vec<JobFolder>, String>(jobs)
            },
        },
{
    match scan {
        Err(e) => Err(concat2("Failed to scan jobs: ", e.as_str())),
        Ok(jobs) => {
            if jobs.len() == 0 {
                Err(String::from_str("No jobs found in workflow"))
            } else {
                Ok(jobs)
            }
        },
    }
}

/// The workflow metadata a run uses: what `workflow.toml` held, or, when it
/// could not be loaded or there is none, metadata named after the workflow
/// with no description and no dependencies.
pub fn metadata_or_default(loaded: Option<WorkflowMeta>, name: &str) -> (r: WorkflowMeta)
    ensures
        match loaded {
            Some(m) => r == m,
            None => r.name@ == name@ && r.description@ == Seq::<char>::empty() && r.dependencies@.len() == 0
                && r.params@.len() == 0,
        },
{
    match loaded {
        Some(m) => m,
        None => WorkflowMeta::new(name.to_string(), String::new()),
    }
}

/// Where the preparation of a headless run stands: every check comes before
/// the first container.
#[derive(Debug, Clone, Copy, PartialEq, Eq, Structural)]
pub enum PreparePhase {
    /// The workflow path is being resolved.
    Resolving,
    /// The workflow folder is being copied to a temporary folder.
    Copying,
    /// The temporary copy is being scanned for jobs.
    Scanning,
    /// The workflow's metadata is being loaded.
    Loading,
    /// The jobs can run.
    Ready,
    /// The run stops before any container.
    Failed,
}

/// What to do next to prepare a headless run.
pub enum PrepareAction {
    /// Resolve the workflow path and find out whether it is a directory.
    ResolvePath,
    /// Copy the workflow folder at `path` to a fresh temporary folder.
    CopyToTemp { path: String },
    /// Scan the temporary copy at `temp` for jobs.
    ScanJobs { temp: String },
    /// Load the metadata of the workflow folder at `path`.
    LoadMetadata { path: String },
    /// Run the jobs, in this order, in the temporary copy.
    Run { name: String, temp: String, order: Vec<JobFolder>, meta: WorkflowMeta },
    /// Stop, before any container, with this message.
    Fail { message: String },
}

/// What the last action came to.
pub enum PrepareEvent {
    /// The canonical path or why it could not be resolved, and whether it is
    /// a directory.
    Resolved { resolved: Result<String, String>, is_dir: bool },
    /// The temporary copy's path, or why it could not be made.
    TempCopied(Result<String, String>),
    /// The jobs the scan found, or why it failed.
    Scanned(Result<Vec<JobFolder>, String>),
    /// The metadata read, or `None` when there is none or it could not be
    /// read.
    MetadataLoaded(Option<WorkflowMeta>),
}

/// The preparation of a headless run.
pub struct HeadlessPrep {
    pub phase: PreparePhase,
    pub path: String,
    pub name: String,
    pub temp: String,
    pub jobs: Vec<JobFolder>,
}

/// Whether `e` answers what `phase` waits for.
pub open spec fn prepare_accepts(phase: PreparePhase, e: PrepareEvent) -> bool {
    match e {
        PrepareEvent::Resolved { .. } => phase == PreparePhase::Resolving,
        PrepareEvent::TempCopied(_) => phase == PreparePhase::Copying,
        PrepareEvent::Scanned(_) => phase == PreparePhase::Scanning,
        PrepareEvent::MetadataLoaded(_) => phase == PreparePhase::Loading,
    }
}

/// The dependencies the run orders its jobs by: those of the metadata read,
/// or none.
pub open spec fn loaded_deps(m: Option<WorkflowMeta>) -> Seq<(String, Vec<String>)> {
    match m {
        Some(meta) => meta.dependencies@,
        None => Seq::empty(),
    }
}

/// `a` stops the run with `m`, leaving the preparation failed.
pub open spec fn prepare_fail(next: HeadlessPrep, a: PrepareAction, m: Seq<char>) -> bool {
    &&& next.phase == PreparePhase::Failed
    &&& a matches PrepareAction::Fail { message } && message@ == m
}

/// The step from `p` on `e` to `next` with action `a`: a path that does not
/// resolve or is no directory, a failed copy, a failed scan or one that finds
/// no job, and jobs that cannot be ordered each stop the run with their
/// message; otherwise the preparation goes on to the next check, and after
/// the metadata the jobs run in an order that runs each after the jobs it
/// depends on.
pub open spec fn prepare_step(p: HeadlessPrep, e: PrepareEvent, next: HeadlessPrep, a: PrepareAction) -> bool {
    match e {
        PrepareEvent::Resolved { resolved, is_dir } => match resolved {
            Err(x) => prepare_fail(next, a, "Invalid workflow path: "@ + x@),
            Ok(path) => if !is_dir {
                prepare_fail(next, a, "Workflow path is not a directory: "@ + path@)
            } else {
                &&& next.phase == PreparePhase::Copying
                &&& next.path@ == path@
                &&& next.name@ == match path_file_name_text(path@) {
                    Some(n) => n,
                    None => "workflow"@,
                }
                &&& a matches PrepareAction::CopyToTemp { path: q } && q@ == path@
            },
        },
        PrepareEvent::TempCopied(r) => match r {
            Err(x) => prepare_fail(next, a, "Failed to create temp workflow: "@ + x@),
            Ok(t) => {
                &&& next.phase == PreparePhase::Scanning
                &&& next.path == p.path
                &&& next.name == p.name
                &&& next.temp@ == t@
                &&& a matches PrepareAction::ScanJobs { temp } && temp@ == t@
            },
        },
        PrepareEvent::Scanned(r) => match r {
            Err(x) => prepare_fail(next, a, "Failed to scan jobs: "@ + x@),
            Ok(jobs) => if jobs@.len() == 0 {
                prepare_fail(next, a, "No jobs found in workflow"@)
            } else {
                &&& next.phase == PreparePhase::Loading
                &&& next.path == p.path
                &&& next.name == p.name
                &&& next.temp == p.temp
                &&& next.jobs == jobs
                &&& a matches PrepareAction::LoadMetadata { path } && path@ == p.path@
            },
        },
        PrepareEvent::MetadataLoaded(m) => match sort_error(p.jobs@, loaded_deps(m)) {
            Some(msg) => prepare_fail(next, a, msg),
            None => {
                &&& next.phase == PreparePhase::Ready
                &&& a matches PrepareAction::Run { name, temp, order, meta } && {
                    &&& name@ == p.name@
                    &&& temp@ == p.temp@
                    &&& meta.dependencies@ == loaded_deps(m)
                    &&& (m matches Some(x) ==> meta == x)
                    &&& (m is None ==> meta.name@ == p.name@ && meta.description@ == Seq::<char>::empty()
                        && meta.params@.len() == 0)
                    &&& is_execution_order(p.jobs@, loaded_deps(m), order@.map_values(|j: JobFolder| j.name@))
                }
            },
        },
    }
}

impl HeadlessPrep {
    /// Starts preparing a run: resolve the workflow path first.
    pub fn start() -> (r: (Self, PrepareAction))
        ensures
            r.0.phase == PreparePhase::Resolving,
            r.1 is ResolvePath,
    {
        (
            HeadlessPrep {
                phase: PreparePhase::Resolving,
                path: String::new(),
                name: String::new(),
                temp: String::new(),
                jobs: Vec::new(),
            },
            PrepareAction::ResolvePath,
        )
    }

    /// Takes what the last action came to and gives the next one.
    pub fn advance(&mut self, e: PrepareEvent) -> (r: PrepareAction)
        requires
            prepare_accepts(old(self).phase, e),
        ensures
            prepare_step(*old(self), e, *final(self), r),
    {
        match e {
            PrepareEvent::Resolved { resolved, is_dir } => match check_run_path(resolved, is_dir) {
                Err(m) => {
                    self.phase = PreparePhase::Failed;
                    PrepareAction::Fail { message: m }
                },
                Ok((path, name)) => {
                    let again = path.clone();
                    self.phase = PreparePhase::Copying;
                    self.path = path;
                    self.name = name;
                    PrepareAction::CopyToTemp { path: again }
                },
            },
            PrepareEvent::TempCopied(r) => match r {
                Err(x) => {
                    self.phase = PreparePhase::Failed;
                    PrepareAction::Fail { message: temp_copy_failure(x.as_str()) }
                },
                Ok(t) => {
                    let again = t.clone();
                    self.phase = PreparePhase::Scanning;
                    self.temp = t;
                    PrepareAction::ScanJobs { temp: again }
                },
            },
            PrepareEvent::Scanned(r) => match found_jobs(r) {
                Err(m) => {
                    self.phase = PreparePhase::Failed;
                    PrepareAction::Fail { message: m }
                },
                Ok(jobs) => {
                    self.phase = PreparePhase::Loading;
                    self.jobs = jobs;
                    PrepareAction::LoadMetadata { path: self.path.clone() }
                },
            },
            PrepareEvent::MetadataLoaded(m) => {
                let ghost loaded = m;
                let meta = metadata_or_default(m, self.name.as_str());
                proof {
                    if loaded is None {
                        assert(meta.dependencies@ =~= loaded_deps(loaded));
                    }
                }
                match sort_jobs_checked(self.jobs.as_slice(), &meta) {
                    Err(msg) => {
                        self.phase = PreparePhase::Failed;
                        PrepareAction::Fail { message: msg }
                    },
                    Ok(order) => {
                        self.phase = PreparePhase::Ready;
                        PrepareAction::Run { name: self.name.clone(), temp: self.temp.clone(), order, meta }
                    },
                }
            },
        }
    }
}

/// How far a preparation is.
pub open spec fn prepare_rank(p: PreparePhase) -> int {
    match p {
        PreparePhase::Resolving => 0,
        PreparePhase::Copying => 1,
        PreparePhase::Scanning => 2,
        PreparePhase::Loading => 3,
        PreparePhase::Ready => 4,
        PreparePhase::Failed => 4,
    }
}

/// Every step of the preparation moves it forward, and the jobs run only
/// from the last check: the path resolved to a directory, the copy was made
/// and its scan found jobs before the metadata is read, and the jobs then run
/// only when they can be ordered. A failed check ends the preparation.
pub proof fn law_checks_come_before_the_run(p: HeadlessPrep, e: PrepareEvent, next: HeadlessPrep, a: PrepareAction)
    requires
        prepare_accepts(p.phase, e),
        prepare_step(p, e, next, a),
    ensures
        prepare_rank(next.phase) > prepare_rank(p.phase),
        a is Run ==> p.phase == PreparePhase::Loading && next.phase == PreparePhase::Ready,
        a is Fail <==> next.phase == PreparePhase::Failed,
{
}

} // verus!
