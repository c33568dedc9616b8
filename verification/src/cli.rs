//! Checking what the command line gives before anything runs.

use vstd::prelude::*;
use vstd::string::*;

use crate::dok::eq_pos;
use crate::text::to_chars;

verus! {

/// An `-e/--env` value is well formed: it has a `=`, with a key before it.
pub open spec fn env_entry_ok(e: Seq<char>) -> bool {
    eq_pos(e) < e.len() && eq_pos(e) > 0
}

/// The first entry that is not well formed, if any.
pub open spec fn first_bad_entry(entries: Seq<Seq<char>>, i: int) -> bool {
    0 <= i < entries.len() && !env_entry_ok(entries[i]) && forall|j: int|
        0 <= j < i ==> env_entry_ok(#[trigger] entries[j])
}

/// Whether `entry` is well formed.
fn entry_ok(entry: &str) -> (r: bool)
    ensures
        r == env_entry_ok(entry@),
{
    let cs = to_chars(entry);
    let mut k: usize = 0;
    assert(entry@.skip(0) =~= entry@);
    while k < cs.len() && cs[k] != '='
        invariant
            k <= cs.len(),
            cs@ == entry@,
            eq_pos(entry@) == k + eq_pos(entry@.skip(k as int)),
        decreases cs.len() - k,
    {
        assert(entry@.skip(k as int).drop_first() =~= entry@.skip(k + 1));
        k = k + 1;
    }
    k < cs.len() && k > 0
}

/// Validates `-e/--env` entries and returns them unchanged as `KEY=VALUE`
/// strings. Rejects the first entry missing a `=` or with an empty key, so
/// malformed flags fail before any container runs.
pub fn parse_cli_env_vars(entries: &[String]) -> (r: Result<Vec<String>, String>)
    ensures
        r matches Ok(v) ==> v@.map_values(|s: String| s@) == entries@.map_values(|s: String| s@) && forall|i: int|
            0 <= i < entries@.len() ==> env_entry_ok(#[trigger] entries@[i]@),
        r matches Err(m) ==> exists|i: int|
            first_bad_entry(entries@.map_values(|s: String| s@), i) && m@
                == "Invalid -e/--env value '"@ + entries@[i]@ + "': expected KEY=VALUE"@,
        r is Ok <==> forall|i: int| 0 <= i < entries@.len() ==> env_entry_ok(#[trigger] entries@[i]@),
{
    let ghost views = entries@.map_values(|s: String| s@);
    let mut i: usize = 0;
    while i < entries.len()
        invariant
            i <= entries@.len(),
            views == entries@.map_values(|s: String| s@),
            forall|j: int| 0 <= j < i ==> env_entry_ok(#[trigger] entries@[j]@),
        decreases entries@.len() - i,
    {
        if !entry_ok(entries[i].as_str()) {
            let mut m = String::from_str("Invalid -e/--env value '");
            m.append(entries[i].as_str());
            m.append("': expected KEY=VALUE");
            proof {
                assert forall|j: int| 0 <= j < i implies env_entry_ok(#[trigger] views[j]) by {
                    assert(views[j] == entries@[j]@);
                }
                assert(first_bad_entry(views, i as int));
            }
            return Err(m);
        }
        i = i + 1;
    }
    let mut out: Vec<String> = Vec::new();
    for k in 0..entries.len()
        invariant
            out@.len() == k,
            forall|j: int| 0 <= j < k ==> #[trigger] out@[j]@ == entries@[j]@,
    {
        out.push(entries[k].clone());
    }
    assert(out@.map_values(|s: String| s@) =~= entries@.map_values(|s: String| s@));
    Ok(out)
}

} // verus!
