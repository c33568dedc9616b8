//! File-system paths, held as text with `/` as the separator.

use vstd::prelude::*;
use vstd::string::*;

use crate::text::push_char;

verus! {

/// `seg` appended to `base` as a path component: an absolute `seg` replaces
/// `base`, and otherwise a `/` separates the two unless `base` is empty or
/// already ends with one.
pub open spec fn spec_path_join(base: Seq<char>, seg: Seq<char>) -> Seq<char> {
    if seg.len() > 0 && seg[0] == '/' {
        seg
    } else if base.len() == 0 || base.last() == '/' {
        base + seg
    } else {
        base.push('/') + seg
    }
}

/// Appends `seg` to `base` as a path component.
pub fn path_join(base: &str, seg: &str) -> (r: String)
    ensures
        r@ == spec_path_join(base@, seg@),
{
    let seg_len = seg.unicode_len();
    if seg_len > 0 && seg.get_char(0) == '/' {
        return String::from_str(seg);
    }
    let base_len = base.unicode_len();
    let mut out = String::from_str(base);
    if base_len > 0 && base.get_char(base_len - 1) != '/' {
        push_char(&mut out, '/');
    }
    out.append(seg);
    out
}

} // verus!
