//! The parameter editor: the parameters of a job, or the global parameters
//! of a workflow, listed by name and edited one at a time as text.
//!
//! A value is edited as text and checked against its definition when the
//! edit is saved; saving the whole list turns every text back into a value.
//! Reading a floating-point number is not done here: where a parameter is a
//! float, the caller hands over the bit pattern of the double that Rust's
//! `str::parse::<f64>` reads from the trimmed text, or `None` when it reads
//! none.

use vstd::prelude::*;
use vstd::string::*;

use crate::assoc::{find_key, first_key_index, lemma_first_key_index, lookup};
use crate::job_config::job::{param_type_name, validation_error, ParamDefinition, ParamType};
use crate::job_config::params::{json_to_toml, spec_double_bits_finite, toml_to_json, toml_to_json_rel, JobParams};
use crate::keys::Key;
use crate::script::{trim, trim_range};
use crate::sorting::{insert_sorted, sorted_by_name, Named};
use crate::text::{comma_ranges, concat2, concat3, parse_i64, parsed_i64, split_commas, string_of_range, to_chars};
use crate::update::{ascii_lower, eq_ignore_ascii_case, range_eq_ignore_ascii_case};
use crate::values::{JsonNumber, JsonValue};

verus! {

/// Text that reads as `true`: `true`, `yes` or `1`, in any case.
pub open spec fn true_word(t: Seq<char>) -> bool {
    eq_ignore_ascii_case(t, "true"@) || eq_ignore_ascii_case(t, "yes"@) || eq_ignore_ascii_case(
        t,
        "1"@,
    )
}

/// Text that reads as `false`: `false`, `no` or `0`, in any case.
pub open spec fn false_word(t: Seq<char>) -> bool {
    eq_ignore_ascii_case(t, "false"@) || eq_ignore_ascii_case(t, "no"@) || eq_ignore_ascii_case(
        t,
        "0"@,
    )
}

/// The items of an array written as text: the text between `[` and `]`
/// when it is bracketed, and otherwise the whole text, split at commas.
pub open spec fn array_pieces(t: Seq<char>) -> Seq<Seq<char>> {
    let inner = if t.len() >= 2 && t[0] == '[' && t.last() == ']' {
        t.subrange(1, t.len() - 1)
    } else {
        t
    };
    split_commas(inner)
}

/// `r` is the value `text` stands for as a parameter of type `t`, the text
/// trimmed first: a string, file, directory or enum value is the text
/// itself; an integer is read as an `i64`; a float is the double `float`
/// (`null` when it is not finite); a boolean is `true`, `yes` or `1`, or
/// `false`, `no` or `0`, in any case (for these words Unicode and ASCII
/// lower-casing agree); an array is a list of the trimmed items.
pub open spec fn candidate_rel(
    text: Seq<char>,
    t: ParamType,
    float: Option<u64>,
    r: Result<JsonValue, String>,
) -> bool {
    let tt = trim(text);
    match t {
        ParamType::Integer => match parsed_i64(tt) {
            Some(n) => r == Ok::<JsonValue, String>(
                JsonValue::Number(
                    if n < 0 {
                        JsonNumber::NegInt(n as i64)
                    } else {
                        JsonNumber::PosInt(n as u64)
                    },
                ),
            ),
            None => r matches Err(m) && m@ == "Invalid integer: "@ + tt,
        },
        ParamType::Float => match float {
            Some(b) => r == Ok::<JsonValue, String>(
                if spec_double_bits_finite(b) {
                    JsonValue::Number(JsonNumber::Float(b))
                } else {
                    JsonValue::Null
                },
            ),
            None => r matches Err(m) && m@ == "Invalid float: "@ + tt,
        },
        ParamType::Boolean => if true_word(tt) {
            r == Ok::<JsonValue, String>(JsonValue::Bool(true))
        } else if false_word(tt) {
            r == Ok::<JsonValue, String>(JsonValue::Bool(false))
        } else {
            r matches Err(m) && m@ == "Invalid boolean: "@ + tt + " (use true/false)"@
        },
        ParamType::Array => r matches Ok(JsonValue::Array(items)) && items@.len() == array_pieces(
            tt,
        ).len() && forall|k: int|
            0 <= k < items@.len() ==> (#[trigger] items@[k] matches JsonValue::String(s) && s@
                == trim(array_pieces(tt)[k])),
        _ => r matches Ok(JsonValue::String(s)) && s@ == tt,
    }
}

/// The value `text` stands for as a parameter of type `param_type` (see
/// `candidate_rel`); `float` is what `str::parse::<f64>` reads from the
/// trimmed text.
pub fn string_to_param_value(text: &str, param_type: &ParamType, float: Option<u64>) -> (r: Result<
    JsonValue,
    String,
>)
    ensures
        candidate_rel(text@, *param_type, float, r),
{
    let cs = to_chars(text);
    let (a, b) = trim_range(&cs, 0, cs.len());
    proof {
        assert(cs@.subrange(0, cs@.len() as int) =~= text@);
    }
    let trimmed = string_of_range(&cs, a, b);
    match param_type {
        ParamType::Integer => match parse_i64(trimmed.as_str()) {
            Some(n) => {
                if n < 0 {
                    Ok(JsonValue::Number(JsonNumber::NegInt(n)))
                } else {
                    Ok(JsonValue::Number(JsonNumber::PosInt(n as u64)))
                }
            },
            None => Err(concat2("Invalid integer: ", trimmed.as_str())),
        },
        ParamType::Float => match float {
            Some(bits) => {
                if (bits >> 52u64) & 0x7ffu64 != 0x7ffu64 {
                    Ok(JsonValue::Number(JsonNumber::Float(bits)))
                } else {
                    Ok(JsonValue::Null)
                }
            },
            None => Err(concat2("Invalid float: ", trimmed.as_str())),
        },
        ParamType::Boolean => {
            if range_eq_ignore_ascii_case(&cs, a, b, "true") || range_eq_ignore_ascii_case(
                &cs,
                a,
                b,
                "yes",
            ) || range_eq_ignore_ascii_case(&cs, a, b, "1") {
                Ok(JsonValue::Bool(true))
            } else if range_eq_ignore_ascii_case(&cs, a, b, "false") || range_eq_ignore_ascii_case(
                &cs,
                a,
                b,
                "no",
            ) || range_eq_ignore_ascii_case(&cs, a, b, "0") {
                Ok(JsonValue::Bool(false))
            } else {
                Err(concat3("Invalid boolean: ", trimmed.as_str(), " (use true/false)"))
            }
        },
        ParamType::Array => {
            let ghost tt = cs@.subrange(a as int, b as int);
            let bracketed = b - a >= 2 && cs[a] == '[' && cs[b - 1] == ']';
            let (lo, hi) = if bracketed { (a + 1, b - 1) } else { (a, b) };
            proof {
                if bracketed {
                    assert(tt.subrange(1, tt.len() - 1) =~= cs@.subrange(lo as int, hi as int));
                } else {
                    assert(tt =~= cs@.subrange(lo as int, hi as int));
                }
            }
            let ranges = comma_ranges(&cs, lo, hi);
            let mut items: Vec<JsonValue> = Vec::new();
            let mut k: usize = 0;
            while k < ranges.len()
                invariant
                    k <= ranges@.len(),
                    ranges@.len() == array_pieces(tt).len(),
                    lo <= hi <= cs@.len(),
                    forall|j: int|
                        0 <= j < ranges@.len() ==> lo <= (#[trigger] ranges@[j]).0 <= ranges@[j].1 <= hi
                            && cs@.subrange(ranges@[j].0 as int, ranges@[j].1 as int) == array_pieces(
                            tt,
                        )[j],
                    items@.len() == k,
                    forall|j: int|
                        0 <= j < k ==> (#[trigger] items@[j] matches JsonValue::String(s) && s@
                            == trim(array_pieces(tt)[j])),
                decreases ranges@.len() - k,
            {
                let (p, q) = ranges[k];
                let (x, y) = trim_range(&cs, p, q);
                items.push(JsonValue::String(string_of_range(&cs, x, y)));
                k = k + 1;
            }
            Ok(JsonValue::Array(items))
        },
        _ => Ok(JsonValue::String(trimmed)),
    }
}

/// A boolean parameter reads its trimmed text without regard to ASCII case:
/// `true`, `yes` and `1` are the boolean true, `false`, `no` and `0` the
/// boolean false, and any other text is refused.
pub proof fn law_boolean_words(text: Seq<char>, float: Option<u64>, r: Result<JsonValue, String>)
    requires
        candidate_rel(text, ParamType::Boolean, float, r),
    ensures
        eq_ignore_ascii_case(trim(text), "true"@) ==> r == Ok::<JsonValue, String>(JsonValue::Bool(true)),
        eq_ignore_ascii_case(trim(text), "yes"@) ==> r == Ok::<JsonValue, String>(JsonValue::Bool(true)),
        eq_ignore_ascii_case(trim(text), "1"@) ==> r == Ok::<JsonValue, String>(JsonValue::Bool(true)),
        eq_ignore_ascii_case(trim(text), "false"@) ==> r == Ok::<JsonValue, String>(JsonValue::Bool(false)),
        eq_ignore_ascii_case(trim(text), "no"@) ==> r == Ok::<JsonValue, String>(JsonValue::Bool(false)),
        eq_ignore_ascii_case(trim(text), "0"@) ==> r == Ok::<JsonValue, String>(JsonValue::Bool(false)),
        !(eq_ignore_ascii_case(trim(text), "true"@) || eq_ignore_ascii_case(trim(text), "yes"@)
            || eq_ignore_ascii_case(trim(text), "1"@) || eq_ignore_ascii_case(trim(text), "false"@)
            || eq_ignore_ascii_case(trim(text), "no"@) || eq_ignore_ascii_case(trim(text), "0"@))
            ==> r is Err,
{
    reveal_strlit("true");
    reveal_strlit("yes");
    reveal_strlit("1");
    reveal_strlit("false");
    reveal_strlit("no");
    reveal_strlit("0");
    let tt = trim(text);
    if eq_ignore_ascii_case(tt, "0"@) && eq_ignore_ascii_case(tt, "1"@) {
        assert(ascii_lower(tt[0]) == ascii_lower("0"@[0]));
        assert(ascii_lower(tt[0]) == ascii_lower("1"@[0]));
    }
}

/// The values shown for the parameters `definitions`: the current value of
/// each, or, when it has none, its default.
pub open spec fn editor_values_rel(
    definitions: Seq<(String, ParamDefinition)>,
    current: Seq<(String, JsonValue)>,
    r: Seq<(String, JsonValue)>,
) -> bool {
    &&& r.len() == definitions.len()
    &&& forall|i: int|
        0 <= i < r.len() ==> (#[trigger] r[i]).0@ == definitions[i].0@ && match lookup(
            current,
            definitions[i].0@,
        ) {
            Some(v) => r[i].1 == v,
            None => toml_to_json_rel(definitions[i].1.default, r[i].1),
        }
}

/// No two definitions share a name.
pub open spec fn names_distinct(definitions: Seq<(String, ParamDefinition)>) -> bool {
    forall|i: int, j: int|
        0 <= i < j < definitions.len() ==> (#[trigger] definitions[i]).0@ != (#[trigger] definitions[j]).0@
}

/// The value of each parameter to show in the editor: the current value
/// (from the saved parameters, `None` when there are none yet), or else the
/// default of its definition.
pub fn editor_values(definitions: &Vec<(String, ParamDefinition)>, current: Option<JobParams>) -> (r: Vec<
    (String, JsonValue),
>)
    requires
        names_distinct(definitions@),
    ensures
        editor_values_rel(
            definitions@,
            match current {
                Some(c) => c@,
                None => Seq::empty(),
            },
            r@,
        ),
{
    let mut cur: JobParams = match current {
        Some(c) => c,
        None => Vec::new(),
    };
    let ghost orig = cur@;
    let mut out: Vec<(String, JsonValue)> = Vec::new();
    let mut i: usize = 0;
    while i < definitions.len()
        invariant
            i <= definitions@.len(),
            names_distinct(definitions@),
            cur@.len() == orig.len(),
            forall|k: int| 0 <= k < orig.len() ==> (#[trigger] cur@[k]).0 == orig[k].0,
            forall|k: int|
                0 <= k < orig.len() && (forall|j: int| 0 <= j < i ==> #[trigger] definitions@[j].0@ != orig[k].0@)
                    ==> #[trigger] cur@[k].1 == orig[k].1,
            out@.len() == i,
            forall|j: int|
                0 <= j < i ==> (#[trigger] out@[j]).0@ == definitions@[j].0@ && match lookup(
                    orig,
                    definitions@[j].0@,
                ) {
                    Some(v) => out@[j].1 == v,
                    None => toml_to_json_rel(definitions@[j].1.default, out@[j].1),
                },
        decreases definitions@.len() - i,
    {
        let name = definitions[i].0.as_str();
        proof {
            lemma_first_key_index(orig, definitions@[i as int].0@);
            lemma_first_key_index(cur@, definitions@[i as int].0@);
            assert forall|k: int| 0 <= k < orig.len() implies (#[trigger] cur@[k]).0@ == orig[k].0@ by {}
            assert(first_key_index(cur@, name@) == first_key_index(orig, name@)) by {
                lemma_same_keys_index(cur@, orig, name@);
            }
        }
        let value = match find_key(&cur, name) {
            Some(f) => {
                let mut taken = JsonValue::Null;
                let mut entry = cur.remove(f);
                std::mem::swap(&mut taken, &mut entry.1);
                cur.insert(f, entry);
                proof {
                    assert forall|j: int| 0 <= j < i implies #[trigger] definitions@[j].0@ != orig[f as int].0@ by {
                        assert(definitions@[j].0@ != definitions@[i as int].0@);
                    }
                }
                taken
            },
            None => toml_to_json(&definitions[i].1.default),
        };
        out.push((definitions[i].0.clone(), value));
        proof {
            assert forall|k: int|
                0 <= k < orig.len() && (forall|j: int| 0 <= j < i + 1 ==> #[trigger] definitions@[j].0@ != orig[k].0@)
                    implies #[trigger] cur@[k].1 == orig[k].1 by {
                assert(definitions@[i as int].0@ != orig[k].0@);
            }
        }
        i = i + 1;
    }
    out
}

/// Lists with the same names, entry by entry, find a name at the same place.
proof fn lemma_same_keys_index<V, W>(a: Seq<(String, V)>, b: Seq<(String, W)>, k: Seq<char>)
    requires
        a.len() == b.len(),
        forall|i: int| 0 <= i < a.len() ==> (#[trigger] a[i]).0@ == b[i].0@,
    ensures
        first_key_index(a, k) == first_key_index(b, k),
    decreases a.len(),
{
    if a.len() > 0 {
        lemma_same_keys_index(a.drop_last(), b.drop_last(), k);
        assert(a.last().0@ == b.last().0@);
    }
}

impl Named for (String, String) {
    open spec fn name_view(&self) -> Seq<char> {
        self.0@
    }

    fn name_str(&self) -> (r: &str) {
        self.0.as_str()
    }
}

/// What the editor asks of its owner after a key.
#[derive(Debug)]
pub enum EditorOutcome {
    /// Keep the editor open.
    Stay,
    /// Close the editor without saving.
    Close,
    /// Save these parameters, then close the editor.
    Save(JobParams),
}

/// The state of the parameter editor.
#[derive(Debug)]
pub struct ParamsEditorState {
    /// The name of the job or workflow whose parameters are edited.
    pub display_name: String,
    pub description: String,
    /// Whether these are a workflow's global parameters.
    pub is_global: bool,
    /// The parameter definitions, by name.
    pub definitions: Vec<(String, ParamDefinition)>,
    /// The parameters and their values as text, in name order.
    pub param_values: Vec<(String, String)>,
    pub selected_index: usize,
    /// Whether the selected parameter is being edited.
    pub editing: bool,
    /// The text being edited.
    pub input_buffer: String,
    pub error_message: Option<String>,
}

/// What saving one entry comes to: nothing for a parameter without a
/// definition, otherwise its value or why it is refused. The TOML text
/// quoted by a validation message is that of the only value that can fail
/// validation here, a float that is not finite, which becomes the string
/// `"null"`.
pub open spec fn entry_rel(
    definitions: Seq<(String, ParamDefinition)>,
    name: Seq<char>,
    text: Seq<char>,
    float: Option<u64>,
    o: Option<Result<JsonValue, String>>,
) -> bool {
    match lookup(definitions, name) {
        None => o is None,
        Some(def) => o matches Some(res) && exists|c: Result<JsonValue, String>|
            #![trigger candidate_rel(text, def.param_type, float, c)]
            candidate_rel(text, def.param_type, float, c) && match c {
                Err(e) => res matches Err(m) && m@ == "Invalid value for "@ + name + ": "@ + e@,
                Ok(j) => exists|t: crate::values::TomlValue|
                    #![trigger crate::job_config::params::json_to_toml_rel(j, t)]
                    crate::job_config::params::json_to_toml_rel(j, t) && match validation_error(
                        def.param_type,
                        def.enum_values,
                        t,
                        "\"null\""@,
                    ) {
                        Some(e) => res matches Err(m) && m@ == "Validation failed for "@ + name + ": "@
                            + e,
                        None => res == Ok::<JsonValue, String>(j),
                    },
            },
    }
}

/// The entries saved, in order: the value of each parameter whose text was
/// accepted.
pub open spec fn saved_entries(
    values: Seq<(String, String)>,
    os: Seq<Option<Result<JsonValue, String>>>,
) -> Seq<(Seq<char>, JsonValue)>
    decreases values.len(),
{
    if values.len() == 0 || os.len() != values.len() {
        Seq::empty()
    } else {
        let rest = saved_entries(values.drop_last(), os.drop_last());
        match os.last() {
            Some(Ok(j)) => rest.push((values.last().0@, j)),
            _ => rest,
        }
    }
}

/// The first refused entry before position `n`, if any.
pub open spec fn first_refusal(os: Seq<Option<Result<JsonValue, String>>>, n: int) -> Option<int>
    decreases n,
{
    if n <= 0 {
        None
    } else {
        match first_refusal(os, n - 1) {
            Some(i) => Some(i),
            None => if os[n - 1] matches Some(Err(_)) {
                Some(n - 1)
            } else {
                None
            },
        }
    }
}

/// The parameters as plain values.
pub open spec fn params_view(p: Seq<(String, JsonValue)>) -> Seq<(Seq<char>, JsonValue)> {
    p.map_values(|e: (String, JsonValue)| (e.0@, e.1))
}

impl ParamsEditorState {
    /// The editor for the parameters `definitions` of `display_name`, with
    /// the values `values` as text; the values are listed in name order.
    pub fn new(
        display_name: String,
        description: String,
        is_global: bool,
        definitions: Vec<(String, ParamDefinition)>,
        values: Vec<(String, String)>,
    ) -> (r: Self)
        ensures
            r.display_name == display_name,
            r.description == description,
            r.is_global == is_global,
            r.definitions == definitions,
            sorted_by_name(r.param_values@),
            r.param_values@.to_multiset() == values@.to_multiset(),
            r.selected_index == 0,
            !r.editing,
            r.input_buffer@ == Seq::<char>::empty(),
            r.error_message is None,
    {
        let mut sorted: Vec<(String, String)> = Vec::new();
        let mut rest = values;
        let ghost all = rest@;
        proof {
            assert(rest@.subrange(0, 0) =~= sorted@);
        }
        let n = rest.len();
        let mut i: usize = 0;
        while i < n
            invariant
                n == rest@.len(),
                rest@ == all,
                i <= n,
                sorted_by_name(sorted@),
                sorted@.to_multiset() == all.subrange(0, i as int).to_multiset(),
            decreases n - i,
        {
            let e = (rest[i].0.clone(), rest[i].1.clone());
            proof {
                assert(e == all[i as int]);
                assert(all.subrange(0, i + 1) =~= all.subrange(0, i as int).push(all[i as int]));
                vstd::seq_lib::to_multiset_build(all.subrange(0, i as int), all[i as int]);
            }
            insert_sorted(&mut sorted, e);
            i = i + 1;
        }
        proof {
            assert(all.subrange(0, n as int) =~= all);
        }
        ParamsEditorState {
            display_name,
            description,
            is_global,
            definitions,
            param_values: sorted,
            selected_index: 0,
            editing: false,
            input_buffer: String::new(),
            error_message: None,
        }
    }
}

/// What saving the edited text `text` of parameter `name` comes to: `None`
/// when the parameter has no definition, otherwise acceptance or the
/// message of the refusal (see `entry_rel` for the quoted TOML text).
pub open spec fn edit_rel(
    definitions: Seq<(String, ParamDefinition)>,
    name: Seq<char>,
    text: Seq<char>,
    float: Option<u64>,
    o: Option<Result<(), Seq<char>>>,
) -> bool {
    match lookup(definitions, name) {
        None => o is None,
        Some(def) => o matches Some(res) && exists|c: Result<JsonValue, String>|
            #![trigger candidate_rel(text, def.param_type, float, c)]
            candidate_rel(text, def.param_type, float, c) && match c {
                Err(e) => res == Err::<(), Seq<char>>(e@),
                Ok(j) => exists|t: crate::values::TomlValue|
                    #![trigger crate::job_config::params::json_to_toml_rel(j, t)]
                    crate::job_config::params::json_to_toml_rel(j, t) && match validation_error(
                        def.param_type,
                        def.enum_values,
                        t,
                        "\"null\""@,
                    ) {
                        Some(e) => res == Err::<(), Seq<char>>(e),
                        None => res == Ok::<(), Seq<char>>(()),
                    },
            },
    }
}

/// Every field but the error message is the same.
pub open spec fn same_but_message(a: ParamsEditorState, b: ParamsEditorState) -> bool {
    &&& a.display_name == b.display_name
    &&& a.description == b.description
    &&& a.is_global == b.is_global
    &&& a.definitions == b.definitions
    &&& a.param_values == b.param_values
    &&& a.selected_index == b.selected_index
    &&& a.editing == b.editing
    &&& a.input_buffer == b.input_buffer
}

/// `after` is `before` once the edit of the selected parameter is saved
/// with `float` for the edited text: an accepted text becomes the
/// parameter's value and ends the edit; a refused one leaves the message.
/// Nothing changes when no parameter is selected or it has no definition.
pub open spec fn saved_edit_rel(before: ParamsEditorState, after: ParamsEditorState, float: Option<u64>) -> bool {
    let sel = before.selected_index;
    if sel >= before.param_values@.len() {
        after == before
    } else {
        exists|o: Option<Result<(), Seq<char>>>|
            #![trigger edit_rel(before.definitions@, before.param_values@[sel as int].0@, before.input_buffer@, float, o)]
            edit_rel(before.definitions@, before.param_values@[sel as int].0@, before.input_buffer@, float, o)
                && match o {
                None => after == before,
                Some(Err(m)) => same_but_message(after, before) && (after.error_message matches Some(e)
                    && e@ == m),
                Some(Ok(_)) => {
                    &&& after.param_values@ == before.param_values@.update(
                        sel as int,
                        (before.param_values@[sel as int].0, before.input_buffer),
                    )
                    &&& !after.editing
                    &&& after.input_buffer@ == Seq::<char>::empty()
                    &&& after.error_message is None
                    &&& after.display_name == before.display_name
                    &&& after.description == before.description
                    &&& after.is_global == before.is_global
                    &&& after.definitions == before.definitions
                    &&& after.selected_index == before.selected_index
                },
            }
    }
}

/// `r` is what saving all the values comes to, `floats` being what
/// `str::parse::<f64>` reads from each: the first refusal, in list order,
/// or else the accepted values.
pub open spec fn save_all_rel(s: ParamsEditorState, floats: Seq<Option<u64>>, r: Result<JobParams, String>) -> bool {
    let values = s.param_values@;
    match r {
        Ok(p) => exists|os: Seq<Option<Result<JsonValue, String>>>|
            #![trigger saved_entries(values, os)]
            os.len() == values.len() && (forall|k: int|
                0 <= k < values.len() ==> #[trigger] entry_rel(
                    s.definitions@,
                    values[k].0@,
                    values[k].1@,
                    floats[k],
                    os[k],
                )) && first_refusal(os, values.len() as int) is None && params_view(p@) == saved_entries(
                values,
                os,
            ),
        Err(m) => exists|i: int, os: Seq<Option<Result<JsonValue, String>>>|
            #![trigger os[i], first_refusal(os, i)]
            0 <= i < values.len() && os.len() == i + 1 && (forall|k: int|
                0 <= k <= i ==> #[trigger] entry_rel(
                    s.definitions@,
                    values[k].0@,
                    values[k].1@,
                    floats[k],
                    os[k],
                )) && first_refusal(os, i) is None && os[i] == Some(Err::<JsonValue, String>(m)),
    }
}

impl ParamsEditorState {
    /// Moves the selection up, unless it is at the top.
    pub fn move_up(&mut self)
        ensures
            *final(self) == (ParamsEditorState {
                selected_index: if old(self).selected_index > 0 {
                    (old(self).selected_index - 1) as usize
                } else {
                    old(self).selected_index
                },
                ..*old(self)
            }),
    {
        if self.selected_index > 0 {
            self.selected_index = self.selected_index - 1;
        }
    }

    /// Moves the selection down, unless it is at the last parameter.
    pub fn move_down(&mut self)
        ensures
            *final(self) == (ParamsEditorState {
                selected_index: if old(self).selected_index + 1 < old(self).param_values@.len() {
                    (old(self).selected_index + 1) as usize
                } else {
                    old(self).selected_index
                },
                ..*old(self)
            }),
    {
        let n = self.param_values.len();
        let last = if n > 0 { n - 1 } else { 0 };
        if self.selected_index < last {
            self.selected_index = self.selected_index + 1;
        }
    }

    /// Starts editing the selected parameter, from its current text.
    pub fn start_editing(&mut self)
        ensures
            old(self).selected_index >= old(self).param_values@.len() ==> *final(self) == *old(self),
            old(self).selected_index < old(self).param_values@.len() ==> *final(self)
                == (ParamsEditorState {
                editing: true,
                input_buffer: old(self).param_values@[old(self).selected_index as int].1,
                error_message: None,
                ..*old(self)
            }),
    {
        if self.selected_index < self.param_values.len() {
            self.editing = true;
            self.input_buffer = self.param_values[self.selected_index].1.clone();
            self.error_message = None;
        }
    }

    /// Drops the edit.
    pub fn cancel_editing(&mut self)
        ensures
            !final(self).editing,
            final(self).input_buffer@ == Seq::<char>::empty(),
            final(self).error_message is None,
            final(self).param_values == old(self).param_values,
            final(self).selected_index == old(self).selected_index,
            final(self).definitions == old(self).definitions,
    {
        self.editing = false;
        self.input_buffer = String::new();
        self.error_message = None;
    }

    /// Types a character.
    pub fn input_char(&mut self, c: char)
        ensures
            final(self).input_buffer@ == old(self).input_buffer@.push(c),
            final(self).param_values == old(self).param_values,
            final(self).selected_index == old(self).selected_index,
            final(self).editing == old(self).editing,
            final(self).error_message == old(self).error_message,
            final(self).definitions == old(self).definitions,
    {
        crate::text::push_char(&mut self.input_buffer, c);
    }

    /// Deletes the last character typed, if any.
    pub fn input_backspace(&mut self)
        ensures
            final(self).input_buffer@ == if old(self).input_buffer@.len() > 0 {
                old(self).input_buffer@.drop_last()
            } else {
                old(self).input_buffer@
            },
            final(self).param_values == old(self).param_values,
            final(self).selected_index == old(self).selected_index,
            final(self).editing == old(self).editing,
            final(self).error_message == old(self).error_message,
            final(self).definitions == old(self).definitions,
    {
        let cs = to_chars(self.input_buffer.as_str());
        if cs.len() > 0 {
            self.input_buffer = string_of_range(&cs, 0, cs.len() - 1);
            proof {
                assert(cs@.subrange(0, cs@.len() - 1) =~= old(self).input_buffer@.drop_last());
            }
        }
    }

    /// Saves the edit of the selected parameter; `float` is what
    /// `str::parse::<f64>` reads from the trimmed edited text.
    pub fn save_current_edit(&mut self, float: Option<u64>)
        ensures
            saved_edit_rel(*old(self), *final(self), float),
    {
        let sel = self.selected_index;
        if sel >= self.param_values.len() {
            return;
        }
        let ghost name = self.param_values@[sel as int].0@;
        proof {
            lemma_first_key_index(self.definitions@, name);
        }
        let f = match find_key(&self.definitions, self.param_values[sel].0.as_str()) {
            Some(f) => f,
            None => {
                proof {
                    assert(edit_rel(old(self).definitions@, name, old(self).input_buffer@, float, None));
                }
                return;
            },
        };
        let res = string_to_param_value(
            self.input_buffer.as_str(),
            &self.definitions[f].1.param_type,
            float,
        );
        let ghost c = res;
        match res {
            Err(e) => {
                proof {
                    assert(edit_rel(
                        old(self).definitions@,
                        name,
                        old(self).input_buffer@,
                        float,
                        Some(Err::<(), Seq<char>>(e@)),
                    ));
                }
                self.error_message = Some(e);
            },
            Ok(j) => {
                let t = json_to_toml(&j);
                match self.definitions[f].1.validate(&t, "\"null\"") {
                    Err(e) => {
                        proof {
                            assert(edit_rel(
                                old(self).definitions@,
                                name,
                                old(self).input_buffer@,
                                float,
                                Some(Err::<(), Seq<char>>(e@)),
                            ));
                        }
                        self.error_message = Some(e);
                    },
                    Ok(_) => {
                        proof {
                            assert(edit_rel(
                                old(self).definitions@,
                                name,
                                old(self).input_buffer@,
                                float,
                                Some(Ok::<(), Seq<char>>(())),
                            ));
                        }
                        let entry = (self.param_values[sel].0.clone(), self.input_buffer.clone());
                        self.param_values.set(sel, entry);
                        self.editing = false;
                        self.input_buffer = String::new();
                        self.error_message = None;
                    },
                }
            },
        }
    }

    /// What saving entry `i` comes to, `float` being what `str::parse::<f64>`
    /// reads from its text.
    fn entry_outcome(&self, i: usize, float: Option<u64>) -> (r: Option<Result<JsonValue, String>>)
        requires
            i < self.param_values@.len(),
        ensures
            entry_rel(self.definitions@, self.param_values@[i as int].0@, self.param_values@[i as int].1@, float, r),
    {
        let name = self.param_values[i].0.as_str();
        proof {
            lemma_first_key_index(self.definitions@, name@);
        }
        let f = match find_key(&self.definitions, name) {
            Some(f) => f,
            None => {
                return None;
            },
        };
        let def = &self.definitions[f].1;
        let res = string_to_param_value(self.param_values[i].1.as_str(), &def.param_type, float);
        let ghost c = res;
        match res {
            Err(e) => {
                let mut m = concat3("Invalid value for ", name, ": ");
                m.append(e.as_str());
                Some(Err(m))
            },
            Ok(j) => {
                let t = json_to_toml(&j);
                match def.validate(&t, "\"null\"") {
                    Err(e) => {
                        let mut m = concat3("Validation failed for ", name, ": ");
                        m.append(e.as_str());
                        Some(Err(m))
                    },
                    Ok(_) => Some(Ok(j)),
                }
            },
        }
    }

    /// Turns every value back from text, to be saved; `floats` holds what
    /// `str::parse::<f64>` reads from each value's text, in list order.
    pub fn params_to_save(&self, floats: &Vec<Option<u64>>) -> (r: Result<JobParams, String>)
        requires
            floats@.len() == self.param_values@.len(),
        ensures
            save_all_rel(*self, floats@, r),
    {
        let ghost values = self.param_values@;
        let mut out: JobParams = Vec::new();
        let ghost mut os: Seq<Option<Result<JsonValue, String>>> = Seq::empty();
        let n = self.param_values.len();
        let mut i: usize = 0;
        proof {
            assert(params_view(out@) =~= saved_entries(values.take(0), os));
        }
        while i < n
            invariant
                n == values.len(),
                values == self.param_values@,
                floats@.len() == n,
                i <= n,
                os.len() == i,
                forall|k: int|
                    0 <= k < i ==> #[trigger] entry_rel(
                        self.definitions@,
                        values[k].0@,
                        values[k].1@,
                        floats@[k],
                        os[k],
                    ),
                first_refusal(os, i as int) is None,
                params_view(out@) == saved_entries(values.take(i as int), os),
            decreases n - i,
        {
            let o = self.entry_outcome(i, floats[i]);
            let ghost prev = os;
            proof {
                os = os.push(o);
                assert(os.drop_last() =~= prev);
                assert forall|k: int| 0 <= k < prev.len() implies os[k] == prev[k] by {}
                lemma_first_refusal_prefix(os, prev, i as int);
                assert(values.take(i + 1).drop_last() =~= values.take(i as int));
                assert(values.take(i + 1).last() == values[i as int]);
            }
            match o {
                Some(Err(m)) => {
                    proof {
                        assert(os[i as int] == Some(Err::<JsonValue, String>(m)));
                        assert(first_refusal(os, i as int) is None);
                    }
                    return Err(m);
                },
                Some(Ok(j)) => {
                    let ghost before = params_view(out@);
                    out.push((self.param_values[i].0.clone(), j));
                    proof {
                        assert(params_view(out@) =~= before.push((values[i as int].0@, j)));
                    }
                },
                None => {},
            }
            i = i + 1;
        }
        proof {
            assert(values.take(n as int) =~= values);
        }
        Ok(out)
    }

    /// Takes a key. While a value is edited, characters are typed,
    /// Backspace deletes, Enter saves the edit (with `buffer_float` read
    /// from the edited text) and Esc drops it. Otherwise the arrows and
    /// `j`/`k` move the selection, Enter starts an edit, `s` asks to save
    /// every value (with `value_floats` read from their texts) or shows why
    /// it cannot, and Esc closes the editor.
    pub fn handle_key(&mut self, key: Key, buffer_float: Option<u64>, value_floats: &Vec<Option<u64>>) -> (r:
        EditorOutcome)
        requires
            value_floats@.len() == old(self).param_values@.len(),
        ensures
            old(self).editing ==> r is Stay,
            old(self).editing ==> (key matches Key::Char(c) ==> final(self).input_buffer@ == old(self).input_buffer@.push(c) && final(self).param_values == old(self).param_values),
            (old(self).editing && key == Key::Enter) ==> saved_edit_rel(*old(self), *final(self), buffer_float),
            (old(self).editing && key == Key::Esc) ==> !final(self).editing && final(self).input_buffer@
                == Seq::<char>::empty() && final(self).error_message is None,
            (!old(self).editing && (key == Key::Up || key == Key::Char('j'))) ==> r is Stay
                && final(self).selected_index == if old(self).selected_index > 0 {
                (old(self).selected_index - 1) as usize
            } else {
                old(self).selected_index
            },
            (!old(self).editing && (key == Key::Down || key == Key::Char('k'))) ==> r is Stay
                && final(self).selected_index == if old(self).selected_index + 1 < old(self).param_values@.len() {
                (old(self).selected_index + 1) as usize
            } else {
                old(self).selected_index
            },
            (!old(self).editing && key == Key::Enter) ==> r is Stay && (old(self).selected_index
                < old(self).param_values@.len() ==> final(self).editing && final(self).input_buffer
                == old(self).param_values@[old(self).selected_index as int].1),
            (!old(self).editing && key == Key::Esc) ==> r is Close && *final(self) == *old(self),
            (!old(self).editing && key == Key::Char('s')) ==> exists|res: Result<JobParams, String>|
                #![trigger save_all_rel(*old(self), value_floats@, res)]
                save_all_rel(*old(self), value_floats@, res) && match res {
                    Ok(p) => r matches EditorOutcome::Save(q) && q == p && *final(self) == *old(self),
                    Err(m) => r is Stay && same_but_message(*final(self), *old(self)) && final(self).error_message == Some(m),
                },
    {
        if self.editing {
            match key {
                Key::Char(c) => self.input_char(c),
                Key::Backspace => self.input_backspace(),
                Key::Enter => self.save_current_edit(buffer_float),
                Key::Esc => self.cancel_editing(),
                _ => {},
            }
            return EditorOutcome::Stay;
        }
        match key {
            Key::Up => {
                self.move_up();
                EditorOutcome::Stay
            },
            Key::Down => {
                self.move_down();
                EditorOutcome::Stay
            },
            Key::Enter => {
                self.start_editing();
                EditorOutcome::Stay
            },
            Key::Esc => EditorOutcome::Close,
            Key::Char(c) => {
                if c == 'j' {
                    self.move_up();
                    EditorOutcome::Stay
                } else if c == 'k' {
                    self.move_down();
                    EditorOutcome::Stay
                } else if c == 's' {
                    let res = self.params_to_save(value_floats);
                    match res {
                        Ok(p) => EditorOutcome::Save(p),
                        Err(m) => {
                            self.error_message = Some(m);
                            EditorOutcome::Stay
                        },
                    }
                } else {
                    EditorOutcome::Stay
                }
            },
            _ => EditorOutcome::Stay,
        }
    }
}

/// The first refusal is not affected by what comes after it.
proof fn lemma_first_refusal_prefix(
    os: Seq<Option<Result<JsonValue, String>>>,
    prev: Seq<Option<Result<JsonValue, String>>>,
    n: int,
)
    requires
        0 <= n <= prev.len(),
        prev.len() <= os.len(),
        forall|k: int| 0 <= k < prev.len() ==> os[k] == prev[k],
    ensures
        first_refusal(os, n) == first_refusal(prev, n),
    decreases n,
{
    if n > 0 {
        lemma_first_refusal_prefix(os, prev, n - 1);
    }
}

/// One parameter of the editor's list as drawn: the cursor, the name, the
/// type, the value shown, and the hint line under it when there is one.
pub struct ParamItem {
    pub cursor: &'static str,
    pub name: String,
    pub type_text: String,
    pub value: String,
    pub hint: Option<String>,
    pub selected: bool,
    pub editing: bool,
    /// The first line: cursor, name, type in brackets, and value.
    pub line: String,
}

/// The editor's frame: its title, the description, the title of the list,
/// and the line under the list, an error or a help text.
pub struct EditorFrame {
    pub title: String,
    pub description: String,
    pub list_title: String,
    pub notice: String,
    pub notice_is_error: bool,
}

/// What item `i` of the editor's list shows.
pub open spec fn param_item_rel(st: ParamsEditorState, i: int, item: ParamItem) -> bool {
    let name = st.param_values@[i].0@;
    let sel = i == st.selected_index;
    let ed = sel && st.editing;
    let def = lookup(st.definitions@, name);
    let type_text = match def {
        Some(d) => param_type_name(d.param_type),
        None => "?"@,
    };
    let hint = match def {
        Some(d) => d.hint@,
        None => Seq::<char>::empty(),
    };
    let value = if ed { st.input_buffer@ } else { st.param_values@[i].1@ };
    let cursor = if ed { "▶"@ } else if sel { ">"@ } else { " "@ };
    &&& item.cursor@ == cursor
    &&& item.name@ == name
    &&& item.type_text@ == type_text
    &&& item.value@ == value
    &&& item.selected == sel
    &&& item.editing == ed
    &&& (hint.len() > 0 && !ed) ==> (item.hint matches Some(h) && h@ == hint)
    &&& !(hint.len() > 0 && !ed) ==> item.hint is None
    &&& item.line@ == cursor + " "@ + name + " ("@ + type_text + "): "@ + value
}

impl ParamsEditorState {
    /// The list of parameters as drawn, one item per parameter, in order.
    pub fn params_list_items(&self) -> (r: Vec<ParamItem>)
        ensures
            r@.len() == self.param_values@.len(),
            forall|i: int| 0 <= i < r@.len() ==> param_item_rel(*self, i, #[trigger] r@[i]),
    {
        let mut out: Vec<ParamItem> = Vec::new();
        let mut i: usize = 0;
        while i < self.param_values.len()
            invariant
                i <= self.param_values@.len(),
                out@.len() == i,
                forall|k: int| 0 <= k < i ==> param_item_rel(*self, k, #[trigger] out@[k]),
            decreases self.param_values@.len() - i,
        {
            let name = &self.param_values[i].0;
            let selected = i == self.selected_index;
            let editing = selected && self.editing;
            proof {
                lemma_first_key_index(self.definitions@, name@);
            }
            let (type_text, hint_text) = match find_key(&self.definitions, name.as_str()) {
                Some(f) => (self.definitions[f].1.param_type.to_string(), self.definitions[f].1.hint.clone()),
                None => (String::from_str("?"), String::new()),
            };
            let value = if editing { self.input_buffer.clone() } else { self.param_values[i].1.clone() };
            let cursor = if editing { "▶" } else if selected { ">" } else { " " };
            let hint = if hint_text.as_str().unicode_len() > 0 && !editing { Some(hint_text) } else { None };
            let mut line = String::from_str(cursor);
            line.append(" ");
            line.append(name.as_str());
            line.append(" (");
            line.append(type_text.as_str());
            line.append("): ");
            line.append(value.as_str());
            let item = ParamItem {
                cursor,
                name: name.clone(),
                type_text,
                value,
                hint,
                selected,
                editing,
                line,
            };
            assert(param_item_rel(*self, i as int, item));
            out.push(item);
            i = i + 1;
        }
        out
    }

    /// The editor's frame: ` Edit Parameters: <name> ` (or ` Edit Global
    /// Parameters: <name> `), the description, ` Parameters ` (or ` Global
    /// Parameters `) over the list, and under it the error when there is one,
    /// else the keys that work in the current mode.
    pub fn editor_frame(&self) -> (r: EditorFrame)
        ensures
            r.title@ == " "@ + (if self.is_global { "Edit Global Parameters"@ } else { "Edit Parameters"@ })
                + ": "@ + self.display_name@ + " "@,
            r.description@ == self.description@,
            r.list_title@ == if self.is_global { " Global Parameters "@ } else { " Parameters "@ },
            r.notice_is_error == self.error_message is Some,
            r.notice@ == match self.error_message {
                Some(e) => e@,
                None => if self.editing {
                    "Type to edit | Enter: Save | Esc: Cancel"@
                } else {
                    "↑↓: Navigate | Enter: Edit | s: Save All | Esc: Cancel"@
                },
            },
    {
        let mut title = String::from_str(" ");
        title.append(if self.is_global { "Edit Global Parameters" } else { "Edit Parameters" });
        title.append(": ");
        title.append(self.display_name.as_str());
        title.append(" ");
        let list_title = if self.is_global { " Global Parameters " } else { " Parameters " };
        let (notice, notice_is_error) = match &self.error_message {
            Some(e) => (e.clone(), true),
            None => if self.editing {
                (String::from_str("Type to edit | Enter: Save | Esc: Cancel"), false)
            } else {
                (String::from_str("↑↓: Navigate | Enter: Edit | s: Save All | Esc: Cancel"), false)
            },
        };
        EditorFrame {
            title,
            description: self.description.clone(),
            list_title: String::from_str(list_title),
            notice,
            notice_is_error,
        }
    }
}

} // verus!
