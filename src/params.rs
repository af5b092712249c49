use vstd::prelude::*;

use crate::text::same_text;

verus! {

/// A configuration parameter's value, as far as the registries read it.
#[derive(Debug, Clone, PartialEq)]
pub enum ParamValue {
    Integer(i64),
    Text(String),
    /// Any value of another type (a float, a table, ...).
    Other,
}

/// The value stored under `key`, looking from position `start` onwards; the first entry
/// with that key wins.
pub open spec fn param_from(entries: Seq<(String, ParamValue)>, key: Seq<char>, start: int) -> Option<
    ParamValue,
>
    decreases entries.len() - start,
{
    if start < 0 || start >= entries.len() {
        None
    } else if entries[start].0@ == key {
        Some(entries[start].1)
    } else {
        param_from(entries, key, start + 1)
    }
}

/// The value stored under `key`.
pub open spec fn param_named(entries: Seq<(String, ParamValue)>, key: Seq<char>) -> Option<
    ParamValue,
> {
    param_from(entries, key, 0)
}

/// The integer under `key` read as a `usize`, or `default` when absent or not an integer.
pub open spec fn param_usize(entries: Seq<(String, ParamValue)>, key: Seq<char>, default: usize) -> usize {
    match param_named(entries, key) {
        Some(ParamValue::Integer(v)) => v as usize,
        _ => default,
    }
}

/// The text under `key`, or `default` when absent or not text.
pub open spec fn param_text(entries: Seq<(String, ParamValue)>, key: Seq<char>, default: Seq<char>) -> Seq<
    char,
> {
    match param_named(entries, key) {
        Some(ParamValue::Text(s)) => s@,
        _ => default,
    }
}

/// Finds the value stored under `key`.
pub fn find_param<'a>(entries: &'a Vec<(String, ParamValue)>, key: &str) -> (r: Option<&'a ParamValue>)
    ensures
        r matches Some(v) ==> param_named(entries@, key@) == Some(*v),
        r is None ==> param_named(entries@, key@) is None,
{
    let mut i: usize = 0;
    while i < entries.len()
        invariant
            i <= entries@.len(),
            param_named(entries@, key@) == param_from(entries@, key@, i as int),
        decreases entries@.len() - i,
    {
        if same_text(entries[i].0.as_str(), key) {
            return Some(&entries[i].1);
        }
        i = i + 1;
    }
    None
}

/// Reads an integer parameter as a `usize`, falling back to `default`.
pub fn get_usize(entries: &Vec<(String, ParamValue)>, key: &str, default: usize) -> (r: usize)
    ensures
        r == param_usize(entries@, key@, default),
{
    match find_param(entries, key) {
        Some(ParamValue::Integer(v)) => *v as usize,
        _ => default,
    }
}

/// Reads a text parameter, falling back to `default`.
pub fn get_string(entries: &Vec<(String, ParamValue)>, key: &str, default: &str) -> (r: String)
    ensures
        r@ == param_text(entries@, key@, default@),
{
    match find_param(entries, key) {
        Some(ParamValue::Text(s)) => s.clone(),
        _ => String::from_str(default),
    }
}

} // verus!
