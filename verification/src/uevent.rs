//! The `uevent` file of a device: lines of the form `key=value`, read as a
//! mapping from keys to values.

use crate::text::{
    end_of_line, first_of, line_end, position_of, run_of, slice_of, stands_at,
};
use vstd::prelude::*;

verus! {

/// The value of `line` where it is an entry for `key`: the key, an equals
/// sign, and the value up to the end of the line. The key ends at the first
/// equals sign.
pub open spec fn entry_value(line: Seq<char>, key: Seq<char>) -> Option<Seq<char>> {
    let eq = first_of(line, '=', 0);
    if eq < line.len() && line.subrange(0, eq) == key {
        Some(line.subrange(eq + 1, line.len() as int))
    } else {
        None
    }
}

/// The value of the last entry for `key` among the lines of `text` from
/// index `from` on.
pub open spec fn value_from(text: Seq<char>, key: Seq<char>, from: int) -> Option<Seq<char>>
    decreases text.len() - from,
{
    if from < 0 || from > text.len() {
        None
    } else {
        let end = line_end(text, from);
        let here = entry_value(text.subrange(from, end), key);
        if from <= end < text.len() {
            match value_from(text, key, end + 1) {
                Some(v) => Some(v),
                None => here,
            }
        } else {
            here
        }
    }
}

/// What `text` maps `key` to: the value of its last entry for `key`. `None`
/// where it has none.
pub open spec fn value_of(text: Seq<char>, key: Seq<char>) -> Option<Seq<char>> {
    value_from(text, key, 0)
}

/// The value of `line` where it is an entry for `key`.
pub fn entry(line: &[char], key: &[char]) -> (r: Option<Vec<char>>)
    ensures
        run_of(r) == entry_value(line@, key@),
{
    let eq = position_of(line, '=', 0);
    if eq < line.len() && eq == key.len() && stands_at(line, key, 0) {
        Some(slice_of(line, eq + 1, line.len()))
    } else {
        None
    }
}

/// Looks up `key` in the text of a `uevent` file.
pub fn lookup(text: &[char], key: &[char]) -> (r: Option<Vec<char>>)
    ensures
        run_of(r) == value_of(text@, key@),
{
    let mut best: Option<Vec<char>> = None;
    let mut from: usize = 0;
    loop
        invariant
            from <= text.len(),
            value_of(text@, key@) == match value_from(text@, key@, from as int) {
                Some(v) => Some(v),
                None => run_of(best),
            },
        decreases text.len() - from,
    {
        let end = end_of_line(text, from);
        let line = slice_of(text, from, end);
        let here = entry(line.as_slice(), key);
        if here.is_some() {
            best = here;
        }
        if end >= text.len() {
            return best;
        }
        from = end + 1;
    }
}

} // verus!
