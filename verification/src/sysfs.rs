//! What was read from the pseudo-files of sysfs, as plain values: the text
//! of the files of a directory, the numbers they hold, and readings with
//! their unit.

use crate::error::SensorError;
use crate::number::{i64_value, parse_i64};
use crate::text::{chars_of, slice_text, strip_final_newline, without_final_newline};
use vstd::prelude::*;

verus! {

/// A file that could be read: its name within its directory, and its text.
#[derive(Debug, Clone, PartialEq, Eq)]
pub struct NamedFile {
    pub name: String,
    pub text: String,
}

/// An exact reading: `raw`, counted in parts of which `per_unit` make up
/// one degree Celsius, one Watt, one Hz, or the whole of a ratio.
#[derive(Clone, Copy, Debug, PartialEq, Eq, Structural)]
pub struct Scaled {
    pub raw: i64,
    pub per_unit: u32,
}

/// The text of the first file of `dir` with the given name. `None` where
/// `dir` holds no such file: it was missing, or could not be read.
pub open spec fn file_text(dir: Seq<NamedFile>, name: Seq<char>) -> Option<Seq<char>>
    decreases dir.len(),
{
    if dir.len() == 0 {
        None
    } else if dir[0].name@ == name {
        Some(dir[0].text@)
    } else {
        file_text(dir.skip(1), name)
    }
}

/// The integer that the text of a file holds, the line feed at its end left
/// out.
pub open spec fn int_reading(text: Option<Seq<char>>) -> Result<i64, SensorError> {
    match text {
        Some(t) => match i64_value(without_final_newline(t)) {
            Some(v) => Ok(v),
            None => Err(SensorError::Parse),
        },
        None => Err(SensorError::Unreadable),
    }
}

/// A reading of `raw` parts, `per_unit` to the unit, where there is one.
pub open spec fn scaled(raw: Result<i64, SensorError>, per_unit: u32) -> Result<
    Scaled,
    SensorError,
> {
    match raw {
        Ok(v) => Ok(Scaled { raw: v, per_unit }),
        Err(e) => Err(e),
    }
}

/// The path of `name` within the directory `dir`: a slash parts them unless
/// `dir` is empty or ends in one, and an absolute `name` stands alone.
pub open spec fn joined(dir: Seq<char>, name: Seq<char>) -> Seq<char> {
    if name.len() > 0 && name[0] == '/' {
        name
    } else if dir.len() == 0 || dir.last() == '/' {
        dir + name
    } else {
        dir + seq!['/'] + name
    }
}

/// The text of the file `name` of the directory `dir`.
pub fn read_file<'a>(dir: &'a [NamedFile], name: &str) -> (r: Option<&'a str>)
    ensures
        slice_text(r) == file_text(dir@, name@),
{
    let wanted = String::from_str(name);
    let mut i: usize = 0;
    assert(dir@.skip(0) == dir@);
    while i < dir.len()
        invariant
            i <= dir.len(),
            wanted@ == name@,
            file_text(dir@, name@) == file_text(dir@.skip(i as int), name@),
        decreases dir.len() - i,
    {
        assert(dir@.skip(i as int).skip(1) == dir@.skip(i + 1));
        if dir[i].name == wanted {
            return Some(dir[i].text.as_str());
        }
        i += 1;
    }
    None
}

/// Reads the text of a file that holds one integer and may end in a line
/// feed. `None` stands for a file that could not be read.
pub fn parse_sysfs_int(text: Option<&str>) -> (r: Result<i64, SensorError>)
    ensures
        r == int_reading(slice_text(text)),
{
    match text {
        Some(t) => {
            let chars = chars_of(t);
            let stripped = strip_final_newline(chars.as_slice());
            match parse_i64(stripped.as_slice()) {
                Some(v) => Ok(v),
                None => Err(SensorError::Parse),
            }
        },
        None => Err(SensorError::Unreadable),
    }
}

/// The path of `name` within the directory `dir`.
pub fn join_path(dir: &str, name: &str) -> (r: String)
    ensures
        r@ == joined(dir@, name@),
{
    let d = chars_of(dir);
    let n = chars_of(name);
    if n.len() > 0 && n[0] == '/' {
        return String::from_str(name);
    }
    let mut r = String::from_str(dir);
    if d.len() > 0 && d[d.len() - 1] != '/' {
        r.push('/');
    }
    r.append(name);
    r
}

} // verus!
