//! Finding the sensor of the CPU temperature among the hwmons and thermal
//! zones of the machine: a list of known names, in the order of their
//! priority, is held against what each directory says it is.

use crate::sysfs::{join_path, joined};
use crate::text::{
    chars_of, same_chars, strip_final_newline, text_of, texts, without_final_newline,
};
use vstd::prelude::*;

verus! {

/// A directory that may hold a sensor: its path, and the text of the file
/// that tells what it is (`name` for a hwmon, `type` for a thermal zone);
/// `None` where that file could not be read.
#[derive(Debug, Clone, PartialEq, Eq)]
pub struct SensorDir {
    pub path: String,
    pub label: Option<String>,
}

/// Whether the directory tells that it is `name`, the line feed at the end
/// of what it tells being left out.
pub open spec fn carries(dir: SensorDir, name: Seq<char>) -> bool {
    dir.label matches Some(l) && without_final_newline(l@) == name
}

/// The index of the first of `dirs` that is `name`.
pub open spec fn first_carrier(dirs: Seq<SensorDir>, name: Seq<char>) -> Option<int>
    decreases dirs.len(),
{
    if dirs.len() == 0 {
        None
    } else {
        match first_carrier(dirs.drop_last(), name) {
            Some(d) => Some(d),
            None => if carries(dirs.last(), name) {
                Some(dirs.len() - 1)
            } else {
                None
            },
        }
    }
}

/// The first of the names from index `n` on that any of `dirs` is, and
/// the first directory that is it, both as indices.
pub open spec fn located_from(names: Seq<Seq<char>>, dirs: Seq<SensorDir>, n: int) -> Option<
    (int, int),
>
    decreases names.len() - n,
{
    if n < 0 || n >= names.len() {
        None
    } else {
        match first_carrier(dirs, names[n]) {
            Some(d) => Some((n, d)),
            None => located_from(names, dirs, n + 1),
        }
    }
}

/// The sensor that is found for the names `names`, which are in the order
/// of their priority: the first name that any directory is decides, and
/// among the directories that are it the first.
pub open spec fn located(names: Seq<Seq<char>>, dirs: Seq<SensorDir>) -> Option<(int, int)> {
    located_from(names, dirs, 0)
}

/// What `first_carrier` finds is the first directory that is `name`.
pub proof fn lemma_first_carrier(dirs: Seq<SensorDir>, name: Seq<char>)
    ensures
        match first_carrier(dirs, name) {
            Some(d) => {
                &&& 0 <= d < dirs.len()
                &&& carries(dirs[d], name)
                &&& forall|e: int| 0 <= e < d ==> !carries(#[trigger] dirs[e], name)
            },
            None => forall|e: int| 0 <= e < dirs.len() ==> !carries(#[trigger] dirs[e], name),
        },
    decreases dirs.len(),
{
    if dirs.len() > 0 {
        lemma_first_carrier(dirs.drop_last(), name);
        assert(forall|e: int| 0 <= e < dirs.len() - 1 ==> dirs.drop_last()[e] == dirs[e]);
    }
}

proof fn lemma_located_from(names: Seq<Seq<char>>, dirs: Seq<SensorDir>, n: int)
    requires
        0 <= n,
    ensures
        match located_from(names, dirs, n) {
            Some((m, d)) => {
                &&& n <= m < names.len()
                &&& first_carrier(dirs, names[m]) == Some(d)
                &&& forall|k: int| n <= k < m ==> first_carrier(dirs, #[trigger] names[k]) is None
            },
            None => forall|k: int|
                n <= k < names.len() ==> first_carrier(dirs, #[trigger] names[k]) is None,
        },
    decreases names.len() - n,
{
    if n < names.len() && first_carrier(dirs, names[n]) is None {
        lemma_located_from(names, dirs, n + 1);
    }
}

/// The order of the names decides, not the order of the directories: the
/// sensor found is the first directory that is the first name that any
/// directory is. No directory is any of the names before it, and where no
/// sensor is found no directory is any of the names.
pub proof fn lemma_priority(names: Seq<Seq<char>>, dirs: Seq<SensorDir>)
    ensures
        match located(names, dirs) {
            Some((m, d)) => {
                &&& 0 <= m < names.len()
                &&& 0 <= d < dirs.len()
                &&& carries(dirs[d], names[m])
                &&& forall|e: int| 0 <= e < d ==> !carries(#[trigger] dirs[e], names[m])
                &&& forall|k: int, e: int|
                    0 <= k < m && 0 <= e < dirs.len() ==> !carries(
                        #[trigger] dirs[e],
                        #[trigger] names[k],
                    )
            },
            None => forall|k: int, e: int|
                0 <= k < names.len() && 0 <= e < dirs.len() ==> !carries(
                    #[trigger] dirs[e],
                    #[trigger] names[k],
                ),
        },
{
    lemma_located_from(names, dirs, 0);
    assert forall|k: int| 0 <= k < names.len() implies match first_carrier(
        dirs,
        #[trigger] names[k],
    ) {
        Some(d) => {
            &&& 0 <= d < dirs.len()
            &&& carries(dirs[d], names[k])
            &&& forall|e: int| 0 <= e < d ==> !carries(#[trigger] dirs[e], names[k])
        },
        None => forall|e: int| 0 <= e < dirs.len() ==> !carries(#[trigger] dirs[e], names[k]),
    } by {
        lemma_first_carrier(dirs, names[k]);
    }
}

/// Whether any of `dirs` is `name`.
pub open spec fn any_carries(dirs: Seq<SensorDir>, name: Seq<char>) -> bool {
    exists|e: int| 0 <= e < dirs.len() && carries(#[trigger] dirs[e], name)
}

/// Which name is found does not depend on the order in which the
/// directories were met: two enumerations of the same directories find the
/// same name, or both find none.
pub proof fn lemma_order_is_immaterial(
    names: Seq<Seq<char>>,
    one: Seq<SensorDir>,
    other: Seq<SensorDir>,
)
    requires
        one.to_multiset() == other.to_multiset(),
    ensures
        match (located(names, one), located(names, other)) {
            (Some((m, d)), Some((n, e))) => m == n && carries(one[d], names[m]) && carries(
                other[e],
                names[m],
            ),
            (None, None) => true,
            _ => false,
        },
{
    one.to_multiset_ensures();
    other.to_multiset_ensures();
    lemma_priority(names, one);
    lemma_priority(names, other);
    assert forall|k: int| 0 <= k < names.len() implies (any_carries(one, #[trigger] names[k])
        <==> any_carries(other, names[k])) by {
        if any_carries(one, names[k]) {
            let e = choose|e: int| 0 <= e < one.len() && carries(#[trigger] one[e], names[k]);
            assert(one.contains(one[e]));
            assert(other.to_multiset().count(one[e]) > 0);
            assert(other.contains(one[e]));
            let f = choose|f: int| 0 <= f < other.len() && other[f] == one[e];
            assert(carries(other[f], names[k]));
        }
        if any_carries(other, names[k]) {
            let e = choose|e: int| 0 <= e < other.len() && carries(#[trigger] other[e], names[k]);
            assert(other.contains(other[e]));
            assert(one.to_multiset().count(other[e]) > 0);
            assert(one.contains(other[e]));
            let f = choose|f: int| 0 <= f < one.len() && one[f] == other[e];
            assert(carries(one[f], names[k]));
        }
    }
    match (located(names, one), located(names, other)) {
        (Some((m, d)), Some((n, e))) => {
            assert(any_carries(one, names[m]));
            assert(any_carries(other, names[n]));
            if m < n {
                assert(any_carries(other, names[m]));
            } else if n < m {
                assert(any_carries(one, names[n]));
            }
        },
        (Some((m, d)), None) => {
            assert(any_carries(one, names[m]));
            assert(any_carries(other, names[m]));
        },
        (None, Some((n, e))) => {
            assert(any_carries(other, names[n]));
            assert(any_carries(one, names[n]));
        },
        (None, None) => {},
    }
}

/// The index of the first of `dirs` that is `name`.
fn find_carrier(dirs: &[SensorDir], name: &[char]) -> (r: Option<usize>)
    ensures
        match r {
            Some(d) => first_carrier(dirs@, name@) == Some(d as int) && d < dirs.len(),
            None => first_carrier(dirs@, name@) is None,
        },
{
    let mut d: usize = 0;
    while d < dirs.len()
        invariant
            d <= dirs.len(),
            first_carrier(dirs@.take(d as int), name@) is None,
        decreases dirs.len() - d,
    {
        assert(dirs@.take(d + 1).drop_last() == dirs@.take(d as int));
        let is_it = match &dirs[d].label {
            Some(l) => {
                let label = chars_of(l.as_str());
                let stripped = strip_final_newline(label.as_slice());
                same_chars(stripped.as_slice(), name)
            },
            None => false,
        };
        if is_it {
            proof {
                lemma_carrier_stays(dirs@, name@, d + 1);
            }
            return Some(d);
        }
        d += 1;
    }
    assert(dirs@.take(dirs.len() as int) == dirs@);
    None
}

/// A directory found among the first `k` stays the one found among all.
proof fn lemma_carrier_stays(dirs: Seq<SensorDir>, name: Seq<char>, k: int)
    requires
        0 <= k <= dirs.len(),
        first_carrier(dirs.take(k), name) is Some,
    ensures
        first_carrier(dirs, name) == first_carrier(dirs.take(k), name),
    decreases dirs.len() - k,
{
    if k == dirs.len() {
        assert(dirs.take(k) == dirs);
    } else {
        assert(dirs.drop_last().take(k) == dirs.take(k));
        lemma_carrier_stays(dirs.drop_last(), name, k);
    }
}

/// Looks among `dirs` for a sensor with one of the names `names`, which are
/// in the order of their priority, and gives the name that was found and the
/// path of `file` in the directory that is it.
pub fn search_for_sensor<'n>(names: &[&'n str], dirs: &[SensorDir], file: &str) -> (r: Option<
    (&'n str, String),
>)
    ensures
        match r {
            Some((name, path)) => located(texts(names@), dirs@) matches Some((m, d)) && name@
                == names@[m]@ && path@ == joined(dirs@[d].path@, file@),
            None => located(texts(names@), dirs@) is None,
        },
{
    let mut n: usize = 0;
    while n < names.len()
        invariant
            n <= names.len(),
            located(texts(names@), dirs@) == located_from(texts(names@), dirs@, n as int),
        decreases names.len() - n,
    {
        let name = chars_of(names[n]);
        match find_carrier(dirs, name.as_slice()) {
            Some(d) => {
                return Some((names[n], join_path(dirs[d].path.as_str(), file)));
            },
            None => {},
        }
        n += 1;
    }
    None
}

/// Looks for a hwmon with one of the given names, which are in the order of
/// their priority, and gives the path of its `temp1_input`.
pub fn search_for_hwmons<'n>(names: &[&'n str], hwmons: &[SensorDir]) -> (r: Option<
    (&'n str, String),
>)
    ensures
        match r {
            Some((name, path)) => located(texts(names@), hwmons@) matches Some((m, d)) && name@
                == names@[m]@ && path@ == joined(hwmons@[d].path@, "temp1_input"@),
            None => located(texts(names@), hwmons@) is None,
        },
{
    search_for_sensor(names, hwmons, "temp1_input")
}

/// Looks for a thermal zone with one of the given types, which are in the
/// order of their priority, and gives the path of its `temp`.
pub fn search_for_thermal_zones<'n>(types: &[&'n str], zones: &[SensorDir]) -> (r: Option<
    (&'n str, String),
>)
    ensures
        match r {
            Some((name, path)) => located(texts(types@), zones@) matches Some((m, d)) && name@
                == types@[m]@ && path@ == joined(zones@[d].path@, "temp"@),
            None => located(texts(types@), zones@) is None,
        },
{
    search_for_sensor(types, zones, "temp")
}

/// The names of the hwmons that measure the CPU, in the order of their
/// priority.
pub open spec fn known_hwmons() -> Seq<Seq<char>> {
    seq!["zenpower"@, "coretemp"@, "k10temp"@]
}

/// The types of the thermal zones that measure the CPU, in the order of
/// their priority.
pub open spec fn known_thermal_zones() -> Seq<Seq<char>> {
    seq!["x86_pkg_temp"@, "acpitz"@]
}

/// The path of the file that holds the temperature of the CPU: that of the
/// hwmon found for the known names, or else that of the thermal zone found
/// for the known types.
pub open spec fn sensor_path(hwmons: Seq<SensorDir>, zones: Seq<SensorDir>) -> Option<Seq<char>> {
    match located(known_hwmons(), hwmons) {
        Some((_, d)) => Some(joined(hwmons[d].path@, "temp1_input"@)),
        None => match located(known_thermal_zones(), zones) {
            Some((_, d)) => Some(joined(zones[d].path@, "temp"@)),
            None => None,
        },
    }
}

/// Where a hwmon is `zenpower`, the sensor of the CPU is the first such
/// hwmon, wherever it stands among the others and whatever they are.
pub proof fn lemma_zenpower_first(hwmons: Seq<SensorDir>, zones: Seq<SensorDir>)
    requires
        exists|d: int| 0 <= d < hwmons.len() && carries(#[trigger] hwmons[d], "zenpower"@),
    ensures
        first_carrier(hwmons, "zenpower"@) matches Some(d) && carries(hwmons[d], "zenpower"@)
            && sensor_path(hwmons, zones) == Some(joined(hwmons[d].path@, "temp1_input"@)),
{
    lemma_first_carrier(hwmons, "zenpower"@);
}

/// Finds the file that holds the temperature of the CPU among the hwmons
/// and thermal zones of the machine.
pub fn cpu_temperature_path(hwmons: &[SensorDir], zones: &[SensorDir]) -> (r: Option<String>)
    ensures
        text_of(r) == sensor_path(hwmons@, zones@),
{
    let names: Vec<&'static str> = vec!["zenpower", "coretemp", "k10temp"];
    let types: Vec<&'static str> = vec!["x86_pkg_temp", "acpitz"];
    assert(texts(names@) =~= known_hwmons());
    assert(texts(types@) =~= known_thermal_zones());
    match search_for_hwmons(names.as_slice(), hwmons) {
        Some((_, path)) => Some(path),
        None => match search_for_thermal_zones(types.as_slice(), zones) {
            Some((_, path)) => Some(path),
            None => None,
        },
    }
}

} // verus!
