//! The CPU: its identity as `lscpu` prints it, its time counters from
//! `/proc/stat`, its frequency and the sensor of its temperature.

use crate::error::{at_path, FileError, SensorError};
use crate::number::{
    fixed_point_value, is_numeral, numeral_value, parse_millionths, parse_numeral, parse_usize,
    unsigned_value, within,
};
use crate::sysfs::{int_reading, parse_sysfs_int, scaled, Scaled};
use crate::text::{
    after_digits, after_spaces, chars_of, end_of_line, find, find_first,
    lemma_first_of_bounds, line_end, occurs_at, replace_all, replaced,
    skip_digits, skip_spaces, slice_of, slice_text, stands_at, string_of, text_of,
    strip_final_newline, without_final_newline,
};
use vstd::utf8::{decode_utf8, valid_utf8};
use vstd::prelude::*;

verus! {

/// What `lscpu` tells of the processor. A field is `None` where `lscpu` did
/// not print it or printed what cannot be read.
#[derive(Debug, Clone, PartialEq, Eq)]
pub struct CpuInfo {
    pub model_name: Option<String>,
    pub architecture: Option<String>,
    pub logical_cpus: Option<usize>,
    pub physical_cpus: Option<usize>,
    pub sockets: Option<usize>,
    pub virtualization: Option<String>,
    /// The highest clock speed, in Hz.
    pub max_speed: Option<u64>,
}

/// A `CpuInfo` with its strings as sequences of characters.
pub struct CpuInfoView {
    pub model_name: Option<Seq<char>>,
    pub architecture: Option<Seq<char>>,
    pub logical_cpus: Option<usize>,
    pub physical_cpus: Option<usize>,
    pub sockets: Option<usize>,
    pub virtualization: Option<Seq<char>>,
    pub max_speed: Option<u64>,
}

impl View for CpuInfo {
    type V = CpuInfoView;

    open spec fn view(&self) -> CpuInfoView {
        CpuInfoView {
            model_name: text_of(self.model_name),
            architecture: text_of(self.architecture),
            logical_cpus: self.logical_cpus,
            physical_cpus: self.physical_cpus,
            sockets: self.sockets,
            virtualization: text_of(self.virtualization),
            max_speed: self.max_speed,
        }
    }
}

impl Default for CpuInfo {
    fn default() -> (r: Self)
        ensures
            r@ == (CpuInfoView {
                model_name: None,
                architecture: None,
                logical_cpus: None,
                physical_cpus: None,
                sockets: None,
                virtualization: None,
                max_speed: None,
            }),
    {
        CpuInfo {
            model_name: None,
            architecture: None,
            logical_cpus: None,
            physical_cpus: None,
            sockets: None,
            virtualization: None,
            max_speed: None,
        }
    }
}

/// `s` with the registered sign for each `(R)` and the trade mark sign for
/// each `(tm)` and `(TM)`.
pub open spec fn trade_marked(s: Seq<char>) -> Seq<char> {
    replaced(
        replaced(replaced(s, "(R)"@, seq!['\u{ae}']), "(tm)"@, seq!['\u{2122}']),
        "(TM)"@,
        seq!['\u{2122}'],
    )
}

/// What follows the first occurrence of `key` in `text`: white space is
/// passed over, line feeds too, and the value runs from there to the end of
/// its line. `None` where `key` does not occur.
pub open spec fn value_after(text: Seq<char>, key: Seq<char>) -> Option<Seq<char>> {
    match find(text, key) {
        Some(at) => {
            let start = skip_spaces(text, at + key.len());
            Some(text.subrange(start, line_end(text, start)))
        },
        None => None,
    }
}

/// The value after `key` read as a count.
pub open spec fn count_after(text: Seq<char>, key: Seq<char>) -> Option<usize> {
    match value_after(text, key) {
        Some(v) => match within(unsigned_value(v, 10), usize::MAX as nat) {
            Some(n) => Some(n as usize),
            None => None,
        },
        None => None,
    }
}

/// The product of `a` and `b`, or the largest `usize` where it is greater.
pub open spec fn saturating_product(a: usize, b: usize) -> usize {
    if a * b <= usize::MAX {
        (a * b) as usize
    } else {
        usize::MAX
    }
}

/// The number of sockets that the cores are counted for: the number that
/// is given, but one at least, and one where none is given.
pub open spec fn sockets_counted(sockets: Option<usize>) -> usize {
    match sockets {
        Some(s) => if s == 0 {
            1
        } else {
            s
        },
        None => 1,
    }
}

/// The number of cores: those of one socket times the number of sockets,
/// which is taken as one at least.
pub open spec fn physical_count(cores: Option<usize>, sockets: Option<usize>) -> Option<usize> {
    match cores {
        Some(c) => Some(saturating_product(c, sockets_counted(sockets))),
        None => None,
    }
}

/// The value after `key` read as a number of MHz, in Hz.
pub open spec fn hertz_after(text: Seq<char>, key: Seq<char>) -> Option<u64> {
    match value_after(text, key) {
        Some(v) => match within(fixed_point_value(v, 6), u64::MAX as nat) {
            Some(n) => Some(n as u64),
            None => None,
        },
        None => None,
    }
}

/// What the output `text` of `lscpu` tells of the processor.
pub open spec fn lscpu_info(text: Seq<char>) -> CpuInfoView {
    CpuInfoView {
        model_name: match value_after(text, "Model name:"@) {
            Some(v) => Some(trade_marked(v)),
            None => None,
        },
        architecture: value_after(text, "Architecture:"@),
        logical_cpus: count_after(text, "CPU(s):"@),
        physical_cpus: physical_count(
            count_after(text, "Core(s) per socket:"@),
            count_after(text, "Socket(s):"@),
        ),
        sockets: count_after(text, "Socket(s):"@),
        virtualization: value_after(text, "Virtualization:"@),
        max_speed: hertz_after(text, "CPU max MHz:"@),
    }
}

/// Where `lscpu` gives `cores` cores for each socket and `sockets` sockets,
/// one socket at least, the number of cores is their product, or the largest
/// `usize` where the product is greater.
pub proof fn lemma_physical_cpus(text: Seq<char>, cores: usize, sockets: usize)
    requires
        count_after(text, "Core(s) per socket:"@) == Some(cores),
        count_after(text, "Socket(s):"@) == Some(sockets),
        sockets >= 1,
    ensures
        lscpu_info(text).physical_cpus == Some(saturating_product(cores, sockets)),
        cores * sockets <= usize::MAX ==> lscpu_info(text).physical_cpus == Some(
            (cores * sockets) as usize,
        ),
        cores * sockets > usize::MAX ==> lscpu_info(text).physical_cpus == Some(usize::MAX),
{
}

/// Whatever number of sockets `lscpu` gives, or none, the cores of one
/// socket are multiplied by that number or by one, whichever is greater:
/// with no socket, or none given, the number of cores is that of one socket.
pub proof fn lemma_physical_cpus_max(text: Seq<char>, cores: usize)
    requires
        count_after(text, "Core(s) per socket:"@) == Some(cores),
    ensures
        lscpu_info(text).physical_cpus == Some(
            saturating_product(cores, sockets_counted(lscpu_info(text).sockets)),
        ),
        sockets_counted(lscpu_info(text).sockets) >= 1,
        lscpu_info(text).sockets == Some(0usize) || lscpu_info(text).sockets is None
            ==> lscpu_info(text).physical_cpus == Some(cores),
{
}

/// Puts the registered sign in place of `(R)` and the trade mark sign in
/// place of `(tm)` and `(TM)`.
pub fn trade_mark_symbols(s: &str) -> (r: String)
    ensures
        r@ == trade_marked(s@),
{
    let text = chars_of(s);
    let registered = chars_of("(R)");
    let lower = chars_of("(tm)");
    let upper = chars_of("(TM)");
    let mut reg_sign: Vec<char> = Vec::new();
    reg_sign.push('\u{ae}');
    let mut tm_sign: Vec<char> = Vec::new();
    tm_sign.push('\u{2122}');
    proof {
        reveal_strlit("(R)");
        reveal_strlit("(tm)");
        reveal_strlit("(TM)");
    }
    let a = replace_all(text.as_slice(), registered.as_slice(), reg_sign.as_slice());
    let b = replace_all(a.as_slice(), lower.as_slice(), tm_sign.as_slice());
    let c = replace_all(b.as_slice(), upper.as_slice(), tm_sign.as_slice());
    string_of(c.as_slice())
}

/// The value that follows the first occurrence of `key` in `text`.
pub fn field_after(text: &[char], key: &str) -> (r: Option<Vec<char>>)
    ensures
        match r {
            Some(v) => value_after(text@, key@) == Some(v@),
            None => value_after(text@, key@) is None,
        },
{
    let key_chars = chars_of(key);
    match find_first(text, key_chars.as_slice()) {
        Some(at) => {
            let start = after_spaces(text, at + key_chars.len());
            let end = end_of_line(text, start);
            Some(slice_of(text, start, end))
        },
        None => None,
    }
}

/// The string of an optional run of characters.
fn optional_string(v: &Option<Vec<char>>) -> (r: Option<String>)
    ensures
        match r {
            Some(s) => *v matches Some(c) && s@ == c@,
            None => *v is None,
        },
{
    match v {
        Some(c) => Some(string_of(c.as_slice())),
        None => None,
    }
}

/// The count that an optional run of characters spells.
fn optional_count(v: &Option<Vec<char>>) -> (r: Option<usize>)
    ensures
        r == match *v {
            Some(c) => match within(unsigned_value(c@, 10), usize::MAX as nat) {
                Some(n) => Some(n as usize),
                None => None,
            },
            None => None,
        },
{
    match v {
        Some(c) => parse_usize(c.as_slice()),
        None => None,
    }
}

/// Reads the output of `lscpu`. Each field is looked for by itself: one that
/// is missing or cannot be read is `None` and leaves the others as they are.
pub fn parse_lscpu(lscpu_output: &str) -> (info: CpuInfo)
    ensures
        info@ == lscpu_info(lscpu_output@),
{
    let text = chars_of(lscpu_output);
    let text = text.as_slice();
    let model_name = match field_after(text, "Model name:") {
        Some(v) => {
            let raw = string_of(v.as_slice());
            Some(trade_mark_symbols(raw.as_str()))
        },
        None => None,
    };
    let architecture = optional_string(&field_after(text, "Architecture:"));
    let sockets = optional_count(&field_after(text, "Socket(s):"));
    let logical_cpus = optional_count(&field_after(text, "CPU(s):"));
    let physical_cpus = match optional_count(&field_after(text, "Core(s) per socket:")) {
        Some(cores) => {
            let per: usize = match sockets {
                Some(s) => if s == 0 {
                    1
                } else {
                    s
                },
                None => 1,
            };
            match cores.checked_mul(per) {
                Some(n) => Some(n),
                None => Some(usize::MAX),
            }
        },
        None => None,
    };
    let virtualization = optional_string(&field_after(text, "Virtualization:"));
    let max_speed = match field_after(text, "CPU max MHz:") {
        Some(v) => parse_millionths(v.as_slice()),
        None => None,
    };
    CpuInfo {
        model_name,
        architecture,
        logical_cpus,
        physical_cpus,
        sockets,
        virtualization,
        max_speed,
    }
}

/// Where the `k`-th of the fields of `line` ends, the fields being counted
/// from one and the first of them looked for from `first` on: a field is a
/// run of digits, as long as it can be, and white space parts it from what
/// stands before it. For `k == 0` this is `first`.
pub open spec fn field_end(line: Seq<char>, first: int, k: nat) -> int
    decreases k,
{
    if k == 0 {
        first
    } else {
        skip_digits(line, skip_spaces(line, field_end(line, first, (k - 1) as nat)))
    }
}

/// Where the counters of a line of `/proc/stat` begin: behind the first
/// `cpu` and the digits that follow it. `None` where the line holds no `cpu`.
pub open spec fn counters_start(line: Seq<char>) -> Option<int> {
    match find(line, "cpu"@) {
        Some(at) => Some(skip_digits(line, at + 3)),
        None => None,
    }
}

/// The `k`-th counter of the line, counted from zero, as it is written.
pub open spec fn counter_text(line: Seq<char>, k: nat) -> Seq<char> {
    let first = counters_start(line).unwrap_or(0);
    line.subrange(skip_spaces(line, field_end(line, first, k)), field_end(line, first, k + 1))
}

/// The `k`-th counter of the line: `None` where it is missing or does not
/// fit in 64 bits.
pub open spec fn counter(line: Seq<char>, k: nat) -> Option<u64> {
    let t = counter_text(line, k);
    if is_numeral(t, 10) && numeral_value(t, 10) <= u64::MAX {
        Some(numeral_value(t, 10) as u64)
    } else {
        None
    }
}

/// Whether the line has the shape of a CPU line of `/proc/stat`: `cpu`, and
/// after it ten counters that are numbers.
pub open spec fn is_stat_line(line: Seq<char>) -> bool {
    &&& counters_start(line) is Some
    &&& forall|k: nat| k < 10 ==> (#[trigger] counter(line, k)) is Some
}

/// The sum of the first `n` counters of the line.
pub open spec fn counters_sum(line: Seq<char>, n: nat) -> nat
    decreases n,
{
    if n == 0 {
        0
    } else {
        counters_sum(line, (n - 1) as nat) + counter(line, (n - 1) as nat).unwrap_or(0) as nat
    }
}

/// `n`, or the largest `u64` where `n` is greater.
pub open spec fn saturated(n: nat) -> u64 {
    if n <= u64::MAX {
        n as u64
    } else {
        u64::MAX
    }
}

/// The idle time and the total time that a CPU line of `/proc/stat` tells.
/// The ten counters are user, nice, system, idle, iowait, irq, softirq,
/// steal, guest and guest_nice; idle and iowait make up the idle time, all
/// ten the total time. A sum that does not fit in 64 bits is the largest
/// `u64`.
pub open spec fn stat_times(line: Seq<char>) -> Result<(u64, u64), SensorError> {
    if is_stat_line(line) {
        Ok(
            (
                saturated((counter(line, 3).unwrap() + counter(line, 4).unwrap()) as nat),
                saturated(counters_sum(line, 10)),
            ),
        )
    } else {
        Err(SensorError::Parse)
    }
}

/// For a line with ten counters that are numbers, the idle time is the sum
/// of the counters idle and iowait and the total time is the sum of all ten,
/// as far as the sums fit in 64 bits.
pub proof fn lemma_stat_times(line: Seq<char>)
    requires
        is_stat_line(line),
    ensures
        counters_sum(line, 10) == counter(line, 0).unwrap() + counter(line, 1).unwrap() + counter(
            line,
            2,
        ).unwrap() + counter(line, 3).unwrap() + counter(line, 4).unwrap() + counter(
            line,
            5,
        ).unwrap() + counter(line, 6).unwrap() + counter(line, 7).unwrap() + counter(
            line,
            8,
        ).unwrap() + counter(line, 9).unwrap(),
        stat_times(line) matches Ok((idle, total)) && ({
            &&& counter(line, 3).unwrap() + counter(line, 4).unwrap() <= u64::MAX ==> idle
                == counter(line, 3).unwrap() + counter(line, 4).unwrap()
            &&& counters_sum(line, 10) <= u64::MAX ==> total == counters_sum(line, 10)
        }),
{
    reveal_with_fuel(counters_sum, 11);
}

/// Reads one CPU line of `/proc/stat` and gives its idle time and its total
/// time, in ticks.
pub fn parse_proc_stat_line(line: &str) -> (r: Result<(u64, u64), SensorError>)
    ensures
        r == stat_times(line@),
{
    let chars = chars_of(line);
    let text = chars.as_slice();
    let cpu = chars_of("cpu");
    proof {
        reveal_strlit("cpu");
    }
    let first: usize = match find_first(text, cpu.as_slice()) {
        Some(at) => after_digits(text, at + 3),
        None => {
            return Err(SensorError::Parse);
        },
    };
    let mut pos: usize = first;
    let mut idle: u64 = 0;
    let mut total: u64 = 0;
    let mut k: usize = 0;
    while k < 10
        invariant
            k <= 10,
            text@ == line@,
            counters_start(line@) == Some(first as int),
            first <= pos <= text.len(),
            pos == field_end(line@, first as int, k as nat),
            forall|j: nat| j < k ==> (#[trigger] counter(line@, j)) is Some,
            total == saturated(counters_sum(line@, k as nat)),
            k <= 3 ==> idle == 0,
            k == 4 ==> idle == counter(line@, 3).unwrap(),
            k >= 5 ==> idle == saturated(
                (counter(line@, 3).unwrap() + counter(line@, 4).unwrap()) as nat,
            ),
        decreases 10 - k,
    {
        let start = after_spaces(text, pos);
        let end = after_digits(text, start);
        let value: u64 = match parse_numeral(text, start, end, 10, u64::MAX) {
            Some(v) => v,
            None => {
                return Err(SensorError::Parse);
            },
        };
        assert(counter(line@, k as nat) == Some(value));
        if k == 3 || k == 4 {
            idle = idle.saturating_add(value);
        }
        total = total.saturating_add(value);
        pos = end;
        k += 1;
    }
    Ok((idle, total))
}

/// The lines of `text` from index `from` on that begin with `cpu`, in
/// order. Lines end at a line feed; what follows the last line feed is a
/// line too.
pub open spec fn cpu_lines_from(text: Seq<char>, from: int) -> Seq<Seq<char>>
    decreases text.len() - from,
{
    if from < 0 || from > text.len() {
        Seq::empty()
    } else {
        let end = line_end(text, from);
        let line = text.subrange(from, end);
        let head = if occurs_at(line, "cpu"@, 0) {
            seq![line]
        } else {
            Seq::empty()
        };
        if from <= end < text.len() {
            head + cpu_lines_from(text, end + 1)
        } else {
            head
        }
    }
}

/// The lines of `text` that begin with `cpu`, in order.
pub open spec fn cpu_lines(text: Seq<char>) -> Seq<Seq<char>> {
    cpu_lines_from(text, 0)
}

/// The place among the CPU lines of the line asked for: the first line tells
/// of all cores together, the lines after it of one core each.
pub open spec fn selected_line(core: Option<usize>) -> int {
    match core {
        Some(c) => c + 1,
        None => 0,
    }
}

/// The CPU line of `/proc/stat` for `core`, or for all cores together.
pub open spec fn proc_stat_line(text: Seq<char>, core: Option<usize>) -> Result<
    Seq<char>,
    SensorError,
> {
    if selected_line(core) < cpu_lines(text).len() {
        Ok(cpu_lines(text)[selected_line(core)])
    } else {
        Err(SensorError::OutOfRange)
    }
}

/// A core whose number is not less than the number of CPU lines is out of
/// range: there is no line for it.
pub proof fn lemma_core_out_of_range(text: Seq<char>, core: usize)
    requires
        core >= cpu_lines(text).len(),
    ensures
        proc_stat_line(text, Some(core)) == Err::<Seq<char>, SensorError>(SensorError::OutOfRange),
{
}

/// There are no more lines than characters and one.
pub proof fn lemma_cpu_lines_len(text: Seq<char>, from: int)
    requires
        0 <= from <= text.len(),
    ensures
        cpu_lines_from(text, from).len() <= text.len() - from + 1,
    decreases text.len() - from,
{
    lemma_first_of_bounds(text, '\n', from);
    let end = line_end(text, from);
    if end < text.len() {
        lemma_cpu_lines_len(text, end + 1);
    }
}

/// Picks from the text of `/proc/stat` the CPU line of `core`, or with
/// `None` that of all cores together.
pub fn get_proc_stat(proc_stat: &str, core: Option<usize>) -> (r: Result<String, SensorError>)
    ensures
        match r {
            Ok(line) => proc_stat_line(proc_stat@, core) == Ok::<Seq<char>, SensorError>(line@),
            Err(e) => proc_stat_line(proc_stat@, core) == Err::<Seq<char>, SensorError>(e),
        },
{
    let chars = chars_of(proc_stat);
    let text = chars.as_slice();
    let cpu = chars_of("cpu");
    proof {
        lemma_cpu_lines_len(text@, 0);
    }
    let wanted: usize = match core {
        Some(c) => {
            if c >= text.len() {
                return Err(SensorError::OutOfRange);
            }
            c + 1
        },
        None => 0,
    };
    let mut seen: usize = 0;
    let mut from: usize = 0;
    loop
        invariant
            text@ == proc_stat@,
            cpu@ == "cpu"@,
            wanted == selected_line(core),
            from <= text.len(),
            seen <= wanted,
            cpu_lines_from(text@, from as int).len() + seen == cpu_lines(text@).len(),
            wanted - seen < cpu_lines_from(text@, from as int).len() ==> cpu_lines(
                text@,
            )[wanted as int] == cpu_lines_from(text@, from as int)[wanted - seen],
        decreases text.len() - from,
    {
        let end = end_of_line(text, from);
        let line = slice_of(text, from, end);
        if stands_at(line.as_slice(), cpu.as_slice(), 0) {
            if seen == wanted {
                return Ok(string_of(line.as_slice()));
            }
            seen += 1;
        }
        if end >= text.len() {
            return Err(SensorError::OutOfRange);
        }
        from = end + 1;
    }
}

/// The idle time and the total time, in ticks since the machine started, of
/// `core`, or with `None` of all cores together, from the text of
/// `/proc/stat`. Differences between two readings are left to the caller.
pub fn get_cpu_usage(proc_stat: &str, core: Option<usize>) -> (r: Result<(u64, u64), SensorError>)
    ensures
        r == match proc_stat_line(proc_stat@, core) {
            Ok(line) => stat_times(line),
            Err(e) => Err(e),
        },
        selected_line(core) >= cpu_lines(proc_stat@).len() ==> r == Err::<(u64, u64), SensorError>(
            SensorError::OutOfRange,
        ),
{
    match get_proc_stat(proc_stat, core) {
        Ok(line) => parse_proc_stat_line(line.as_str()),
        Err(e) => Err(e),
    }
}

/// `String::from_utf8` gives the text that the bytes encode in UTF-8, and
/// fails exactly where they encode none.
#[verifier::external_body]
fn decode(bytes: Vec<u8>) -> (r: Option<String>)
    ensures
        r is Some <==> valid_utf8(bytes@),
        r matches Some(s) ==> s@ == decode_utf8(bytes@),
{
    String::from_utf8(bytes).ok()
}

/// What the bytes that `lscpu` wrote tell of the processor. They must be
/// text in UTF-8.
pub fn cpu_info(output: Vec<u8>) -> (r: Result<CpuInfo, SensorError>)
    ensures
        match r {
            Ok(info) => valid_utf8(output@) && info@ == lscpu_info(decode_utf8(output@)),
            Err(e) => e == SensorError::Encoding && !valid_utf8(output@),
        },
{
    match decode(output) {
        Some(text) => Ok(parse_lscpu(text.as_str())),
        None => Err(SensorError::Encoding),
    }
}

/// The frequency in Hz that the text of `scaling_cur_freq` gives, which
/// counts kHz; the line feed at the end of the text is left out. `None`
/// stands for a file that could not be read.
pub open spec fn freq_reading(text: Option<Seq<char>>) -> Result<u64, SensorError> {
    match text {
        Some(t) => match within(unsigned_value(without_final_newline(t), 10), u64::MAX as nat) {
            Some(khz) => if khz * 1000 <= u64::MAX {
                Ok((khz * 1000) as u64)
            } else {
                Err(SensorError::Parse)
            },
            None => Err(SensorError::Parse),
        },
        None => Err(SensorError::Unreadable),
    }
}

/// The frequency of a core in Hz, from the text of its `scaling_cur_freq`.
pub fn parse_cpu_freq(text: Option<&str>) -> (r: Result<u64, SensorError>)
    ensures
        r == freq_reading(slice_text(text)),
{
    match text {
        Some(t) => {
            let chars = chars_of(t);
            let stripped = strip_final_newline(chars.as_slice());
            match crate::number::parse_u64(stripped.as_slice()) {
                Some(khz) => match khz.checked_mul(1000) {
                    Some(hz) => Ok(hz),
                    None => Err(SensorError::Parse),
                },
                None => Err(SensorError::Parse),
            }
        },
        None => Err(SensorError::Unreadable),
    }
}

/// The frequency of a core in Hz, from its `scaling_cur_freq` at `path`,
/// whose text is `text`. A failure carries the path.
pub fn get_cpu_freq(path: &str, text: Option<&str>) -> (r: Result<u64, FileError>)
    ensures
        at_path(r, freq_reading(slice_text(text)), Some(path@)),
{
    match parse_cpu_freq(text) {
        Ok(hz) => Ok(hz),
        Err(kind) => Err(FileError { kind, path: Some(String::from_str(path)) }),
    }
}

/// The temperature that the sensor file at `path` gives, whose text is
/// `text` and counts thousandths of a degree Celsius. A failure carries the
/// path.
pub fn read_sysfs_thermal(path: &str, text: Option<&str>) -> (r: Result<Scaled, FileError>)
    ensures
        at_path(r, scaled(int_reading(slice_text(text)), 1000), Some(path@)),
{
    match parse_sysfs_int(text) {
        Ok(v) => Ok(Scaled { raw: v, per_unit: 1000 }),
        Err(kind) => Err(FileError { kind, path: Some(String::from_str(path)) }),
    }
}

/// The temperature of the CPU: that of the sensor at `sensor`, whose file
/// holds `text`; without a sensor there is none.
pub open spec fn temperature_reading(sensor: Option<String>, text: Option<Seq<char>>) -> Result<
    Scaled,
    SensorError,
> {
    match sensor {
        Some(_) => scaled(int_reading(text), 1000),
        None => Err(SensorError::NoSensor),
    }
}

/// The temperature of the CPU. `sensor` is the path of the sensor that was
/// found, if any, and `text` what was read from it. A failure to read the
/// sensor carries its path.
pub fn get_temperature(sensor: &Option<String>, text: Option<&str>) -> (r: Result<
    Scaled,
    FileError,
>)
    ensures
        at_path(r, temperature_reading(*sensor, slice_text(text)), text_of(*sensor)),
{
    match sensor {
        Some(path) => read_sysfs_thermal(path.as_str(), text),
        None => Err(FileError { kind: SensorError::NoSensor, path: None }),
    }
}

/// What was read for one sample of the CPU: the text of `/proc/stat`, that
/// of the file of the temperature sensor, and for each core in turn that of
/// its `scaling_cur_freq`. `None` stands for a file that could not be read.
#[derive(Debug, Clone, PartialEq, Eq)]
pub struct CpuFiles {
    pub proc_stat: Option<String>,
    pub temperature: Option<String>,
    pub frequencies: Vec<Option<String>>,
}

/// One sample of the CPU: idle and total time of all cores together and of
/// each core, in ticks since the machine started; the temperature; and the
/// frequency of each core in Hz.
#[derive(Debug)]
pub struct CpuData {
    pub new_total_usage: (u64, u64),
    pub new_thread_usages: Vec<(u64, u64)>,
    pub temperature: Result<Scaled, FileError>,
    pub frequencies: Vec<Option<u64>>,
}

/// The times of `core` from the text of `/proc/stat`, or zeros where they
/// cannot be had.
pub open spec fn usage_or_zero(proc_stat: Option<String>, core: Option<usize>) -> (u64, u64) {
    match proc_stat {
        Some(text) => match proc_stat_line(text@, core) {
            Ok(line) => match stat_times(line) {
                Ok(times) => times,
                Err(_) => (0, 0),
            },
            Err(_) => (0, 0),
        },
        None => (0, 0),
    }
}

/// The frequency of the core `i` in Hz, where it can be had.
pub open spec fn core_frequency(files: &CpuFiles, i: int) -> Option<u64> {
    if 0 <= i < files.frequencies.len() {
        match freq_reading(text_of(files.frequencies[i])) {
            Ok(hz) => Some(hz),
            Err(_) => None,
        }
    } else {
        None
    }
}

/// The times of `core`, or zeros.
fn usage_or_default(proc_stat: &Option<String>, core: Option<usize>) -> (r: (u64, u64))
    ensures
        r == usage_or_zero(*proc_stat, core),
{
    match proc_stat {
        Some(text) => match get_cpu_usage(text.as_str(), core) {
            Ok(times) => times,
            Err(_) => (0, 0),
        },
        None => (0, 0),
    }
}

impl CpuData {
    /// Takes one sample of a CPU of `logical_cpus` cores. `sensor` is the
    /// path of the temperature sensor that was found, if any. What cannot be
    /// had for one core leaves the rest of the sample as it is: its times are
    /// zeros and its frequency is `None`.
    pub fn new(logical_cpus: usize, sensor: &Option<String>, files: &CpuFiles) -> (r: Self)
        ensures
            r.new_total_usage == usage_or_zero(files.proc_stat, None),
            at_path(
                r.temperature,
                temperature_reading(*sensor, text_of(files.temperature)),
                text_of(*sensor),
            ),
            r.new_thread_usages@.len() == logical_cpus,
            r.frequencies@.len() == logical_cpus,
            forall|i: int|
                0 <= i < logical_cpus ==> #[trigger] r.new_thread_usages@[i] == usage_or_zero(
                    files.proc_stat,
                    Some(i as usize),
                ),
            forall|i: int|
                0 <= i < logical_cpus ==> #[trigger] r.frequencies@[i] == core_frequency(files, i),
    {
        let new_total_usage = usage_or_default(&files.proc_stat, None);
        let temperature = match &files.temperature {
            Some(t) => get_temperature(sensor, Some(t.as_str())),
            None => get_temperature(sensor, None),
        };
        let mut frequencies: Vec<Option<u64>> = Vec::new();
        let mut new_thread_usages: Vec<(u64, u64)> = Vec::new();
        let mut i: usize = 0;
        while i < logical_cpus
            invariant
                i <= logical_cpus,
                new_thread_usages@.len() == i,
                frequencies@.len() == i,
                forall|j: int|
                    0 <= j < i ==> #[trigger] new_thread_usages@[j] == usage_or_zero(
                        files.proc_stat,
                        Some(j as usize),
                    ),
                forall|j: int|
                    0 <= j < i ==> #[trigger] frequencies@[j] == core_frequency(files, j),
            decreases logical_cpus - i,
        {
            new_thread_usages.push(usage_or_default(&files.proc_stat, Some(i)));
            let freq = if i < files.frequencies.len() {
                match &files.frequencies[i] {
                    Some(t) => parse_cpu_freq(Some(t.as_str())),
                    None => parse_cpu_freq(None),
                }
            } else {
                Err(SensorError::Unreadable)
            };
            frequencies.push(freq.ok());
            i += 1;
        }
        CpuData { new_total_usage, new_thread_usages, temperature, frequencies }
    }
}

} // verus!
