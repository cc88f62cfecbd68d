use vstd::prelude::*;
use vstd::string::*;

verus! {

/// A wall-clock instant broken into plain calendar fields, as the filename
/// of a capture uses them.
#[derive(Clone, Copy, PartialEq, Eq, Structural, Debug)]
pub struct Timestamp {
    pub year: i32,
    pub month: u32,
    pub day: u32,
    pub hour: u32,
    pub minute: u32,
    pub second: u32,
}

impl Timestamp {
    /// Calendar-field ranges, with a year that four digits can hold.
    pub open spec fn wf(self) -> bool {
        &&& 0 <= self.year <= 9999
        &&& 1 <= self.month <= 12
        &&& 1 <= self.day <= 31
        &&& self.hour <= 23
        &&& self.minute <= 59
        &&& self.second <= 59
    }

    /// Whether the fields lie in their calendar ranges.
    pub fn is_wf(&self) -> (ok: bool)
        ensures
            ok == self.wf(),
    {
        0 <= self.year && self.year <= 9999 && 1 <= self.month && self.month <= 12 && 1
            <= self.day && self.day <= 31 && self.hour <= 23 && self.minute <= 59 && self.second
            <= 59
    }
}

/// The decimal digit character of `d`.
pub open spec fn digit_char(d: int) -> char {
    if d == 0 {
        '0'
    } else if d == 1 {
        '1'
    } else if d == 2 {
        '2'
    } else if d == 3 {
        '3'
    } else if d == 4 {
        '4'
    } else if d == 5 {
        '5'
    } else if d == 6 {
        '6'
    } else if d == 7 {
        '7'
    } else if d == 8 {
        '8'
    } else {
        '9'
    }
}

/// `v` zero-padded to two decimal digits.
pub open spec fn two_digits(v: int) -> Seq<char> {
    seq![digit_char(v / 10), digit_char(v % 10)]
}

/// `v` zero-padded to four decimal digits.
pub open spec fn four_digits(v: int) -> Seq<char> {
    seq![
        digit_char(v / 1000),
        digit_char((v / 100) % 10),
        digit_char((v / 10) % 10),
        digit_char(v % 10),
    ]
}

/// The timestamp as `YYYYMMDD_HHMMSS`.
pub open spec fn compact_timestamp(ts: Timestamp) -> Seq<char> {
    four_digits(ts.year as int) + two_digits(ts.month as int) + two_digits(ts.day as int)
        + seq!['_'] + two_digits(ts.hour as int) + two_digits(ts.minute as int) + two_digits(
        ts.second as int,
    )
}

fn digit_str(d: u32) -> (s: &'static str)
    requires
        d < 10,
    ensures
        s@ == seq![digit_char(d as int)],
{
    let s: &'static str = match d {
        0 => "0",
        1 => "1",
        2 => "2",
        3 => "3",
        4 => "4",
        5 => "5",
        6 => "6",
        7 => "7",
        8 => "8",
        _ => "9",
    };
    proof {
        reveal_strlit("0");
        reveal_strlit("1");
        reveal_strlit("2");
        reveal_strlit("3");
        reveal_strlit("4");
        reveal_strlit("5");
        reveal_strlit("6");
        reveal_strlit("7");
        reveal_strlit("8");
        reveal_strlit("9");
        assert(s@ =~= seq![digit_char(d as int)]);
    }
    s
}

fn append_two_digits(out: &mut String, v: u32)
    requires
        v < 100,
    ensures
        final(out)@ == old(out)@ + two_digits(v as int),
{
    out.append(digit_str(v / 10));
    out.append(digit_str(v % 10));
    proof {
        assert(final(out)@ =~= old(out)@ + two_digits(v as int));
    }
}

fn append_four_digits(out: &mut String, v: u32)
    requires
        v < 10000,
    ensures
        final(out)@ == old(out)@ + four_digits(v as int),
{
    out.append(digit_str(v / 1000));
    out.append(digit_str((v / 100) % 10));
    out.append(digit_str((v / 10) % 10));
    out.append(digit_str(v % 10));
    proof {
        assert(final(out)@ =~= old(out)@ + four_digits(v as int));
    }
}

/// The timestamp formatted as `YYYYMMDD_HHMMSS`, each field zero-padded.
pub fn format_compact(ts: Timestamp) -> (out: String)
    requires
        ts.wf(),
    ensures
        out@ == compact_timestamp(ts),
{
    let mut out = String::new();
    append_four_digits(&mut out, ts.year as u32);
    append_two_digits(&mut out, ts.month);
    append_two_digits(&mut out, ts.day);
    out.append("_");
    proof {
        reveal_strlit("_");
    }
    append_two_digits(&mut out, ts.hour);
    append_two_digits(&mut out, ts.minute);
    append_two_digits(&mut out, ts.second);
    proof {
        assert(out@ =~= compact_timestamp(ts));
    }
    out
}

/// The name of the image written by a quick capture taken at `ts`.
pub open spec fn capture_file_name(ts: Timestamp) -> Seq<char> {
    "quick_screenshot_"@ + compact_timestamp(ts) + ".png"@
}

/// The capture-kind prefix, the compact timestamp and the `.png` extension.
pub fn screenshot_file_name(ts: Timestamp) -> (name: String)
    requires
        ts.wf(),
    ensures
        name@ == capture_file_name(ts),
{
    let compact = format_compact(ts);
    let name = String::from_str("quick_screenshot_").concat(compact.as_str()).concat(".png");
    proof {
        assert(name@ =~= capture_file_name(ts));
    }
    name
}

/// `name` under `dir`.
pub open spec fn joined_path(dir: Seq<char>, name: Seq<char>) -> Seq<char> {
    dir + "/"@ + name
}

/// The full destination path of a capture taken at `ts` in `dir`, or nothing
/// when the fields of `ts` lie outside their calendar ranges.
pub fn capture_file_path(dir: &str, ts: Timestamp) -> (path: Option<String>)
    ensures
        ts.wf() ==> (path matches Some(p) && p@ == joined_path(dir@, capture_file_name(ts))),
        !ts.wf() ==> path is None,
{
    if ts.is_wf() {
        let name = screenshot_file_name(ts);
        let p = String::from_str(dir).concat("/").concat(name.as_str());
        proof {
            assert(p@ =~= joined_path(dir@, capture_file_name(ts)));
        }
        Some(p)
    } else {
        None
    }
}

/// The dedicated subfolder that captures are collected in.
pub open spec fn capture_subfolder() -> Seq<char> {
    "FootballManagerScreenshots"@
}

/// The capture directory: the dedicated subfolder under the user's document
/// directory, or under the current directory when the environment names
/// none.
pub fn resolve_capture_dir(documents: Option<String>) -> (dir: String)
    ensures
        documents matches Some(d) ==> dir@ == d@ + "/"@ + capture_subfolder(),
        documents is None ==> dir@ == "."@ + "/"@ + capture_subfolder(),
{
    let base = match documents {
        Some(d) => d,
        None => String::from_str("."),
    };
    base.concat("/").concat("FootballManagerScreenshots")
}

/// Relies on `chrono::Local::now` and the `Datelike` / `Timelike` accessors
/// for the current local wall-clock time, split into plain calendar fields.
/// chrono documents the ranges: month 1 to 12, day 1 to 31, hour below 24,
/// minute and second below 60; the year is not bounded, so nothing is
/// promised of it.
#[verifier::external_body]
fn clock_now_fields() -> (ts: Timestamp)
    ensures
        1 <= ts.month <= 12,
        1 <= ts.day <= 31,
        ts.hour <= 23,
        ts.minute <= 59,
        ts.second <= 59,
{
    let now = chrono::Local::now();
    Timestamp {
        year: chrono::Datelike::year(&now),
        month: chrono::Datelike::month(&now),
        day: chrono::Datelike::day(&now),
        hour: chrono::Timelike::hour(&now),
        minute: chrono::Timelike::minute(&now),
        second: chrono::Timelike::second(&now),
    }
}

/// The destination path of a capture taken now in `dir`: the fixed prefix
/// and the current local time, formatted compactly, under `dir`.  Nothing is
/// returned only if the clock reports a year that four digits cannot hold.
pub fn timestamped_capture_path(dir: &str) -> (path: Option<String>)
    ensures
        path matches Some(p) ==> (exists|ts: Timestamp|
            ts.wf() && p@ == joined_path(dir@, capture_file_name(ts))),
{
    let ts = clock_now_fields();
    let path = capture_file_path(dir, ts);
    proof {
        if ts.wf() {
            assert(path matches Some(p) && p@ == joined_path(dir@, capture_file_name(ts)));
        }
    }
    path
}

/// Relies on `dirs::document_dir` for the platform's document directory.
/// The result depends on the environment, so nothing further is promised of
/// it.
#[verifier::external_body]
fn documents_dir_string() -> (dir: Option<String>) {
    dirs::document_dir().map(|p| p.to_string_lossy().into_owned())
}

/// The default capture directory: the dedicated subfolder under the document
/// directory the environment names, or under the current directory.
pub fn default_capture_dir() -> (dir: String)
    ensures
        exists|base: Seq<char>| dir@ == base + "/"@ + capture_subfolder(),
{
    let documents = documents_dir_string();
    let dir = resolve_capture_dir(documents);
    proof {
        if documents is Some {
            assert(dir@ == (documents->0)@ + "/"@ + capture_subfolder());
        } else {
            assert(dir@ == "."@ + "/"@ + capture_subfolder());
        }
    }
    dir
}

} // verus!
