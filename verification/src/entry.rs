//! The record that is written to the consumer for each sample: one line of
//! JSON with the fields `date`, `rate`, `inactive`, `windows` and `desktop`.

use vstd::prelude::*;
use vstd::string::StringExecFns;
use crate::backend::{CaptureState, WindowInfo, WindowInfoView, window_views};
use crate::text::{decimal_string, decimal_text};

verus! {

/// A point in time: seconds since 1970-01-01T00:00:00Z, not counting leap
/// seconds, and the nanoseconds since the last whole second.
#[derive(Debug, Clone, Copy, PartialEq, Eq, Structural)]
pub struct Timestamp {
    pub secs: i64,
    pub nanos: u32,
}

/// The JSON string literal that `serde_json` writes for a text, quotes
/// included.
pub uninterp spec fn json_text(text: Seq<char>) -> Seq<char>;

/// The RFC 3339 text that `chrono` writes for a point in time in UTC, where
/// `chrono` can represent that point.
pub uninterp spec fn rfc3339_text(secs: int, nanos: int) -> Option<Seq<char>>;

/// Calls `serde_json::to_string` on a string slice. The call yields the JSON
/// string literal of the text; it has no way to fail on a string, which is
/// written to memory with escapes for quotes, backslashes and control
/// characters.
#[verifier::external_body]
fn json_string(text: &str) -> (quoted: Result<String, serde_json::Error>)
    ensures
        quoted is Ok,
        quoted->Ok_0@ == json_text(text@),
{
    serde_json::to_string(text)
}

/// Calls `chrono::DateTime::from_timestamp` to turn the two numbers into a
/// point in time, and `to_rfc3339` on it. The first yields a value for every
/// nanosecond of the years 1970 to 9999 (and beyond; only this much is
/// claimed here); the second writes date, time and the offset, and what it
/// writes depends on the point in time alone.
#[verifier::external_body]
fn rfc3339(secs: i64, nanos: u32) -> (date: Option<String>)
    ensures
        date is Some <==> rfc3339_text(secs as int, nanos as int) is Some,
        date is Some ==> date->Some_0@ == rfc3339_text(secs as int, nanos as int)->Some_0,
        0 <= secs < 253_402_300_800 && nanos < 1_000_000_000 ==> date is Some,
{
    match chrono::DateTime::from_timestamp(secs, nanos) {
        Some(moment) => Some(moment.to_rfc3339()),
        None => None,
    }
}

/// The error of `serde_json`.
#[verifier::external_type_specification]
#[verifier::external_body]
pub struct ExJsonError(serde_json::Error);

impl Timestamp {
    /// Whether the point in time lies in the years 1970 to 9999 and its
    /// nanoseconds are less than a second. Every such point can be written
    /// as a date.
    pub open spec fn in_common_era(&self) -> bool {
        0 <= self.secs < 253_402_300_800 && self.nanos < 1_000_000_000
    }

    /// The RFC 3339 text of the point in time, or `None` where it is outside
    /// what can be written.
    pub fn to_rfc3339(&self) -> (date: Option<String>)
        ensures
            date is Some <==> rfc3339_text(self.secs as int, self.nanos as int) is Some,
            date is Some ==> date->Some_0@ == rfc3339_text(
                self.secs as int,
                self.nanos as int,
            )->Some_0,
            self.in_common_era() ==> date is Some,
    {
        rfc3339(self.secs, self.nanos)
    }
}

/// The record of one sample.
#[derive(Debug, Clone, PartialEq, Eq)]
pub struct LogEntry {
    /// The time of the sample, as RFC 3339 text.
    pub date: String,
    /// The sampling interval in milliseconds.
    pub rate: u64,
    /// Reserved; always 0.
    pub inactive: u64,
    pub windows: Vec<WindowInfo>,
    pub desktop: String,
}

/// What a `LogEntry` stands for.
pub ghost struct LogEntryView {
    pub date: Seq<char>,
    pub rate: nat,
    pub inactive: nat,
    pub windows: Seq<WindowInfoView>,
    pub desktop: Seq<char>,
}

impl View for LogEntry {
    type V = LogEntryView;

    open spec fn view(&self) -> LogEntryView {
        LogEntryView {
            date: self.date@,
            rate: self.rate as nat,
            inactive: self.inactive as nat,
            windows: window_views(self.windows@),
            desktop: self.desktop@,
        }
    }
}

/// The largest sampling interval, in seconds, whose milliseconds fit the
/// record's `rate`.
pub const MAX_RATE: u64 = 18_446_744_073_709_551;

/// The record of a snapshot taken at `date` with a sampling interval of
/// `rate` seconds: the interval in milliseconds, `inactive` 0, and the
/// snapshot's windows and desktop.
pub open spec fn entry_of(snapshot: crate::backend::CaptureStateView, date: Seq<char>, rate: nat)
    -> LogEntryView {
    LogEntryView {
        date: date,
        rate: rate * 1000,
        inactive: 0,
        windows: snapshot.windows,
        desktop: snapshot.desktop,
    }
}

/// The JSON text of a truth value.
pub open spec fn bool_text(value: bool) -> Seq<char> {
    if value {
        "true"@
    } else {
        "false"@
    }
}

/// The JSON object of one window whose strings are JSON literals already.
pub open spec fn framed_window(window: WindowInfoView) -> Seq<char> {
    "{\"title\":"@ + window.title + ",\"program\":"@ + window.program + ",\"active\":"@
        + bool_text(window.active) + "}"@
}

/// The objects of the first `count` windows, with a comma between each two.
pub open spec fn framed_windows(windows: Seq<WindowInfoView>, count: nat) -> Seq<char>
    decreases count,
{
    if count == 0 || count > windows.len() {
        Seq::empty()
    } else if count == 1 {
        framed_window(windows[0])
    } else {
        framed_windows(windows, (count - 1) as nat) + ","@ + framed_window(windows[count - 1])
    }
}

/// The JSON object of a record whose strings are JSON literals already.
pub open spec fn framed_entry(entry: LogEntryView) -> Seq<char> {
    "{\"date\":"@ + entry.date + ",\"rate\":"@ + decimal_text(entry.rate) + ",\"inactive\":"@
        + decimal_text(entry.inactive) + ",\"windows\":["@ + framed_windows(
        entry.windows,
        entry.windows.len(),
    ) + "],\"desktop\":"@ + entry.desktop + "}"@
}

/// A window with its strings as JSON literals.
pub open spec fn quoted_window(window: WindowInfoView) -> WindowInfoView {
    WindowInfoView {
        title: json_text(window.title),
        program: json_text(window.program),
        active: window.active,
    }
}

/// A record with its strings as JSON literals.
pub open spec fn quoted_entry(entry: LogEntryView) -> LogEntryView {
    LogEntryView {
        date: json_text(entry.date),
        rate: entry.rate,
        inactive: entry.inactive,
        windows: Seq::new(entry.windows.len(), |i: int| quoted_window(entry.windows[i])),
        desktop: json_text(entry.desktop),
    }
}

/// The line that is written for a record: its JSON object and a line feed.
pub open spec fn entry_line(entry: LogEntryView) -> Seq<char> {
    framed_entry(quoted_entry(entry)) + "\n"@
}

/// The JSON string literal of a text.
pub fn quote(text: &str) -> (quoted: String)
    ensures
        quoted@ == json_text(text@),
{
    json_string(text).unwrap()
}

/// The JSON object of one window whose strings are JSON literals already.
pub fn frame_window(window: &WindowInfo) -> (text: String)
    ensures
        text@ == framed_window(window@),
{
    let mut text = String::from_str("{\"title\":");
    text.append(window.title.as_str());
    text.append(",\"program\":");
    text.append(window.program.as_str());
    text.append(",\"active\":");
    if window.active {
        text.append("true");
    } else {
        text.append("false");
    }
    text.append("}");
    text
}

impl LogEntry {
    /// The record of a snapshot taken at `date`, with a sampling interval of
    /// `rate` seconds.
    pub fn build(state: CaptureState, date: String, rate: u64) -> (entry: LogEntry)
        requires
            rate <= MAX_RATE,
        ensures
            entry@ == entry_of(state@, date@, rate as nat),
            entry@.rate == rate * 1000,
            entry@.inactive == 0,
    {
        LogEntry {
            date,
            rate: rate * 1000,
            inactive: 0,
            windows: state.windows,
            desktop: state.desktop,
        }
    }

    /// The record with each of its strings turned into a JSON literal.
    pub fn quoted(&self) -> (entry: LogEntry)
        ensures
            entry@ == quoted_entry(self@),
    {
        let mut windows: Vec<WindowInfo> = Vec::new();
        let mut i: usize = 0;
        while i < self.windows.len()
            invariant
                i <= self.windows.len(),
                windows@.len() == i,
                forall|j: int|
                    0 <= j < i ==> (#[trigger] windows@[j])@ == quoted_window(self.windows@[j]@),
            decreases self.windows.len() - i,
        {
            let window = &self.windows[i];
            windows.push(
                WindowInfo {
                    title: quote(window.title.as_str()),
                    program: quote(window.program.as_str()),
                    active: window.active,
                },
            );
            i += 1;
        }
        let entry = LogEntry {
            date: quote(self.date.as_str()),
            rate: self.rate,
            inactive: self.inactive,
            windows,
            desktop: quote(self.desktop.as_str()),
        };
        assert(entry@.windows =~= quoted_entry(self@).windows);
        entry
    }

    /// The JSON object of the record, its strings taken as JSON literals.
    pub fn frame(&self) -> (text: String)
        ensures
            text@ == framed_entry(self@),
    {
        let mut list = String::new();
        let mut i: usize = 0;
        while i < self.windows.len()
            invariant
                i <= self.windows.len(),
                list@ == framed_windows(self@.windows, i as nat),
            decreases self.windows.len() - i,
        {
            if i > 0 {
                list.append(",");
            }
            let window = frame_window(&self.windows[i]);
            list.append(window.as_str());
            proof {
                assert(self@.windows[i as int] == self.windows@[i as int]@);
                if i == 0 {
                    assert(list@ =~= framed_window(self@.windows[0]));
                }
            }
            i += 1;
        }
        let mut text = String::from_str("{\"date\":");
        text.append(self.date.as_str());
        text.append(",\"rate\":");
        text.append(decimal_string(self.rate).as_str());
        text.append(",\"inactive\":");
        text.append(decimal_string(self.inactive).as_str());
        text.append(",\"windows\":[");
        text.append(list.as_str());
        text.append("],\"desktop\":");
        text.append(self.desktop.as_str());
        text.append("}");
        text
    }

    /// The line that is written for the record: one JSON object and a line
    /// feed.
    pub fn to_line(&self) -> (line: String)
        ensures
            line@ == entry_line(self@),
    {
        let mut line = self.quoted().frame();
        line.append("\n");
        line
    }
}

/// Whatever the snapshot and the time, its record carries the sampling
/// interval in milliseconds, a thousand times the seconds it was set up with,
/// and an `inactive` of 0, which is written as `0`.
pub proof fn law_rate_in_milliseconds(
    snapshot: crate::backend::CaptureStateView,
    date: Seq<char>,
    rate: nat,
)
    ensures
        entry_of(snapshot, date, rate).rate == rate * 1000,
        entry_of(snapshot, date, rate).inactive == 0,
        quoted_entry(entry_of(snapshot, date, rate)).rate == rate * 1000,
        quoted_entry(entry_of(snapshot, date, rate)).inactive == 0,
        decimal_text(entry_of(snapshot, date, rate).inactive) == "0"@,
        entry_of(snapshot, date, rate).windows == snapshot.windows,
        entry_of(snapshot, date, rate).desktop == snapshot.desktop,
{
    reveal_strlit("0");
    assert(decimal_text(0) =~= "0"@);
}

} // verus!
