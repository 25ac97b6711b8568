use vstd::prelude::*;
use vstd::string::StringExecFns;
use std::io::Write;
use crate::digits::{decimal_of, u32_to_decimal};
use crate::fields::{extract_message, message_of};
use crate::record::{location_view, log_record_json, record_json, trace_view, LogRecord, SourceLocation};
use crate::resolve::{
    format_trace_path, lemma_innermost_wins, lemma_no_attachment_no_trace, resolve_trace,
    resolved_trace, trace_path,
};
use crate::severity::{severity_passes, Severity};
use crate::tracker::ScopeTracker;

verus! {

/// Everything the surrounding instrumentation framework reports about one
/// event: its level, its attributes as (name, rendered value) pairs, and
/// its static source metadata.
pub struct EventData {
    pub severity: Severity,
    pub fields: Vec<(String, String)>,
    /// Source file path, when the event was instrumented with one.
    pub file: Option<String>,
    /// Source line, when known; rendered as `0` when the framework reports
    /// a file but no line.
    pub line: Option<u32>,
    /// Module/target identifier, used as the function field.
    pub target: String,
}

/// The event formatter: turns one event, together with the chain of its
/// enclosing scopes, into one structured JSON record.
pub struct GcpLayer {
    /// Project identifier used to compose full trace references.
    pub project_id: String,
    /// Events below this level produce no record at all.
    pub min_level: Severity,
}

/// The full trace reference for an event, if any ancestor scope carries an
/// attachment: `projects/{project}/traces/{id}` for the innermost one.
pub open spec fn trace_reference(
    project: Seq<char>,
    atts: Map<u64, Seq<char>>,
    chain: Seq<u64>,
) -> Option<Seq<char>> {
    match resolved_trace(atts, chain) {
        Some(t) => Some(trace_path(project, t)),
        None => None,
    }
}

/// The optional source location triple of an event: present exactly when a
/// file path was reported.
pub open spec fn event_location(e: EventData) -> Option<(Seq<char>, Seq<char>, Seq<char>)> {
    match e.file {
        Some(f) => Some(
            (
                f@,
                decimal_of(
                    match e.line {
                        Some(l) => l as int,
                        None => 0,
                    },
                ),
                e.target@,
            ),
        ),
        None => None,
    }
}

/// The one JSON line emitted for an event at a given time.
pub open spec fn event_json(
    project: Seq<char>,
    atts: Map<u64, Seq<char>>,
    chain: Seq<u64>,
    e: EventData,
    time: Seq<char>,
) -> Seq<char> {
    record_json(
        e.severity,
        message_of(e.fields@),
        time,
        trace_reference(project, atts, chain),
        event_location(e),
    )
}

/// An event with no enclosing trace-carrying scope gets no trace reference
/// at all: its record omits the trace field entirely.
pub proof fn lemma_no_attachment_no_reference(
    project: Seq<char>,
    atts: Map<u64, Seq<char>>,
    chain: Seq<u64>,
)
    requires
        forall|i: int| 0 <= i < chain.len() ==> !atts.contains_key(#[trigger] chain[i]),
    ensures
        trace_reference(project, atts, chain) is None,
{
    lemma_no_attachment_no_trace(atts, chain);
}

/// Innermost wins, at the record level: when the scope at position `j`
/// carries an attachment and no scope nested inside it does, the record's
/// trace reference is composed from exactly that attachment.
pub proof fn lemma_innermost_reference(
    project: Seq<char>,
    atts: Map<u64, Seq<char>>,
    chain: Seq<u64>,
    j: int,
)
    requires
        0 <= j < chain.len(),
        atts.contains_key(chain[j]),
        forall|k: int| j < k < chain.len() ==> !atts.contains_key(#[trigger] chain[k]),
    ensures
        trace_reference(project, atts, chain) == Some(trace_path(project, atts[chain[j]])),
{
    lemma_innermost_wins(atts, chain, j);
}

/// Relies on chrono's `Utc::now` and `DateTime::to_rfc3339_opts` with
/// millisecond precision and the Z suffix: the current UTC time such as
/// `2024-01-02T03:04:05.678Z`. The clock decides the value; only the shape
/// every outcome shares is stated: at least 24 characters, a trailing `Z`,
/// and a `.` before the three millisecond digits.
#[verifier::external_body]
fn now_rfc3339_millis() -> (r: String)
    ensures
        r@.len() >= 24,
        r@[r@.len() - 1] == 'Z',
        r@[r@.len() - 5] == '.',
{
    chrono::Utc::now().to_rfc3339_opts(chrono::SecondsFormat::Millis, true)
}

/// Relies on `std::io::Stderr`'s `Write` implementation: writes the line
/// and a newline to the diagnostic stream. Fire and forget — a failed
/// write is ignored, never surfaced to the code that emitted the event.
#[verifier::external_body]
fn write_stderr_line(s: &str) {
    let _ = writeln!(std::io::stderr(), "{}", s);
}

impl GcpLayer {
    /// A formatter for the given project with the given minimum level.
    pub fn new(project_id: String, min_level: Severity) -> (r: GcpLayer)
        ensures
            r.project_id == project_id,
            r.min_level == min_level,
    {
        GcpLayer { project_id, min_level }
    }

    /// Build the record for one event: resolve the innermost trace
    /// attachment over the scope chain, extract the message, and attach the
    /// source location exactly when a file path was reported.
    pub fn make_record(
        &self,
        tracker: &ScopeTracker,
        chain: &Vec<u64>,
        event: &EventData,
        time: &str,
    ) -> (r: LogRecord)
        ensures
            r.severity == event.severity,
            r.message@ == message_of(event.fields@),
            r.time@ == time@,
            trace_view(r.trace) == trace_reference(self.project_id@, tracker@, chain@),
            location_view(r.source_location) == event_location(*event),
    {
        let trace = match resolve_trace(tracker, chain) {
            Some(t) => Some(format_trace_path(self.project_id.as_str(), t.as_str())),
            None => None,
        };
        let source_location = match &event.file {
            Some(f) => {
                let line_no: u32 = match event.line {
                    Some(l) => l,
                    None => 0,
                };
                Some(
                    SourceLocation {
                        file: f.clone(),
                        line: u32_to_decimal(line_no),
                        function: event.target.clone(),
                    },
                )
            },
            None => None,
        };
        LogRecord {
            severity: event.severity,
            message: extract_message(&event.fields),
            time: time.to_owned(),
            trace,
            source_location,
        }
    }

    /// Format one event at a given time: the record's JSON line when the
    /// event clears the minimum level, and nothing at all otherwise.
    pub fn format_event_at(
        &self,
        tracker: &ScopeTracker,
        chain: &Vec<u64>,
        event: &EventData,
        time: &str,
    ) -> (r: Option<String>)
        ensures
            r is Some <==> severity_passes(self.min_level, event.severity),
            match r {
                Some(line) => line@ == event_json(
                    self.project_id@,
                    tracker@,
                    chain@,
                    *event,
                    time@,
                ),
                None => true,
            },
    {
        if !event.severity.at_least(self.min_level) {
            return None;
        }
        let rec = self.make_record(tracker, chain, event, time);
        let line = rec.to_json_line();
        proof {
            assert(log_record_json(rec) == event_json(
                self.project_id@,
                tracker@,
                chain@,
                *event,
                time@,
            ));
        }
        Some(line)
    }

    /// Handle one event: stamp it with the current UTC time, format it, and
    /// write the JSON line to the diagnostic stream. An event below the
    /// minimum level is dropped before any record is built, and nothing is
    /// written for it. The written line, if any, is returned.
    pub fn on_event(&self, tracker: &ScopeTracker, chain: &Vec<u64>, event: &EventData) -> (r:
        Option<String>)
        ensures
            r is Some <==> severity_passes(self.min_level, event.severity),
            match r {
                Some(line) => exists|t: Seq<char>|
                    line@ == event_json(self.project_id@, tracker@, chain@, *event, t),
                None => true,
            },
    {
        let time = now_rfc3339_millis();
        let line = self.format_event_at(tracker, chain, event, time.as_str());
        match &line {
            Some(l) => {
                write_stderr_line(l.as_str());
                proof {
                    assert(l@ == event_json(self.project_id@, tracker@, chain@, *event, time@));
                }
            },
            None => {},
        }
        line
    }
}

} // verus!
