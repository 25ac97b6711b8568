use vstd::prelude::*;
use vstd::string::StringExecFns;
use crate::json::{json_quote, json_string_of};
use crate::severity::{severity_label, Severity};

verus! {

/// Where an event was emitted: file path, line number rendered in decimal,
/// and the module/target identifier used as the function field.
pub struct SourceLocation {
    pub file: String,
    pub line: String,
    pub function: String,
}

/// One structured record, built per event and rendered as one JSON line.
pub struct LogRecord {
    pub severity: Severity,
    pub message: String,
    pub time: String,
    /// Full trace reference, absent when no ancestor scope carried a
    /// trace attachment.
    pub trace: Option<String>,
    /// Absent when the emitting framework reported no file path.
    pub source_location: Option<SourceLocation>,
}

/// The JSON object for a source location, with its three fixed keys.
pub open spec fn source_location_json(
    file: Seq<char>,
    line: Seq<char>,
    function: Seq<char>,
) -> Seq<char> {
    "{\"file\":"@ + json_string_of(file) + ",\"line\":"@ + json_string_of(line)
        + ",\"function\":"@ + json_string_of(function) + "}"@
}

/// The single JSON line for a record: fixed keys, every value encoded as a
/// JSON string, and the two optional fields omitted entirely when absent.
/// The message key is always present, even for an empty message.
pub open spec fn record_json(
    severity: Severity,
    message: Seq<char>,
    time: Seq<char>,
    trace: Option<Seq<char>>,
    location: Option<(Seq<char>, Seq<char>, Seq<char>)>,
) -> Seq<char> {
    "{\"severity\":"@ + json_string_of(severity_label(severity)) + ",\"message\":"@
        + json_string_of(message) + ",\"time\":"@ + json_string_of(time) + (match trace {
        Some(t) => ",\"logging.googleapis.com/trace\":"@ + json_string_of(t),
        None => Seq::<char>::empty(),
    }) + (match location {
        Some(l) => ",\"logging.googleapis.com/sourceLocation\":"@ + source_location_json(
            l.0,
            l.1,
            l.2,
        ),
        None => Seq::<char>::empty(),
    }) + "}"@
}

/// The trace reference of a record, as the abstract optional value the
/// record layout is stated over.
pub open spec fn trace_view(trace: Option<String>) -> Option<Seq<char>> {
    match trace {
        Some(t) => Some(t@),
        None => None,
    }
}

/// The source location of a record, as the abstract optional triple the
/// record layout is stated over.
pub open spec fn location_view(location: Option<SourceLocation>) -> Option<
    (Seq<char>, Seq<char>, Seq<char>),
> {
    match location {
        Some(l) => Some((l.file@, l.line@, l.function@)),
        None => None,
    }
}

/// The JSON line for a concrete record value.
pub open spec fn log_record_json(r: LogRecord) -> Seq<char> {
    record_json(
        r.severity,
        r.message@,
        r.time@,
        trace_view(r.trace),
        location_view(r.source_location),
    )
}

impl LogRecord {
    /// Render the record as its single JSON line.
    pub fn to_json_line(&self) -> (r: String)
        ensures
            r@ == log_record_json(*self),
    {
        let mut s = String::from_str("{\"severity\":");
        let sev = json_quote(self.severity.as_str());
        s.append(sev.as_str());
        s.append(",\"message\":");
        let msg = json_quote(self.message.as_str());
        s.append(msg.as_str());
        s.append(",\"time\":");
        let time = json_quote(self.time.as_str());
        s.append(time.as_str());
        match &self.trace {
            Some(t) => {
                s.append(",\"logging.googleapis.com/trace\":");
                let q = json_quote(t.as_str());
                s.append(q.as_str());
            },
            None => {},
        }
        match &self.source_location {
            Some(loc) => {
                s.append(",\"logging.googleapis.com/sourceLocation\":");
                s.append("{\"file\":");
                let f = json_quote(loc.file.as_str());
                s.append(f.as_str());
                s.append(",\"line\":");
                let l = json_quote(loc.line.as_str());
                s.append(l.as_str());
                s.append(",\"function\":");
                let g = json_quote(loc.function.as_str());
                s.append(g.as_str());
                s.append("}");
            },
            None => {},
        }
        s.append("}");
        proof {
            assert(s@ =~= log_record_json(*self));
        }
        s
    }
}

} // verus!
