//! Turns records into sink events, separating the records that cannot be
//! encoded from those that can.
//!
//! Policy: all or nothing. Where any record of a batch fails, the batch
//! yields no event and one error whose message holds a line per failed record.
//! A record is never dropped without a trace.
use crate::json::{
    field, fields, insert_field, is_object, json_integer, json_string, shape, string_text,
    JsonShape,
};
use crate::metadata::{metadata_json, AdoMetadata};
use crate::resolve::{string_field, ResponseShape};
use vstd::prelude::*;

verus! {

/// One event for the sink.
pub struct EmittedEvent {
    pub body: serde_json::Value,
    pub source: String,
    pub sourcetype: String,
}

/// The records of a batch that could not be encoded, one line each.
pub struct EncodeError {
    pub message: String,
}

/// How the records of a batch become events.
pub enum EventStamp {
    /// Adds `SSPHP_DEBUG`, the fetch's metadata as JSON (or a note that there
    /// is none), and `SSPHP_RUN`, the run identifier. Source and sourcetype come
    /// from the metadata.
    Ado { metadata: Option<AdoMetadata>, run_id: u64 },
    /// Keeps the record as it is; its string field `type` is the sourcetype.
    RecordType { source: String },
    /// Adds `ssphp_http_status`, the status of the page the record came in.
    Github { source: String, status: u16 },
}

pub open spec fn debug_key() -> Seq<char> {
    "SSPHP_DEBUG"@
}

pub open spec fn run_key() -> Seq<char> {
    "SSPHP_RUN"@
}

pub open spec fn status_key() -> Seq<char> {
    "ssphp_http_status"@
}

/// The diagnostic field of a record: the metadata as JSON, or a note.
pub open spec fn debug_json(metadata: Option<AdoMetadata>, v: serde_json::Value) -> bool {
    match metadata {
        Some(m) => metadata_json(m@, v),
        None => shape(v) == JsonShape::Str("No AdoMetadata"@),
    }
}

pub open spec fn stamp_source(st: EventStamp) -> Seq<char> {
    match st {
        EventStamp::Ado { metadata, .. } => match metadata {
            Some(m) => m.source@,
            None => "NO ADOMETADATA FOR SOURCE"@,
        },
        EventStamp::RecordType { source } => source@,
        EventStamp::Github { source, .. } => source@,
    }
}

/// The sourcetype of Azure DevOps events: the metadata's, or a placeholder.
pub open spec fn ado_sourcetype_of(metadata: Option<AdoMetadata>) -> Seq<char> {
    match metadata {
        Some(m) => m.sourcetype@,
        None => "NO ADOMETADATA FOR SOURCETYPE"@,
    }
}

/// Whether a record can be encoded under a stamp.
pub open spec fn encodable(st: EventStamp, item: serde_json::Value) -> bool {
    match st {
        EventStamp::RecordType { .. } => string_field(item, "type"@) is Some,
        _ => is_object(item),
    }
}

/// `body` is the object `item` with field `key` set.
pub open spec fn with_field(
    item: serde_json::Value,
    body: serde_json::Value,
    key: Seq<char>,
) -> bool {
    is_object(item) && is_object(body) && fields(body) == fields(item).insert(key, fields(body)[key])
}

/// `ev` is the event of `item` under stamp `st`.
pub open spec fn encodes(st: EventStamp, item: serde_json::Value, ev: EmittedEvent) -> bool {
    &&& ev.source@ == stamp_source(st)
    &&& match st {
        EventStamp::Ado { metadata, run_id } => {
            let f = fields(ev.body);
            &&& is_object(item)
            &&& is_object(ev.body)
            &&& f == fields(item).insert(debug_key(), f[debug_key()]).insert(run_key(), f[run_key()])
            &&& debug_json(metadata, f[debug_key()])
            &&& shape(f[run_key()]) == JsonShape::Number(Some(run_id as int))
            &&& ev.sourcetype@ == ado_sourcetype_of(metadata)
        },
        EventStamp::RecordType { .. } => {
            &&& ev.body == item
            &&& string_field(item, "type"@) == Some(ev.sourcetype@)
        },
        EventStamp::Github { status, .. } => {
            &&& with_field(item, ev.body, status_key())
            &&& shape(fields(ev.body)[status_key()]) == JsonShape::Number(Some(status as int))
            &&& ev.sourcetype@ == "github"@
        },
    }
}

/// The line that reports a record that could not be encoded.
pub open spec fn failure_message(st: EventStamp) -> Seq<char> {
    stamp_source(st) + match st {
        EventStamp::RecordType { .. } => ": record has no string field \"type\""@,
        _ => ": record is not a JSON object"@,
    }
}

/// One line per record that cannot be encoded, in the records' order.
pub open spec fn failure_lines(st: EventStamp, items: Seq<serde_json::Value>) -> Seq<Seq<char>>
    decreases items.len(),
{
    if items.len() == 0 {
        Seq::empty()
    } else if encodable(st, items.last()) {
        failure_lines(st, items.drop_last())
    } else {
        failure_lines(st, items.drop_last()).push(failure_message(st))
    }
}

/// Lines joined with newlines.
pub open spec fn joined(lines: Seq<Seq<char>>) -> Seq<char>
    decreases lines.len(),
{
    if lines.len() == 0 {
        Seq::empty()
    } else if lines.len() == 1 {
        lines[0]
    } else {
        joined(lines.drop_last()) + "\n"@ + lines.last()
    }
}

pub open spec fn views(lines: Seq<String>) -> Seq<Seq<char>> {
    lines.map_values(|s: String| s@)
}

/// Joins lines with newlines.
pub fn join_lines(lines: &Vec<String>) -> (r: String)
    ensures
        r@ == joined(views(lines@)),
{
    let mut acc = String::new();
    let mut i: usize = 0;
    while i < lines.len()
        invariant
            i <= lines@.len(),
            acc@ == joined(views(lines@).subrange(0, i as int)),
        decreases lines@.len() - i,
    {
        proof {
            assert(views(lines@).subrange(0, i + 1).drop_last() =~= views(lines@).subrange(
                0,
                i as int,
            ));
        }
        if i > 0 {
            acc = acc.concat("\n");
        }
        acc = acc.concat(lines[i].as_str());
        i = i + 1;
    }
    assert(views(lines@).subrange(0, lines@.len() as int) =~= views(lines@));
    acc
}

impl EventStamp {
    pub fn source(&self) -> (r: String)
        ensures
            r@ == stamp_source(*self),
    {
        match self {
            EventStamp::Ado { metadata, .. } => match metadata {
                Some(m) => m.source.clone(),
                None => String::from_str("NO ADOMETADATA FOR SOURCE"),
            },
            EventStamp::RecordType { source } => source.clone(),
            EventStamp::Github { source, .. } => source.clone(),
        }
    }

    pub fn failure_message(&self) -> (r: String)
        ensures
            r@ == failure_message(*self),
    {
        let reason = match self {
            EventStamp::RecordType { .. } => ": record has no string field \"type\"",
            _ => ": record is not a JSON object",
        };
        self.source().concat(reason)
    }

    /// The event of one record, or the line that reports it.
    pub fn encode(&self, item: serde_json::Value) -> (r: Result<EmittedEvent, String>)
        ensures
            encodable(*self, item) <==> r is Ok,
            r is Ok ==> encodes(*self, item, r->Ok_0),
            r is Err ==> r->Err_0@ == failure_message(*self),
    {
        let mut body = item;
        match self {
            EventStamp::Ado { metadata, run_id } => {
                let debug = match metadata {
                    Some(m) => m.to_json(),
                    None => json_string(String::from_str("No AdoMetadata")),
                };
                let ghost d = debug;
                if !insert_field(&mut body, String::from_str("SSPHP_DEBUG"), debug) {
                    return Err(self.failure_message());
                }
                let ghost b1 = body;
                insert_field(&mut body, String::from_str("SSPHP_RUN"), json_integer(*run_id));
                proof {
                    reveal_strlit("SSPHP_DEBUG");
                    reveal_strlit("SSPHP_RUN");
                    assert(debug_key().len() != run_key().len());
                    assert(fields(body)[debug_key()] == d);
                    assert(fields(body) =~= fields(item).insert(
                        debug_key(),
                        fields(body)[debug_key()],
                    ).insert(run_key(), fields(body)[run_key()]));
                }
                let sourcetype = match metadata {
                    Some(m) => m.sourcetype.clone(),
                    None => String::from_str("NO ADOMETADATA FOR SOURCETYPE"),
                };
                Ok(EmittedEvent { body, source: self.source(), sourcetype })
            },
            EventStamp::RecordType { source } => {
                let sourcetype = match field(&body, "type") {
                    Some(t) => string_text(&t),
                    None => None,
                };
                match sourcetype {
                    Some(sourcetype) => Ok(EmittedEvent { body, source: source.clone(), sourcetype }),
                    None => Err(self.failure_message()),
                }
            },
            EventStamp::Github { source, status } => {
                let status_value = json_integer(*status as u64);
                if !insert_field(&mut body, String::from_str("ssphp_http_status"), status_value) {
                    return Err(self.failure_message());
                }
                proof {
                    assert(fields(body) =~= fields(item).insert(status_key(), fields(body)[status_key()]));
                }
                Ok(EmittedEvent { body, source: source.clone(), sourcetype: String::from_str("github") })
            },
        }
    }
}

/// `r` is the outcome of emitting `items` under `stamp`: every event when
/// every record can be encoded, else one error that lists the failures.
pub open spec fn emitted(
    stamp: EventStamp,
    items: Seq<serde_json::Value>,
    r: Result<Vec<EmittedEvent>, EncodeError>,
) -> bool {
    &&& (forall|i: int| 0 <= i < items.len() ==> encodable(stamp, #[trigger] items[i])) <==> r is Ok
    &&& r is Ok ==> r->Ok_0@.len() == items.len() && forall|i: int|
        0 <= i < items.len() ==> encodes(stamp, items[i], #[trigger] r->Ok_0@[i])
    &&& r is Err ==> r->Err_0.message@ == joined(failure_lines(stamp, items))
    &&& r is Ok ==> forall|i: int|
        0 <= i < items.len() ==> (#[trigger] r->Ok_0@[i]).source@ == stamp_source(stamp)
    &&& r is Ok && stamp is Ado ==> forall|i: int|
        0 <= i < items.len() ==> fields((#[trigger] r->Ok_0@[i]).body).contains_key(debug_key())
}

/// The events of a batch of records, all or nothing: where any record cannot
/// be encoded, the result is one error with a line for each such record.
pub fn emit(stamp: &EventStamp, items: Vec<serde_json::Value>) -> (r: Result<Vec<EmittedEvent>, EncodeError>)
    ensures
        emitted(*stamp, items@, r),
{
    let ghost all = items@;
    let n = items.len();
    let mut rest = items;
    let mut events: Vec<EmittedEvent> = Vec::new();
    let mut errors: Vec<String> = Vec::new();
    let mut i: usize = 0;
    while i < n
        invariant
            n == all.len(),
            i <= n,
            rest@ == all.subrange(i as int, n as int),
            views(errors@) == failure_lines(*stamp, all.subrange(0, i as int)),
            errors@.len() == 0 <==> forall|k: int| 0 <= k < i ==> encodable(*stamp, #[trigger] all[k]),
            errors@.len() == 0 ==> events@.len() == i && forall|k: int|
                0 <= k < i ==> encodes(*stamp, all[k], #[trigger] events@[k]),
        decreases n - i,
    {
        let item = rest.remove(0);
        proof {
            assert(item == all[i as int]);
            assert(all.subrange(0, i + 1).drop_last() =~= all.subrange(0, i as int));
            assert(all.subrange(0, i + 1).last() == item);
            assert(rest@ =~= all.subrange(i + 1, n as int));
        }
        match stamp.encode(item) {
            Ok(ev) => {
                events.push(ev);
            },
            Err(line) => {
                let ghost before = errors@;
                errors.push(line);
                proof {
                    assert(views(errors@) =~= views(before).push(line@));
                }
            },
        }
        i = i + 1;
    }
    proof {
        assert(all.subrange(0, n as int) =~= all);
    }
    if errors.len() > 0 {
        Err(EncodeError { message: join_lines(&errors) })
    } else {
        Ok(events)
    }
}

/// Records of Azure DevOps with the metadata of the fetch they came from.
pub struct AdoResponse {
    pub value: Vec<serde_json::Value>,
    pub metadata: Option<AdoMetadata>,
}

impl AdoResponse {
    /// Each record with `SSPHP_DEBUG` and `SSPHP_RUN` added, all or nothing.
    pub fn to_hec_events(self, run_id: u64) -> (r: Result<Vec<EmittedEvent>, EncodeError>)
        ensures
            emitted(EventStamp::Ado { metadata: self.metadata, run_id }, self.value@, r),
    {
        let stamp = EventStamp::Ado { metadata: self.metadata, run_id };
        emit(&stamp, self.value)
    }
}

/// The records of one GitHub response.
pub struct GithubResponse {
    pub response: Vec<serde_json::Value>,
    pub source: String,
    pub ssphp_http_status: u16,
}

impl GithubResponse {
    /// Each record with the response's status added, all or nothing.
    pub fn to_hec_events(self) -> (r: Result<Vec<EmittedEvent>, EncodeError>)
        ensures
            emitted(
                EventStamp::Github { source: self.source, status: self.ssphp_http_status },
                self.response@,
                r,
            ),
    {
        let stamp = EventStamp::Github { source: self.source, status: self.ssphp_http_status };
        emit(&stamp, self.response)
    }
}

pub enum EmitError {
    /// The body names a next page, which is not followed.
    NotImplemented { link: String },
    Encode(EncodeError),
}

impl ResponseShape {
    /// The records of an Azure response as events of `source`, each with its
    /// own `type` field as sourcetype. A body that names a next page fails.
    pub fn to_hec_events(self, source: String) -> (r: Result<Vec<EmittedEvent>, EmitError>)
        ensures
            match self.spec_next_link() {
                Some(l) => r is Err && r->Err_0 is NotImplemented && r->Err_0->link@ == l,
                None => match r {
                    Ok(events) => emitted(
                        EventStamp::RecordType { source },
                        self.spec_items(),
                        Ok::<Vec<EmittedEvent>, EncodeError>(events),
                    ),
                    Err(EmitError::Encode(e)) => emitted(
                        EventStamp::RecordType { source },
                        self.spec_items(),
                        Err::<Vec<EmittedEvent>, EncodeError>(e),
                    ),
                    Err(EmitError::NotImplemented { .. }) => false,
                },
            },
    {
        match self.next_link() {
            Some(link) => Err(EmitError::NotImplemented { link }),
            None => {
                let stamp = EventStamp::RecordType { source };
                match emit(&stamp, self.items()) {
                    Ok(events) => Ok(events),
                    Err(e) => Err(EmitError::Encode(e)),
                }
            },
        }
    }
}

} // verus!
