//! The trace hook: filter, format, and the decision to transmit.
//!
//! The host runtime invokes the hook once per interpreter event. The hook
//! keeps only function-entry events whose originating file identity equals
//! the configured watched identity, formats the single-line record
//! `<fileIdentity> | <lineNumber> | <functionName>`, and asks the tracer
//! for the datagram to emit. Every failure on this path — missing frame
//! metadata, missing configuration, missing sender — is swallowed: the hook
//! returns `None` instead of a datagram and never an error, so the traced
//! program is never disrupted. The caller that registered the hook re-arms
//! itself with the host facility and emits the returned datagram, if any.

use vstd::prelude::*;
use crate::text::{append_i32, int_str, str_eq};
use crate::tracer::{Tracer, TracerModel, Datagram, DatagramModel, send_result};

verus! {

/// One traced call event, already extracted from the host runtime's frame:
/// the originating file identity, the entered function's name, and the
/// current line number. Transient — produced once per event, consumed
/// immediately, never stored.
#[derive(Debug)]
pub struct CallEvent {
    pub source_file_identity: String,
    pub function_name: String,
    pub line_number: i32,
}

/// The mathematical value of a `CallEvent`.
pub struct CallEventModel {
    pub source_file_identity: Seq<char>,
    pub function_name: Seq<char>,
    pub line_number: i32,
}

impl View for CallEvent {
    type V = CallEventModel;

    open spec fn view(&self) -> CallEventModel {
        CallEventModel {
            source_file_identity: self.source_file_identity@,
            function_name: self.function_name@,
            line_number: self.line_number,
        }
    }
}

/// The single-line record for one matching call event:
/// `<fileIdentity> | <lineNumber> | <functionName>`.
pub open spec fn record_of(ev: CallEventModel) -> Seq<char> {
    ev.source_file_identity + " | "@ + int_str(ev.line_number as int) + " | "@
        + ev.function_name
}

/// The value of an optional, borrowed call event. `None` stands for an
/// event whose metadata could not be extracted from the frame.
pub open spec fn event_view(event: Option<&CallEvent>) -> Option<CallEventModel> {
    match event {
        Some(e) => Some(e@),
        None => None,
    }
}

/// What the hook emits for one traced event in tracer state `m`: exactly
/// one datagram — carrying the formatted record to the configured
/// destination — when the event is a function entry, its metadata was
/// extracted, a configuration exists, the file identity matches the watched
/// identity, and the send succeeds; otherwise nothing.
pub open spec fn trace_output(
    m: TracerModel,
    event_kind: Seq<char>,
    event: Option<CallEventModel>,
) -> Option<DatagramModel> {
    if event_kind == "call"@ && event is Some && m.config is Some
        && event->0.source_file_identity == m.config->0.watched_identity {
        match send_result(m, record_of(event->0)) {
            Ok(d) => Some(d),
            Err(_) => None,
        }
    } else {
        None
    }
}

/// Formats the record for one call event.
pub fn format_record(event: &CallEvent) -> (r: String)
    ensures
        r@ == record_of(event@),
{
    let mut s = String::new();
    s.append(event.source_file_identity.as_str());
    s.append(" | ");
    append_i32(&mut s, event.line_number);
    s.append(" | ");
    s.append(event.function_name.as_str());
    proof {
        assert(s@ =~= record_of(event@));
    }
    s
}

/// The per-event body of the trace hook. `event_kind` is the host
/// facility's tag for the event; `event` carries the frame metadata, or
/// `None` where any extraction step was unavailable. Returns the datagram
/// to emit, or `None` where this event sends nothing; it never returns an
/// error, whatever is missing.
pub fn trace_callback(tracer: &Tracer, event_kind: &str, event: Option<&CallEvent>) -> (r: Option<
    Datagram,
>)
    ensures
        r is Some <==> trace_output(tracer@, event_kind@, event_view(event)) is Some,
        r matches Some(d) ==> trace_output(tracer@, event_kind@, event_view(event)) == Some(d@),
{
    if !str_eq(event_kind, "call") {
        return None;
    }
    let ev = match event {
        Some(e) => e,
        None => {
            return None;
        },
    };
    let config = match tracer.config_ref() {
        Some(c) => c,
        None => {
            return None;
        },
    };
    if !str_eq(ev.source_file_identity.as_str(), config.watched_identity.as_str()) {
        return None;
    }
    let message = format_record(ev);
    match tracer.send_udp_message(message.as_str()) {
        Ok(d) => Some(d),
        Err(_) => None,
    }
}

/// Law: a traced function entry whose file identity equals the watched
/// identity, in a tracer with configuration and sender both present, emits
/// exactly one datagram, whose payload is the record
/// `<identity> | <line> | <name>` of that event and whose destination is
/// the configured host and port.
pub proof fn lemma_hook_match_sends(m: TracerModel, event_kind: Seq<char>, ev: CallEventModel)
    requires
        event_kind == "call"@,
        m.sender_created,
        m.config is Some,
        ev.source_file_identity == m.config->0.watched_identity,
    ensures
        trace_output(m, event_kind, Some(ev)) == Some(DatagramModel {
            host: m.config->0.host,
            port: m.config->0.port,
            payload: record_of(ev),
        }),
{
}

/// Law: a traced event whose file identity differs from the watched
/// identity emits nothing, whatever its kind and whatever the sender state.
pub proof fn lemma_hook_other_file_silent(m: TracerModel, event_kind: Seq<char>, ev: CallEventModel)
    requires
        m.config is Some,
        ev.source_file_identity != m.config->0.watched_identity,
    ensures
        trace_output(m, event_kind, Some(ev)) is None,
{
}

/// Law: an event that is not a function entry emits nothing, regardless of
/// file identity and tracer state.
pub proof fn lemma_hook_non_entry_silent(
    m: TracerModel,
    event_kind: Seq<char>,
    event: Option<CallEventModel>,
)
    requires
        event_kind != "call"@,
    ensures
        trace_output(m, event_kind, event) is None,
{
}

/// Law: the hook swallows every failure. With frame metadata missing, or no
/// configuration, or no sender, it emits nothing — and, by its type, it
/// returns to the host facility without an error in every case.
pub proof fn lemma_hook_swallows_failures(
    m: TracerModel,
    event_kind: Seq<char>,
    event: Option<CallEventModel>,
)
    requires
        event is None || m.config is None || !m.sender_created,
    ensures
        trace_output(m, event_kind, event) is None,
{
}

} // verus!
