//! Spans: one unit of traced work each, with identity, timing and an
//! optional owned attribute map, held through a nullable handle.
//!
//! Creation demands an id and a trace id, both well-formed UTF-8. Field
//! setters mutate in place and report success; a setter that fails leaves
//! the span exactly as it was. Attaching an attribute map transfers its
//! ownership into the span and nulls the caller's map handle.

use vstd::prelude::*;

use crate::attributes::Attributes;
use crate::attributes::AttrValueView;
use crate::attributes::nrt_attributes_destroy;
use crate::utf8::is_utf8;
use crate::utf8::utf8_valid;

verus! {

/// The mathematical value of a [`Span`].
pub struct SpanView {
    pub id: Seq<u8>,
    pub trace_id: Seq<u8>,
    pub name: Option<Seq<u8>>,
    pub service_name: Option<Seq<u8>>,
    pub parent_id: Option<Seq<u8>>,
    pub timestamp: u64,
    pub duration_ms: Option<u64>,
    pub attributes: Option<Map<Seq<u8>, AttrValueView>>,
}

impl SpanView {
    pub open spec fn with_id(self, id: Seq<u8>) -> SpanView {
        SpanView { id, ..self }
    }

    pub open spec fn with_trace_id(self, trace_id: Seq<u8>) -> SpanView {
        SpanView { trace_id, ..self }
    }

    pub open spec fn with_name(self, name: Seq<u8>) -> SpanView {
        SpanView { name: Some(name), ..self }
    }

    pub open spec fn with_service_name(self, service_name: Seq<u8>) -> SpanView {
        SpanView { service_name: Some(service_name), ..self }
    }

    pub open spec fn with_parent_id(self, parent_id: Seq<u8>) -> SpanView {
        SpanView { parent_id: Some(parent_id), ..self }
    }

    pub open spec fn with_timestamp(self, timestamp: u64) -> SpanView {
        SpanView { timestamp, ..self }
    }

    pub open spec fn with_duration_ms(self, duration_ms: u64) -> SpanView {
        SpanView { duration_ms: Some(duration_ms), ..self }
    }

    pub open spec fn with_attributes(self, attributes: Map<Seq<u8>, AttrValueView>) -> SpanView {
        SpanView { attributes: Some(attributes), ..self }
    }
}

/// One recorded unit of traced work.
pub struct Span {
    id: Vec<u8>,
    trace_id: Vec<u8>,
    name: Option<Vec<u8>>,
    service_name: Option<Vec<u8>>,
    parent_id: Option<Vec<u8>>,
    timestamp: u64,
    duration_ms: Option<u64>,
    attributes: Option<Attributes>,
}

impl View for Span {
    type V = SpanView;

    closed spec fn view(&self) -> SpanView {
        SpanView {
            id: self.id@,
            trace_id: self.trace_id@,
            name: match self.name {
                Some(v) => Some(v@),
                None => None,
            },
            service_name: match self.service_name {
                Some(v) => Some(v@),
                None => None,
            },
            parent_id: match self.parent_id {
                Some(v) => Some(v@),
                None => None,
            },
            timestamp: self.timestamp,
            duration_ms: self.duration_ms,
            attributes: match self.attributes {
                Some(a) => Some(a@),
                None => None,
            },
        }
    }
}

impl Span {
    /// Well-formedness: an attached attribute map is itself well-formed.
    pub closed spec fn wf(self) -> bool {
        self.attributes matches Some(a) ==> a.wf()
    }

    /// The span's id.
    pub fn id(&self) -> (r: &Vec<u8>)
        ensures
            r@ == self@.id,
    {
        &self.id
    }

    /// The span's trace id.
    pub fn trace_id(&self) -> (r: &Vec<u8>)
        ensures
            r@ == self@.trace_id,
    {
        &self.trace_id
    }

    /// The span's display name, if one was set.
    pub fn name(&self) -> (r: &Option<Vec<u8>>)
        ensures
            (*r is Some) == (self@.name is Some),
            *r matches Some(v) ==> self@.name == Some(v@),
    {
        &self.name
    }

    /// The span's service name, if one was set.
    pub fn service_name(&self) -> (r: &Option<Vec<u8>>)
        ensures
            (*r is Some) == (self@.service_name is Some),
            *r matches Some(v) ==> self@.service_name == Some(v@),
    {
        &self.service_name
    }

    /// The span's parent id, if one was set.
    pub fn parent_id(&self) -> (r: &Option<Vec<u8>>)
        ensures
            (*r is Some) == (self@.parent_id is Some),
            *r matches Some(v) ==> self@.parent_id == Some(v@),
    {
        &self.parent_id
    }

    /// The span's start timestamp.
    pub fn timestamp(&self) -> (r: u64)
        ensures
            r == self@.timestamp,
    {
        self.timestamp
    }

    /// The span's duration in milliseconds, if one was set.
    pub fn duration_ms(&self) -> (r: Option<u64>)
        ensures
            r == self@.duration_ms,
    {
        self.duration_ms
    }

    /// The span's attached attribute map, if one was attached.
    pub fn attributes(&self) -> (r: &Option<Attributes>)
        ensures
            (*r is Some) == (self@.attributes is Some),
            *r matches Some(a) ==> self@.attributes == Some(a@) && (self.wf() ==> a.wf()),
    {
        &self.attributes
    }
}

/// Creates a span from an id, a trace id and a start timestamp. Both ids
/// are mandatory and must be well-formed UTF-8; otherwise no span is made
/// and the result is a null handle.
pub fn nrt_span_new(id: Option<Vec<u8>>, trace_id: Option<Vec<u8>>, timestamp: u64) -> (r: Option<
    Span,
>)
    ensures
        (r is Some) == (id is Some && trace_id is Some && is_utf8(id->0@) && is_utf8(
            trace_id->0@,
        )),
        r matches Some(s) ==> s.wf() && s@ == (SpanView {
            id: id->0@,
            trace_id: trace_id->0@,
            name: None,
            service_name: None,
            parent_id: None,
            timestamp,
            duration_ms: None,
            attributes: None,
        }),
{
    match (id, trace_id) {
        (Some(id_bytes), Some(trace_bytes)) => {
            if utf8_valid(&id_bytes) && utf8_valid(&trace_bytes) {
                Some(
                    Span {
                        id: id_bytes,
                        trace_id: trace_bytes,
                        name: None,
                        service_name: None,
                        parent_id: None,
                        timestamp,
                        duration_ms: None,
                        attributes: None,
                    },
                )
            } else {
                None
            }
        }
        _ => None,
    }
}

/// Replaces the span's id. Fails, changing nothing, when the span handle
/// or the id is null or the id is malformed UTF-8.
pub fn nrt_span_set_id(span: &mut Option<Span>, id: Option<Vec<u8>>) -> (r: bool)
    requires
        (*old(span)) matches Some(s) ==> s.wf(),
    ensures
        r == ((*old(span)) is Some && id is Some && is_utf8(id->0@)),
        r ==> ((*final(span)) matches Some(s) && s.wf() && s@ == (*old(span))->0@.with_id(id->0@)),
        !r ==> *final(span) == *old(span),
{
    match id {
        None => false,
        Some(bytes) => {
            match span {
                None => false,
                Some(s) => {
                    if utf8_valid(&bytes) {
                        s.id = bytes;
                        true
                    } else {
                        false
                    }
                }
            }
        }
    }
}

/// Replaces the span's trace id, under the same rules as the id.
pub fn nrt_span_set_trace_id(span: &mut Option<Span>, trace_id: Option<Vec<u8>>) -> (r: bool)
    requires
        (*old(span)) matches Some(s) ==> s.wf(),
    ensures
        r == ((*old(span)) is Some && trace_id is Some && is_utf8(trace_id->0@)),
        r ==> ((*final(span)) matches Some(s) && s.wf() && s@ == (*old(
            span,
        ))->0@.with_trace_id(trace_id->0@)),
        !r ==> *final(span) == *old(span),
{
    match trace_id {
        None => false,
        Some(bytes) => {
            match span {
                None => false,
                Some(s) => {
                    if utf8_valid(&bytes) {
                        s.trace_id = bytes;
                        true
                    } else {
                        false
                    }
                }
            }
        }
    }
}

/// Replaces the span's start timestamp. Fails only on a null span handle.
pub fn nrt_span_set_timestamp(span: &mut Option<Span>, timestamp: u64) -> (r: bool)
    requires
        (*old(span)) matches Some(s) ==> s.wf(),
    ensures
        r == ((*old(span)) is Some),
        r ==> ((*final(span)) matches Some(s) && s.wf() && s@ == (*old(
            span,
        ))->0@.with_timestamp(timestamp)),
        !r ==> *final(span) == *old(span),
{
    match span {
        None => false,
        Some(s) => {
            s.timestamp = timestamp;
            true
        }
    }
}

/// Sets the span's display name. Fails, changing nothing, when the span
/// handle or the name is null or the name is malformed UTF-8.
pub fn nrt_span_set_name(span: &mut Option<Span>, name: Option<Vec<u8>>) -> (r: bool)
    requires
        (*old(span)) matches Some(s) ==> s.wf(),
    ensures
        r == ((*old(span)) is Some && name is Some && is_utf8(name->0@)),
        r ==> ((*final(span)) matches Some(s) && s.wf() && s@ == (*old(
            span,
        ))->0@.with_name(name->0@)),
        !r ==> *final(span) == *old(span),
{
    match name {
        None => false,
        Some(bytes) => {
            match span {
                None => false,
                Some(s) => {
                    if utf8_valid(&bytes) {
                        s.name = Some(bytes);
                        true
                    } else {
                        false
                    }
                }
            }
        }
    }
}

/// Sets the span's duration, in milliseconds. Fails only on a null span
/// handle.
pub fn nrt_span_set_duration(span: &mut Option<Span>, duration: u64) -> (r: bool)
    requires
        (*old(span)) matches Some(s) ==> s.wf(),
    ensures
        r == ((*old(span)) is Some),
        r ==> ((*final(span)) matches Some(s) && s.wf() && s@ == (*old(
            span,
        ))->0@.with_duration_ms(duration)),
        !r ==> *final(span) == *old(span),
{
    match span {
        None => false,
        Some(s) => {
            s.duration_ms = Some(duration);
            true
        }
    }
}

/// Sets the span's parent id, under the same rules as the id.
pub fn nrt_span_set_parent_id(span: &mut Option<Span>, parent_id: Option<Vec<u8>>) -> (r: bool)
    requires
        (*old(span)) matches Some(s) ==> s.wf(),
    ensures
        r == ((*old(span)) is Some && parent_id is Some && is_utf8(parent_id->0@)),
        r ==> ((*final(span)) matches Some(s) && s.wf() && s@ == (*old(
            span,
        ))->0@.with_parent_id(parent_id->0@)),
        !r ==> *final(span) == *old(span),
{
    match parent_id {
        None => false,
        Some(bytes) => {
            match span {
                None => false,
                Some(s) => {
                    if utf8_valid(&bytes) {
                        s.parent_id = Some(bytes);
                        true
                    } else {
                        false
                    }
                }
            }
        }
    }
}

/// Sets the span's service name, under the same rules as the name.
pub fn nrt_span_set_service_name(span: &mut Option<Span>, service_name: Option<Vec<u8>>) -> (r:
    bool)
    requires
        (*old(span)) matches Some(s) ==> s.wf(),
    ensures
        r == ((*old(span)) is Some && service_name is Some && is_utf8(service_name->0@)),
        r ==> ((*final(span)) matches Some(s) && s.wf() && s@ == (*old(
            span,
        ))->0@.with_service_name(service_name->0@)),
        !r ==> *final(span) == *old(span),
{
    match service_name {
        None => false,
        Some(bytes) => {
            match span {
                None => false,
                Some(s) => {
                    if utf8_valid(&bytes) {
                        s.service_name = Some(bytes);
                        true
                    } else {
                        false
                    }
                }
            }
        }
    }
}

/// Transfers ownership of an attribute map into the span, nulling the
/// caller's map handle on success. When the span handle is null the map is
/// nevertheless consumed — it is destroyed and the caller's map handle is
/// nulled — and the call reports failure. A null map handle is a no-op
/// that reports non-transfer.
pub fn nrt_span_set_attributes(span: &mut Option<Span>, attributes: &mut Option<Attributes>) -> (r:
    bool)
    requires
        (*old(span)) matches Some(s) ==> s.wf(),
        (*old(attributes)) matches Some(a) ==> a.wf(),
    ensures
        r == ((*old(span)) is Some && (*old(attributes)) is Some),
        r ==> ((*final(span)) matches Some(s) && s.wf() && s@ == (*old(
            span,
        ))->0@.with_attributes((*old(attributes))->0@)),
        r ==> (*final(attributes)) is None,
        (*old(span)) is None ==> (*final(attributes)) is None,
        ((*old(span)) is Some && (*old(attributes)) is None) ==> *final(attributes) == *old(
            attributes,
        ),
        !r ==> *final(span) == *old(span),
{
    match span {
        None => {
            nrt_attributes_destroy(attributes);
            false
        }
        Some(s) => {
            match attributes.take() {
                None => false,
                Some(a) => {
                    s.attributes = Some(a);
                    true
                }
            }
        }
    }
}

/// Frees the span — and, transitively, any attached attribute map — and
/// nulls the caller's handle; a safe no-op on a handle that is already
/// null.
pub fn nrt_span_destroy(span: &mut Option<Span>)
    ensures
        (*final(span)) is None,
{
    *span = None;
}

} // verus!
