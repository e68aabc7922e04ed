//! Span batches: ordered collections of spans staged for one transmission,
//! held through a nullable handle.
//!
//! Recording a span into a batch transfers ownership of the span and nulls
//! the caller's span handle, exactly when the call reports success; the
//! batch keeps its spans in recording order.

use vstd::prelude::*;

use crate::span::Span;
use crate::span::SpanView;

verus! {

/// An ordered, owned collection of spans staged for one transmission.
pub struct SpanBatch {
    spans: Vec<Span>,
}

impl View for SpanBatch {
    type V = Seq<SpanView>;

    closed spec fn view(&self) -> Seq<SpanView> {
        Seq::new(self.spans@.len(), |i: int| self.spans@[i]@)
    }
}

impl SpanBatch {
    /// Well-formedness: every contained span is well-formed.
    pub closed spec fn wf(self) -> bool {
        forall|i: int| #![trigger self.spans@[i]] 0 <= i < self.spans@.len() ==> self.spans@[i].wf()
    }

    /// How many spans the batch holds.
    pub fn len(&self) -> (r: usize)
        ensures
            r == self@.len(),
    {
        self.spans.len()
    }

    /// Consumes the batch and hands back its spans, in recording order.
    pub fn into_spans(self) -> (r: Vec<Span>)
        ensures
            r@.len() == self@.len(),
            forall|i: int|
                #![trigger r@[i]]
                0 <= i < r@.len() ==> r@[i]@ == self@[i] && (self.wf() ==> r@[i].wf()),
    {
        self.spans
    }

    /// The span at position `i`, in recording order.
    pub fn get(&self, i: usize) -> (r: &Span)
        requires
            i < self@.len(),
        ensures
            r@ == self@[i as int],
            self.wf() ==> r.wf(),
    {
        &self.spans[i]
    }
}

/// Creates an empty span batch; this always succeeds.
pub fn nrt_span_batch_new() -> (r: Option<SpanBatch>)
    ensures
        r matches Some(b) && b.wf() && b@ == Seq::<SpanView>::empty(),
{
    let batch = SpanBatch { spans: Vec::new() };
    proof {
        assert(batch@ =~= Seq::<SpanView>::empty());
    }
    Some(batch)
}

/// Transfers ownership of a span into the batch, appending it after every
/// span recorded before, and nulls the caller's span handle — exactly when
/// the call reports success. When the batch handle or the span handle is
/// null, nothing changes and the call reports failure.
pub fn nrt_span_batch_record(batch: &mut Option<SpanBatch>, span: &mut Option<Span>) -> (r: bool)
    requires
        (*old(batch)) matches Some(b) ==> b.wf(),
        (*old(span)) matches Some(s) ==> s.wf(),
    ensures
        r == ((*old(batch)) is Some && (*old(span)) is Some),
        r ==> ((*final(batch)) matches Some(b) && b.wf() && b@ == (*old(batch))->0@.push(
            (*old(span))->0@,
        )),
        r == ((*final(span)) is None && (*old(span)) is Some),
        !r ==> *final(batch) == *old(batch) && *final(span) == *old(span),
{
    match batch {
        None => false,
        Some(b) => {
            match span.take() {
                None => false,
                Some(s) => {
                    let ghost old_seq = b@;
                    b.spans.push(s);
                    proof {
                        assert(b@ =~= old_seq.push((*old(span))->0@));
                    }
                    true
                }
            }
        }
    }
}

/// Frees the batch and every span it contains, and nulls the caller's
/// handle; a safe no-op on a handle that is already null.
pub fn nrt_span_batch_destroy(batch: &mut Option<SpanBatch>)
    ensures
        (*final(batch)) is None,
{
    *batch = None;
}

} // verus!
