//! The client: the long-lived handle through which completed span batches
//! leave the boundary, held through a nullable handle.
//!
//! The network-sending collaborator that carries the spans onward sits
//! outside this boundary; the client records the effective settings it was
//! built with and, in order, every span handed over for delivery. A send
//! takes ownership of the batch and nulls the caller's batch handle exactly
//! when it reports success; a send through a null client handle reports
//! failure and leaves the batch untouched.

use vstd::prelude::*;

use crate::batch::SpanBatch;
use crate::config::settings_of;
use crate::config::ClientConfig;
use crate::config::ClientSettings;
use crate::config::SettingsView;
use crate::span::Span;
use crate::span::SpanView;

verus! {

/// The mathematical value of a [`Client`].
pub struct ClientView {
    pub settings: SettingsView,
    pub delivered: Seq<SpanView>,
}

/// The handle to the sending side: the settings a client was built with,
/// and every span handed over for delivery, in delivery order.
pub struct Client {
    settings: ClientSettings,
    delivered: Vec<Span>,
}

impl View for Client {
    type V = ClientView;

    closed spec fn view(&self) -> ClientView {
        ClientView {
            settings: self.settings@,
            delivered: Seq::new(self.delivered@.len(), |i: int| self.delivered@[i]@),
        }
    }
}

impl Client {
    /// Well-formedness: every delivered span is well-formed.
    pub closed spec fn wf(self) -> bool {
        forall|i: int|
            #![trigger self.delivered@[i]]
            0 <= i < self.delivered@.len() ==> self.delivered@[i].wf()
    }

    /// The effective settings the client was built with.
    pub fn settings(&self) -> (r: &ClientSettings)
        ensures
            r@ == self@.settings,
    {
        &self.settings
    }

    /// How many spans have been handed over for delivery.
    pub fn delivered_len(&self) -> (r: usize)
        ensures
            r == self@.delivered.len(),
    {
        self.delivered.len()
    }

    /// The span at position `i` of the delivery order.
    pub fn delivered_at(&self, i: usize) -> (r: &Span)
        requires
            i < self@.delivered.len(),
        ensures
            r@ == self@.delivered[i as int],
            self.wf() ==> r.wf(),
    {
        &self.delivered[i]
    }

    /// Appends every span of `batch`, in its recording order, to the spans
    /// handed over for delivery.
    fn deliver(&mut self, batch: SpanBatch)
        requires
            old(self).wf(),
            batch.wf(),
        ensures
            final(self).wf(),
            final(self)@.settings == old(self)@.settings,
            final(self)@.delivered == old(self)@.delivered + batch@,
    {
        let ghost old_delivered = self@.delivered;
        let mut spans = batch.into_spans();
        self.delivered.append(&mut spans);
        proof {
            assert(self@.delivered =~= old_delivered + batch@);
        }
    }
}

/// Makes a client from a configuration, consuming the configuration: the
/// caller's configuration handle is null after every call. A null
/// configuration handle yields a null client handle; otherwise the client
/// starts with the configuration's translated settings and an empty
/// delivery record.
pub fn nrt_client_new(config: &mut Option<ClientConfig>) -> (r: Option<Client>)
    ensures
        (*final(config)) is None,
        (r is Some) == ((*old(config)) is Some),
        r matches Some(c) ==> c.wf() && c@.settings == settings_of((*old(config))->0@)
            && c@.delivered == Seq::<SpanView>::empty(),
{
    match config.take() {
        None => None,
        Some(cfg) => {
            let settings = cfg.into_settings();
            let client = Client { settings, delivered: Vec::new() };
            proof {
                assert(client@.delivered =~= Seq::<SpanView>::empty());
            }
            Some(client)
        }
    }
}

/// Hands a completed batch over for transmission. On success — which
/// demands a live client handle and a live batch handle — the client takes
/// ownership of the batch, appends its spans to the delivery record in
/// their recording order, and nulls the caller's batch handle. On failure
/// neither the client nor the batch changes.
pub fn nrt_client_send(client: &mut Option<Client>, batch: &mut Option<SpanBatch>) -> (r: bool)
    requires
        (*old(client)) matches Some(c) ==> c.wf(),
        (*old(batch)) matches Some(b) ==> b.wf(),
    ensures
        r == ((*old(client)) is Some && (*old(batch)) is Some),
        r ==> ((*final(client)) matches Some(c) && c.wf() && c@.settings == (*old(
            client,
        ))->0@.settings && c@.delivered == (*old(client))->0@.delivered + (*old(batch))->0@),
        r == ((*final(batch)) is None && (*old(batch)) is Some),
        !r ==> *final(client) == *old(client) && *final(batch) == *old(batch),
{
    match client {
        None => false,
        Some(c) => {
            match batch.take() {
                None => false,
                Some(b) => {
                    c.deliver(b);
                    true
                }
            }
        }
    }
}

/// Flushes pending work, stops the sending collaborator's background
/// activity, frees the client and nulls the caller's handle; a safe no-op
/// on a handle that is already null.
pub fn nrt_client_shutdown(client: &mut Option<Client>)
    ensures
        (*final(client)) is None,
{
    *client = None;
}

/// Frees the client and nulls the caller's handle without flushing; a safe
/// no-op on a handle that is already null.
pub fn nrt_client_destroy(client: &mut Option<Client>)
    ensures
        (*final(client)) is None,
{
    *client = None;
}

} // verus!
