use nrt::{
    nrt_attributes_new, nrt_attributes_set_int, nrt_span_batch_destroy, nrt_span_batch_new,
    nrt_span_batch_record, nrt_span_destroy, nrt_span_new, nrt_span_set_attributes,
    nrt_span_set_duration, nrt_span_set_id, nrt_span_set_name, nrt_span_set_parent_id,
    nrt_span_set_service_name, nrt_span_set_timestamp, nrt_span_set_trace_id, AttrValue, Attributes,
    Span, SpanBatch,
};

fn bytes(s: &str) -> Vec<u8> {
    s.as_bytes().to_vec()
}

#[test]
fn span_new_requires_trace_id() {
    assert!(nrt_span_new(Some(bytes("s1")), None, 0).is_none());
}

#[test]
fn span_new_requires_id() {
    assert!(nrt_span_new(None, Some(bytes("t1")), 0).is_none());
}

#[test]
fn span_new_rejects_malformed_ids() {
    assert!(nrt_span_new(Some(vec![0xff]), Some(bytes("t1")), 0).is_none());
    assert!(nrt_span_new(Some(bytes("s1")), Some(vec![0xed, 0xa0, 0x80]), 0).is_none());
}

#[test]
fn span_new_sets_identity_and_timestamp() {
    let handle = nrt_span_new(Some(bytes("s1")), Some(bytes("t1")), 1000);
    let span = handle.expect("well-formed ids make a span");
    assert_eq!(span.id(), &bytes("s1"));
    assert_eq!(span.trace_id(), &bytes("t1"));
    assert_eq!(span.timestamp(), 1000);
    assert!(span.name().is_none());
    assert!(span.service_name().is_none());
    assert!(span.parent_id().is_none());
    assert!(span.duration_ms().is_none());
    assert!(span.attributes().is_none());
}

#[test]
fn span_setters_update_fields() {
    let mut handle = nrt_span_new(Some(bytes("s1")), Some(bytes("t1")), 0);
    assert!(nrt_span_set_id(&mut handle, Some(bytes("s2"))));
    assert!(nrt_span_set_trace_id(&mut handle, Some(bytes("t2"))));
    assert!(nrt_span_set_name(&mut handle, Some(bytes("handler"))));
    assert!(nrt_span_set_service_name(&mut handle, Some(bytes("svc"))));
    assert!(nrt_span_set_parent_id(&mut handle, Some(bytes("p1"))));
    assert!(nrt_span_set_timestamp(&mut handle, 2000));
    assert!(nrt_span_set_duration(&mut handle, 50));
    let span = handle.unwrap();
    assert_eq!(span.id(), &bytes("s2"));
    assert_eq!(span.trace_id(), &bytes("t2"));
    assert_eq!(span.name(), &Some(bytes("handler")));
    assert_eq!(span.service_name(), &Some(bytes("svc")));
    assert_eq!(span.parent_id(), &Some(bytes("p1")));
    assert_eq!(span.timestamp(), 2000);
    assert_eq!(span.duration_ms(), Some(50));
}

#[test]
fn span_setters_fail_on_null_span() {
    let mut handle: Option<Span> = None;
    assert!(!nrt_span_set_id(&mut handle, Some(bytes("s"))));
    assert!(!nrt_span_set_trace_id(&mut handle, Some(bytes("t"))));
    assert!(!nrt_span_set_name(&mut handle, Some(bytes("n"))));
    assert!(!nrt_span_set_service_name(&mut handle, Some(bytes("v"))));
    assert!(!nrt_span_set_parent_id(&mut handle, Some(bytes("p"))));
    assert!(!nrt_span_set_timestamp(&mut handle, 1));
    assert!(!nrt_span_set_duration(&mut handle, 1));
    assert!(handle.is_none());
}

#[test]
fn span_setters_reject_malformed_utf8() {
    let mut handle = nrt_span_new(Some(bytes("s1")), Some(bytes("t1")), 0);
    assert!(!nrt_span_set_name(&mut handle, Some(vec![0xf5])));
    assert!(!nrt_span_set_name(&mut handle, None));
    let span = handle.unwrap();
    assert!(span.name().is_none());
}

#[test]
fn span_set_attributes_transfers_map() {
    let mut span = nrt_span_new(Some(bytes("s1")), Some(bytes("t1")), 0);
    let mut attrs = nrt_attributes_new();
    assert!(nrt_attributes_set_int(&mut attrs, Some(bytes("k")), 9));
    assert!(nrt_span_set_attributes(&mut span, &mut attrs));
    assert!(attrs.is_none());
    let span = span.unwrap();
    let attached = span.attributes().as_ref().expect("the map was attached");
    assert_eq!(attached.get(&bytes("k")), Some(&AttrValue::Int(9)));
}

#[test]
fn span_set_attributes_consumes_map_on_null_span() {
    let mut span: Option<Span> = None;
    let mut attrs = nrt_attributes_new();
    assert!(nrt_attributes_set_int(&mut attrs, Some(bytes("k")), 9));
    assert!(!nrt_span_set_attributes(&mut span, &mut attrs));
    assert!(attrs.is_none());
    assert!(span.is_none());
}

#[test]
fn span_set_attributes_null_map_is_non_transfer() {
    let mut span = nrt_span_new(Some(bytes("s1")), Some(bytes("t1")), 0);
    let mut attrs: Option<Attributes> = None;
    assert!(!nrt_span_set_attributes(&mut span, &mut attrs));
    assert!(attrs.is_none());
    assert!(span.unwrap().attributes().is_none());
}

#[test]
fn span_destroy_twice_is_noop() {
    let mut handle = nrt_span_new(Some(bytes("s1")), Some(bytes("t1")), 0);
    assert!(handle.is_some());
    nrt_span_destroy(&mut handle);
    assert!(handle.is_none());
    nrt_span_destroy(&mut handle);
    assert!(handle.is_none());
}

#[test]
fn record_nulls_span_iff_true() {
    let mut batch = nrt_span_batch_new();
    let mut span = nrt_span_new(Some(bytes("s1")), Some(bytes("t1")), 1000);
    assert!(nrt_span_set_name(&mut span, Some(bytes("handler"))));
    assert!(nrt_span_set_duration(&mut span, 50));
    assert!(nrt_span_batch_record(&mut batch, &mut span));
    assert!(span.is_none());
    let batch = batch.unwrap();
    assert_eq!(batch.len(), 1);
    let recorded = batch.get(0);
    assert_eq!(recorded.id(), &bytes("s1"));
    assert_eq!(recorded.trace_id(), &bytes("t1"));
    assert_eq!(recorded.timestamp(), 1000);
    assert_eq!(recorded.name(), &Some(bytes("handler")));
    assert_eq!(recorded.duration_ms(), Some(50));
}

#[test]
fn record_on_null_batch_leaves_span() {
    let mut batch: Option<SpanBatch> = None;
    let mut span = nrt_span_new(Some(bytes("s1")), Some(bytes("t1")), 0);
    assert!(!nrt_span_batch_record(&mut batch, &mut span));
    assert!(span.is_some());
    assert!(batch.is_none());
}

#[test]
fn record_on_null_span_fails() {
    let mut batch = nrt_span_batch_new();
    let mut span: Option<Span> = None;
    assert!(!nrt_span_batch_record(&mut batch, &mut span));
    assert_eq!(batch.unwrap().len(), 0);
}

#[test]
fn batch_preserves_recording_order() {
    let mut batch = nrt_span_batch_new();
    for name in ["s1", "s2", "s3"] {
        let mut span = nrt_span_new(Some(bytes(name)), Some(bytes("t1")), 0);
        assert!(nrt_span_batch_record(&mut batch, &mut span));
    }
    let batch = batch.unwrap();
    assert_eq!(batch.len(), 3);
    assert_eq!(batch.get(0).id(), &bytes("s1"));
    assert_eq!(batch.get(1).id(), &bytes("s2"));
    assert_eq!(batch.get(2).id(), &bytes("s3"));
}

#[test]
fn batch_destroy_twice_is_noop() {
    let mut handle = nrt_span_batch_new();
    assert!(handle.is_some());
    nrt_span_batch_destroy(&mut handle);
    assert!(handle.is_none());
    nrt_span_batch_destroy(&mut handle);
    assert!(handle.is_none());
}
