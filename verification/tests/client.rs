use nrt::{
    nrt_client_config_destroy, nrt_client_config_new, nrt_client_config_set_backoff_factor,
    nrt_client_config_set_endpoint_traces, nrt_client_config_set_product_info,
    nrt_client_config_set_queue_max, nrt_client_config_set_retries_max, nrt_client_destroy,
    nrt_client_new, nrt_client_send, nrt_client_shutdown, nrt_span_batch_new,
    nrt_span_batch_record, nrt_span_new, nrt_span_set_duration, nrt_span_set_name, Client,
    ClientConfig, SpanBatch,
};

fn bytes(s: &str) -> Vec<u8> {
    s.as_bytes().to_vec()
}

#[test]
fn config_new_requires_utf8_key() {
    assert!(nrt_client_config_new(None).is_none());
    assert!(nrt_client_config_new(Some(vec![0xc0, 0xaf])).is_none());
    assert!(nrt_client_config_new(Some(bytes("abc123"))).is_some());
}

#[test]
fn config_defaults_translate_to_unset_options() {
    let mut config = nrt_client_config_new(Some(bytes("abc123")));
    let client = nrt_client_new(&mut config).unwrap();
    let settings = client.settings();
    assert_eq!(settings.key, bytes("abc123"));
    assert!(settings.backoff_factor_ms.is_none());
    assert!(settings.retries_max.is_none());
    assert!(settings.endpoint.is_none());
    assert!(settings.product_info.is_none());
    assert!(settings.queue_max.is_none());
}

#[test]
fn config_setters_translate_into_settings() {
    let mut config = nrt_client_config_new(Some(bytes("abc123")));
    nrt_client_config_set_backoff_factor(&mut config, 250);
    nrt_client_config_set_retries_max(&mut config, 3);
    nrt_client_config_set_endpoint_traces(&mut config, Some(bytes("example.test")), 8080);
    nrt_client_config_set_product_info(&mut config, Some(bytes("my-service")), Some(bytes("1.0")));
    nrt_client_config_set_queue_max(&mut config, 100);
    let client = nrt_client_new(&mut config).unwrap();
    let settings = client.settings();
    assert_eq!(settings.backoff_factor_ms, Some(250));
    assert_eq!(settings.retries_max, Some(3));
    assert_eq!(settings.endpoint, Some((bytes("example.test"), Some(8080))));
    assert_eq!(settings.product_info, Some((bytes("my-service"), bytes("1.0"))));
    assert_eq!(settings.queue_max, Some(100));
}

#[test]
fn endpoint_port_zero_means_default_port() {
    let mut config = nrt_client_config_new(Some(bytes("k")));
    nrt_client_config_set_endpoint_traces(&mut config, Some(bytes("example.test")), 0);
    let client = nrt_client_new(&mut config).unwrap();
    assert_eq!(client.settings().endpoint, Some((bytes("example.test"), None)));
}

#[test]
fn endpoint_with_malformed_host_changes_nothing() {
    let mut config = nrt_client_config_new(Some(bytes("k")));
    nrt_client_config_set_endpoint_traces(&mut config, Some(vec![0x80]), 443);
    nrt_client_config_set_endpoint_traces(&mut config, None, 443);
    let client = nrt_client_new(&mut config).unwrap();
    assert!(client.settings().endpoint.is_none());
}

#[test]
fn product_without_version_gets_empty_version() {
    let mut config = nrt_client_config_new(Some(bytes("k")));
    nrt_client_config_set_product_info(&mut config, Some(bytes("my-service")), None);
    let client = nrt_client_new(&mut config).unwrap();
    assert_eq!(client.settings().product_info, Some((bytes("my-service"), bytes(""))));
}

#[test]
fn product_slots_are_set_each_on_its_own() {
    let mut config = nrt_client_config_new(Some(bytes("k")));
    nrt_client_config_set_product_info(&mut config, Some(bytes("my-service")), None);
    nrt_client_config_set_product_info(&mut config, Some(vec![0xff]), Some(bytes("2.0")));
    let client = nrt_client_new(&mut config).unwrap();
    assert_eq!(client.settings().product_info, Some((bytes("my-service"), bytes("2.0"))));
}

#[test]
fn config_setters_on_null_handle_do_nothing() {
    let mut config: Option<ClientConfig> = None;
    nrt_client_config_set_backoff_factor(&mut config, 1);
    nrt_client_config_set_retries_max(&mut config, 1);
    nrt_client_config_set_endpoint_traces(&mut config, Some(bytes("h")), 1);
    nrt_client_config_set_product_info(&mut config, Some(bytes("p")), Some(bytes("v")));
    nrt_client_config_set_queue_max(&mut config, 1);
    assert!(config.is_none());
}

#[test]
fn config_destroy_twice_is_noop() {
    let mut config = nrt_client_config_new(Some(bytes("k")));
    assert!(config.is_some());
    nrt_client_config_destroy(&mut config);
    assert!(config.is_none());
    nrt_client_config_destroy(&mut config);
    assert!(config.is_none());
}

#[test]
fn client_new_consumes_config() {
    let mut config = nrt_client_config_new(Some(bytes("k")));
    let client = nrt_client_new(&mut config);
    assert!(client.is_some());
    assert!(config.is_none());
    assert_eq!(client.unwrap().delivered_len(), 0);
}

#[test]
fn client_new_on_null_config_fails() {
    let mut config: Option<ClientConfig> = None;
    assert!(nrt_client_new(&mut config).is_none());
    assert!(config.is_none());
}

#[test]
fn send_delivers_spans_in_recording_order() {
    let mut client = {
        let mut config = nrt_client_config_new(Some(bytes("k")));
        nrt_client_new(&mut config)
    };
    let mut first = nrt_span_batch_new();
    let mut span = nrt_span_new(Some(bytes("s1")), Some(bytes("t")), 0);
    assert!(nrt_span_batch_record(&mut first, &mut span));
    let mut second = nrt_span_batch_new();
    for name in ["s2", "s3"] {
        let mut span = nrt_span_new(Some(bytes(name)), Some(bytes("t")), 0);
        assert!(nrt_span_batch_record(&mut second, &mut span));
    }
    assert!(nrt_client_send(&mut client, &mut first));
    assert!(first.is_none());
    assert!(nrt_client_send(&mut client, &mut second));
    assert!(second.is_none());
    let client = client.unwrap();
    assert_eq!(client.delivered_len(), 3);
    assert_eq!(client.delivered_at(0).id(), &bytes("s1"));
    assert_eq!(client.delivered_at(1).id(), &bytes("s2"));
    assert_eq!(client.delivered_at(2).id(), &bytes("s3"));
}

#[test]
fn send_on_null_client_leaves_batch() {
    let mut client: Option<Client> = None;
    let mut batch = nrt_span_batch_new();
    let mut span = nrt_span_new(Some(bytes("s1")), Some(bytes("t")), 0);
    assert!(nrt_span_batch_record(&mut batch, &mut span));
    assert!(!nrt_client_send(&mut client, &mut batch));
    let batch = batch.expect("the batch was not transferred");
    assert_eq!(batch.len(), 1);
    assert_eq!(batch.get(0).id(), &bytes("s1"));
}

#[test]
fn send_on_null_batch_fails() {
    let mut config = nrt_client_config_new(Some(bytes("k")));
    let mut client = nrt_client_new(&mut config);
    let mut batch: Option<SpanBatch> = None;
    assert!(!nrt_client_send(&mut client, &mut batch));
    assert_eq!(client.unwrap().delivered_len(), 0);
}

#[test]
fn client_shutdown_nulls_handle() {
    let mut config = nrt_client_config_new(Some(bytes("k")));
    let mut client = nrt_client_new(&mut config);
    assert!(client.is_some());
    nrt_client_shutdown(&mut client);
    assert!(client.is_none());
    nrt_client_shutdown(&mut client);
    assert!(client.is_none());
}

#[test]
fn client_destroy_twice_is_noop() {
    let mut config = nrt_client_config_new(Some(bytes("k")));
    let mut client = nrt_client_new(&mut config);
    nrt_client_destroy(&mut client);
    assert!(client.is_none());
    nrt_client_destroy(&mut client);
    assert!(client.is_none());
}

#[test]
fn end_to_end_scenario() {
    let mut config = nrt_client_config_new(Some(bytes("abc123")));
    nrt_client_config_set_product_info(&mut config, Some(bytes("my-service")), Some(bytes("1.0")));
    let mut client = nrt_client_new(&mut config);
    assert!(client.is_some());
    assert!(config.is_none());

    let mut span = nrt_span_new(Some(bytes("s1")), Some(bytes("t1")), 1000);
    assert!(nrt_span_set_name(&mut span, Some(bytes("handler"))));
    assert!(nrt_span_set_duration(&mut span, 50));
    let mut batch = nrt_span_batch_new();
    assert!(nrt_span_batch_record(&mut batch, &mut span));
    assert!(span.is_none());

    assert!(nrt_client_send(&mut client, &mut batch));
    assert!(batch.is_none());
    {
        let client = client.as_ref().unwrap();
        assert_eq!(client.delivered_len(), 1);
        assert_eq!(client.delivered_at(0).id(), &bytes("s1"));
        assert_eq!(client.delivered_at(0).name(), &Some(bytes("handler")));
        assert_eq!(client.delivered_at(0).duration_ms(), Some(50));
    }

    nrt_client_shutdown(&mut client);
    assert!(client.is_none());
}
