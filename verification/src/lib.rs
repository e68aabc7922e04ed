//! A verified handle boundary for batching and transmitting telemetry spans.
//!
//! Callers hold every entity — attribute map, span, span batch, client
//! configuration, client — only through a nullable handle. An operation that
//! takes ownership of an entity nulls the caller's handle on success, so that
//! a transfer is visible in the caller's own state and a double destroy is a
//! detectable no-op rather than a fault. String arguments arrive as raw byte
//! sequences and are accepted only when they are well-formed UTF-8.

pub mod attributes;
pub mod batch;
pub mod client;
pub mod config;
pub mod logging;
pub mod span;
pub mod utf8;

pub use attributes::nrt_attributes_destroy;
pub use attributes::nrt_attributes_new;
pub use attributes::nrt_attributes_set_bool;
pub use attributes::nrt_attributes_set_double;
pub use attributes::nrt_attributes_set_int;
pub use attributes::nrt_attributes_set_string;
pub use attributes::nrt_attributes_set_uint;
pub use attributes::AttrValue;
pub use attributes::Attributes;
pub use batch::nrt_span_batch_destroy;
pub use batch::nrt_span_batch_new;
pub use batch::nrt_span_batch_record;
pub use batch::SpanBatch;
pub use client::nrt_client_destroy;
pub use client::nrt_client_new;
pub use client::nrt_client_send;
pub use client::nrt_client_shutdown;
pub use client::Client;
pub use config::nrt_client_config_destroy;
pub use config::nrt_client_config_new;
pub use config::nrt_client_config_set_backoff_factor;
pub use config::nrt_client_config_set_endpoint_traces;
pub use config::nrt_client_config_set_product_info;
pub use config::nrt_client_config_set_queue_max;
pub use config::nrt_client_config_set_retries_max;
pub use config::ClientConfig;
pub use config::ClientSettings;
pub use logging::nrt_log_plan;
pub use logging::LogLevel;
pub use logging::LogPlan;
pub use logging::LogTarget;
pub use span::nrt_span_destroy;
pub use span::nrt_span_new;
pub use span::nrt_span_set_attributes;
pub use span::nrt_span_set_duration;
pub use span::nrt_span_set_id;
pub use span::nrt_span_set_name;
pub use span::nrt_span_set_parent_id;
pub use span::nrt_span_set_service_name;
pub use span::nrt_span_set_timestamp;
pub use span::nrt_span_set_trace_id;
pub use span::Span;
pub use utf8::bytes_eq;
pub use utf8::utf8_valid;
