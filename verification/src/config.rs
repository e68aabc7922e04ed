//! The client configuration: a builder-style record of connection, retry
//! and product options, held through a nullable handle and consumed exactly
//! once when a client is made from it.
//!
//! Creation demands an API key in well-formed UTF-8. Each setter mutates
//! its own optional slot in place; an unset slot means "use the sending
//! collaborator's default". Setters on a null handle, and setters whose
//! string argument is null or malformed UTF-8, change nothing.

use vstd::prelude::*;

use crate::utf8::is_utf8;
use crate::utf8::utf8_valid;

verus! {

/// The mathematical value of a [`ClientConfig`].
pub struct ConfigView {
    pub key: Seq<u8>,
    pub backoff_factor_ms: Option<u64>,
    pub retries_max: Option<u32>,
    pub host: Option<Seq<u8>>,
    pub port: Option<u16>,
    pub product: Option<Seq<u8>>,
    pub version: Option<Seq<u8>>,
    pub queue_max: Option<usize>,
}

/// A builder-style record of connection, retry and product options for a
/// client about to be made.
pub struct ClientConfig {
    key: Vec<u8>,
    backoff_factor_ms: Option<u64>,
    retries_max: Option<u32>,
    host: Option<Vec<u8>>,
    port: Option<u16>,
    product: Option<Vec<u8>>,
    version: Option<Vec<u8>>,
    queue_max: Option<usize>,
}

impl View for ClientConfig {
    type V = ConfigView;

    closed spec fn view(&self) -> ConfigView {
        ConfigView {
            key: self.key@,
            backoff_factor_ms: self.backoff_factor_ms,
            retries_max: self.retries_max,
            host: match self.host {
                Some(v) => Some(v@),
                None => None,
            },
            port: self.port,
            product: match self.product {
                Some(v) => Some(v@),
                None => None,
            },
            version: match self.version {
                Some(v) => Some(v@),
                None => None,
            },
            queue_max: self.queue_max,
        }
    }
}

/// Creates a configuration holding the mandatory API key and no other
/// options. The key must be present and well-formed UTF-8; otherwise no
/// configuration is made and the result is a null handle.
pub fn nrt_client_config_new(key: Option<Vec<u8>>) -> (r: Option<ClientConfig>)
    ensures
        (r is Some) == (key is Some && is_utf8(key->0@)),
        r matches Some(c) ==> c@ == (ConfigView {
            key: key->0@,
            backoff_factor_ms: None,
            retries_max: None,
            host: None,
            port: None,
            product: None,
            version: None,
            queue_max: None,
        }),
{
    match key {
        None => None,
        Some(key_bytes) => {
            if utf8_valid(&key_bytes) {
                Some(
                    ClientConfig {
                        key: key_bytes,
                        backoff_factor_ms: None,
                        retries_max: None,
                        host: None,
                        port: None,
                        product: None,
                        version: None,
                        queue_max: None,
                    },
                )
            } else {
                None
            }
        }
    }
}

/// Sets the retry backoff factor, in milliseconds. A null handle is left
/// unchanged.
pub fn nrt_client_config_set_backoff_factor(config: &mut Option<ClientConfig>, backoff_factor: u64)
    ensures
        (*old(config)) matches Some(c) ==> ((*final(config)) matches Some(n) && n@ == (ConfigView {
            backoff_factor_ms: Some(backoff_factor),
            ..c@
        })),
        (*old(config)) is None ==> *final(config) == *old(config),
{
    match config {
        None => {}
        Some(c) => {
            c.backoff_factor_ms = Some(backoff_factor);
        }
    }
}

/// Sets the maximum number of send retries. A null handle is left
/// unchanged.
pub fn nrt_client_config_set_retries_max(config: &mut Option<ClientConfig>, retries: u32)
    ensures
        (*old(config)) matches Some(c) ==> ((*final(config)) matches Some(n) && n@ == (ConfigView {
            retries_max: Some(retries),
            ..c@
        })),
        (*old(config)) is None ==> *final(config) == *old(config),
{
    match config {
        None => {}
        Some(c) => {
            c.retries_max = Some(retries);
        }
    }
}

/// Sets the trace endpoint: a host, and a port where a port of 0 means
/// "use the default port". Nothing changes when the handle or the host is
/// null or the host is malformed UTF-8.
pub fn nrt_client_config_set_endpoint_traces(
    config: &mut Option<ClientConfig>,
    host: Option<Vec<u8>>,
    port: u16,
)
    ensures
        ((*old(config)) is Some && host is Some && is_utf8(host->0@))
            ==> ((*final(config)) matches Some(n) && n@ == (ConfigView {
            host: Some(host->0@),
            port: if port == 0 {
                None
            } else {
                Some(port)
            },
            ..(*old(config))->0@
        })),
        !((*old(config)) is Some && host is Some && is_utf8(host->0@)) ==> *final(config) == *old(
            config,
        ),
{
    match host {
        None => {}
        Some(host_bytes) => {
            match config {
                None => {}
                Some(c) => {
                    if utf8_valid(&host_bytes) {
                        c.host = Some(host_bytes);
                        c.port = if port == 0 {
                            None
                        } else {
                            Some(port)
                        };
                    }
                }
            }
        }
    }
}

/// Sets the product name and, when one is given, the product version. A
/// null product leaves everything unchanged; otherwise the name is stored
/// when it is well-formed UTF-8, and the version is stored when it is
/// present and well-formed UTF-8 — each slot on its own.
pub fn nrt_client_config_set_product_info(
    config: &mut Option<ClientConfig>,
    product: Option<Vec<u8>>,
    version: Option<Vec<u8>>,
)
    ensures
        ((*old(config)) is None || product is None) ==> *final(config) == *old(config),
        ((*old(config)) is Some && product is Some) ==> ((*final(config)) matches Some(n) && n@
            == (ConfigView {
            product: if is_utf8(product->0@) {
                Some(product->0@)
            } else {
                (*old(config))->0@.product
            },
            version: if version is Some && is_utf8(version->0@) {
                Some(version->0@)
            } else {
                (*old(config))->0@.version
            },
            ..(*old(config))->0@
        })),
{
    match product {
        None => {}
        Some(product_bytes) => {
            match config {
                None => {}
                Some(c) => {
                    if utf8_valid(&product_bytes) {
                        c.product = Some(product_bytes);
                    }
                    match version {
                        None => {}
                        Some(version_bytes) => {
                            if utf8_valid(&version_bytes) {
                                c.version = Some(version_bytes);
                            }
                        }
                    }
                }
            }
        }
    }
}

/// Sets the maximum size of the sending queue. A null handle is left
/// unchanged.
pub fn nrt_client_config_set_queue_max(config: &mut Option<ClientConfig>, queue_max: usize)
    ensures
        (*old(config)) matches Some(c) ==> ((*final(config)) matches Some(n) && n@ == (ConfigView {
            queue_max: Some(queue_max),
            ..c@
        })),
        (*old(config)) is None ==> *final(config) == *old(config),
{
    match config {
        None => {}
        Some(c) => {
            c.queue_max = Some(queue_max);
        }
    }
}

/// Frees the configuration without making a client, and nulls the caller's
/// handle; a safe no-op on a handle that is already null.
pub fn nrt_client_config_destroy(config: &mut Option<ClientConfig>)
    ensures
        (*final(config)) is None,
{
    *config = None;
}

/// The mathematical value of a [`ClientSettings`].
pub struct SettingsView {
    pub key: Seq<u8>,
    pub backoff_factor_ms: Option<u64>,
    pub retries_max: Option<u32>,
    pub endpoint: Option<(Seq<u8>, Option<u16>)>,
    pub product_info: Option<(Seq<u8>, Seq<u8>)>,
    pub queue_max: Option<usize>,
}

/// The effective settings a client is built with: every option the
/// configuration holds, translated exactly as the sending collaborator's
/// builder receives it. An absent option means the collaborator's default.
pub struct ClientSettings {
    pub key: Vec<u8>,
    pub backoff_factor_ms: Option<u64>,
    pub retries_max: Option<u32>,
    pub endpoint: Option<(Vec<u8>, Option<u16>)>,
    pub product_info: Option<(Vec<u8>, Vec<u8>)>,
    pub queue_max: Option<usize>,
}

impl View for ClientSettings {
    type V = SettingsView;

    open spec fn view(&self) -> SettingsView {
        SettingsView {
            key: self.key@,
            backoff_factor_ms: self.backoff_factor_ms,
            retries_max: self.retries_max,
            endpoint: match self.endpoint {
                Some(e) => Some((e.0@, e.1)),
                None => None,
            },
            product_info: match self.product_info {
                Some(p) => Some((p.0@, p.1@)),
                None => None,
            },
            queue_max: self.queue_max,
        }
    }
}

/// The translation of a configuration into effective settings: the
/// endpoint exists exactly when a host was set, and a set product name
/// carries the set version, or the empty string when none was set.
pub open spec fn settings_of(c: ConfigView) -> SettingsView {
    SettingsView {
        key: c.key,
        backoff_factor_ms: c.backoff_factor_ms,
        retries_max: c.retries_max,
        endpoint: match c.host {
            Some(h) => Some((h, c.port)),
            None => None,
        },
        product_info: match c.product {
            Some(p) => Some(
                (
                    p,
                    match c.version {
                        Some(v) => v,
                        None => Seq::empty(),
                    },
                ),
            ),
            None => None,
        },
        queue_max: c.queue_max,
    }
}

impl ClientConfig {
    /// Consumes the configuration and hands back the effective settings,
    /// option by option, as a client is built from them.
    pub fn into_settings(self) -> (r: ClientSettings)
        ensures
            r@ == settings_of(self@),
    {
        let endpoint = match self.host {
            Some(host) => Some((host, self.port)),
            None => None,
        };
        let product_info = match self.product {
            Some(product) => Some(
                (
                    product,
                    match self.version {
                        Some(version) => version,
                        None => Vec::new(),
                    },
                ),
            ),
            None => None,
        };
        ClientSettings {
            key: self.key,
            backoff_factor_ms: self.backoff_factor_ms,
            retries_max: self.retries_max,
            endpoint,
            product_info,
            queue_max: self.queue_max,
        }
    }
}

} // verus!
