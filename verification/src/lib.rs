//! Transport-agnostic endpoint dispatch, session security, and the WiFi
//! provisioning protocol built on top of them.
//!
//! The crate is organised in layers, leaves first:
//! - [`codec`]: the field-tagged binary wire format of the scan and config
//!   endpoints (varint-based, protobuf-style framing).
//! - [`security`]: the session-security layer: an open variant and an
//!   authenticated variant with a handshake and a symmetric stream transform.
//! - [`protocomm`]: the endpoint registry and the dispatch policy that applies
//!   the security layer around registered callbacks.
//! - [`wifi`]: plain-value models of the WiFi controller's data (access-point
//!   records, client configuration).
//! - [`wifi_prov`]: the provisioning manager and its shared session state.
//! - [`ep_prov_scan`] / [`ep_prov_config`]: the scan and configuration
//!   endpoint handlers.
//!
//! Blocking collaborators (the radio, durable storage, the physical
//! transport) stay outside: the library computes every decision from plain
//! values handed in by the caller and states what it did in its contracts.

pub mod codec;
pub mod ep_prov_config;
pub mod ep_prov_scan;
pub mod protocomm;
pub mod security;
pub mod wifi;
pub mod wifi_prov;
