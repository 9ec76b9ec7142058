//! A streaming client for an exchange's public market-data channel, with
//! every decision it makes stated and proved: reconnection with bounded
//! backoff, replay of the latest subscription, classification of inbound
//! frames, typed decoding of their events, an ordered event queue and
//! rolling health telemetry. The transport is driven by the caller, who
//! hands each frame to the client and carries out the step it returns.
pub mod api;
pub mod backoff;
pub mod client;
pub mod events;
pub mod frame;
pub mod history;
pub mod json;
pub mod subscription;
pub mod text;
pub mod wss;
