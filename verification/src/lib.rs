//! The core of a desktop scrobbler: a playback tracker that decides when a
//! track is announced and when it is scrobbled, the settings that steer it,
//! the request signer and request builder for the scrobbling service, and the
//! request reader of the loopback endpoints that feed it.

pub mod bytes;
pub mod callback;
pub mod client;
pub mod clock;
pub mod config;
pub mod endpoint;
pub mod overlay;
pub mod overlay_template;
pub mod param_order;
pub mod replay;
pub mod signer;
pub mod tracker;
