//! Decision core of a Wayland input method that bridges the compositor's
//! input-method protocol and an SKK conversion engine.
//!
//! The crate holds no protocol object, keymap or engine. Every handler takes
//! the bridge state and one event and answers with the next state and the
//! outward calls to make, in order. The program around it owns the sockets,
//! the keymap and the engine, performs the calls and hands the answers back.

pub mod app_config;
pub mod event_loop;
pub mod protocol;
pub mod routing;
pub mod session;
pub mod wl_cskk_context;
