//! Session logic of an OpenXR streaming client.
//!
//! A stream is a state that its owner moves on: the settings that it runs under
//! ([`config`]), the stream itself ([`context`]), the frames that it shows
//! ([`render`]), and the loop that polls the devices ([`input_loop`]) with the
//! guardian on a headset ([`guardian`]). What holds over several calls stands in
//! the modules whose names end in `laws`.
pub mod beep;
pub mod buttons;
pub mod config;
pub mod context;
pub mod context_laws;
pub mod decoder;
pub mod float32;
pub mod float32_laws;
pub mod guardian;
pub mod guardian_laws;
pub mod input_loop;
pub mod input_loop_laws;
pub mod render;
pub mod render_laws;
pub mod tracking;
