//! Presence and playback logic of the KHInsider desktop/mobile companion:
//! Discord gateway and OAuth2 headless-session protocols, now-playing state,
//! and background-audio control decisions.

pub mod text;
pub mod codec;
pub mod json;
pub mod presence;
pub mod gateway;
pub mod oauth;
pub mod headless;
pub mod audio;
pub mod clock;
