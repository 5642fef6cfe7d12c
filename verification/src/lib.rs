//! Typed client core for a text-to-dialogue speech service.
//!
//! The crate builds the request for one dialogue (target address, headers and body),
//! classifies what the service answers, and keeps a small catalog of voices.
//! Sending the request is left to the caller's transport.

pub mod client;
pub mod error;
pub mod json;
pub mod models;
pub mod text;
pub mod types;
pub mod voices;
pub mod wire;

pub use client::{ElevenLabsTTDClient, TextToDialogueBuilder};
pub use error::ElevenLabsTTDError;
pub use types::{
    StaticVoice, TTDInput, TTDPronunciationDictionaryLocators, TTDRequest, TTDSettings,
};
