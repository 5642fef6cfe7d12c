//! The voices that the library knows by name.

pub mod all_voices;
