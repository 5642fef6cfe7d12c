//! The models of the service that render dialogue.

pub mod elevanlabs_models;
