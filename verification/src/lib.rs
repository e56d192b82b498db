//! Normalisation of OneBot 11 gateway events into a platform-agnostic event
//! model: the wire model and its decoder, the translator, and the decisions of
//! the ingress loop.

pub mod config;
pub mod decimal;
pub mod decode;
pub mod encode;
pub mod event;
pub mod ingress;
pub mod json;
pub mod sevent;
pub mod translate;
