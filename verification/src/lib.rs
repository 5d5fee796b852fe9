//! Core of a frame-synchronized input-capture engine.
//!
//! The library merges time-stamped device events from several producers into
//! one ordered stream, keeps a canonical account of what is currently pressed
//! split by provenance (physical user input vs. synthetic system input),
//! samples that state once per encoded video frame, hands inference frames to
//! a network sender through a single-slot most-recent-wins channel, folds the
//! recorded frames into a serializable session artifact, and finally replays
//! the raw timeline to cross-validate the per-frame aggregates against the
//! encoded video.

pub mod geom;
pub mod codeset;
pub mod event;
pub mod config;
pub mod timeline;
pub mod state;
pub mod registry;
pub mod frame;
pub mod manager;
pub mod lag;
pub mod wire;
pub mod resize;
pub mod capture;
pub mod checker;
pub mod annotate;
pub mod view;
pub mod laws;
