//! Zap generates the TypeScript declaration module through which a client
//! talks to a server over a described set of remote events and remote
//! functions.
//!
//! The description lives in [`config`]. [`text`] holds the vocabulary in
//! which emitted text is specified. [`output`] holds the emitter, the client
//! backend and what holds of every module it emits. Every executable
//! function is proved to append exactly the text that its specification
//! names, so the module a description yields is a function of the
//! description alone.

pub mod config;
pub mod output;
pub mod text;
