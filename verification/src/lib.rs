//! The interaction core of a small scene application that talks to a
//! rendering host through queued commands and their responses.
//!
//! The host drives the application: it ticks it, polls it for commands,
//! delivers the responses to them and the input events, and collects its
//! diagnostic text. The application shows a scene of models, follows the
//! pointer ray to what it points at, lets the user grab and drag entities,
//! and selects buttons by dwelling on them.
//!
//! `machine` describes the application as a state machine, `mapp` holds the
//! application itself, and `laws` states what holds however the host drives
//! it. The other modules hold the parts: the command `sequencer`, the
//! `slots` that bind what the host creates, the view `orientation`
//! aggregator, the ray `picker`, the dwell `selection` timer and the `grab`
//! controller, with the `protocol` they share with the host, the `formula`s
//! that stand for the host's numbers, the `placement` of things, the
//! `showcase` an application is made from, the names of its `assets` and
//! the buffer for diagnostic `io`.

pub mod assets;
pub mod formula;
pub mod protocol;
pub mod sequencer;
pub mod slots;
pub mod orientation;
pub mod picker;
pub mod selection;
pub mod grab;
pub mod io;
pub mod placement;
pub mod showcase;
pub mod machine;
pub mod mapp;
pub mod laws;
