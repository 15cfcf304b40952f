//! The core of a one-to-many remote desktop: a server that shows one window of
//! its host to every viewer that connects, and takes the viewers' keyboard,
//! pointer and clipboard input.
//!
//! The library holds the decisions and leaves the doing to its user. A
//! [`session::Session`] is told what happened on the signaling socket and on
//! the peer connection of one viewer and says what to do next; a
//! [`pipeline::Pipeline`] does the same for the capture of the window. Both
//! are state machines with an exact description, and what holds of every run
//! of them is proved: candidates reach the peer in the order of their
//! production and never before the remote description ([`ordering`]), frames
//! never go back in time and one encoder serves a whole capture
//! ([`timeline`]).
//!
//! Around the two stand the values they work on: signaling messages
//! ([`signal`]), session descriptions ([`sdp`]), ICE candidates
//! ([`candidate`]), input messages and their bytes ([`input`], [`wire`]), the
//! choice of the window and the stamps of its frames ([`target`], [`clock`]),
//! the queue of encoded frames ([`queue`]), the shared track ([`track`]), the
//! sessions of a server ([`manager`], [`server`]), and what a viewer starts
//! with ([`state`], [`window`]).
//!
//! Reading and writing JSON and SDP, putting a candidate into its line and
//! writing the bytes of an input message is the work of `serde_json`,
//! `webrtc` and `flatbuffers`. The calls stand in [`json`], [`sdp`],
//! [`candidate`] and [`wire`], each behind a function whose contract is
//! believed, not proved; so do three calls into the standard library, in
//! [`target`] and [`wire`].

pub mod candidate;
pub mod clock;
pub mod input;
pub mod json;
pub mod manager;
pub mod ordering;
pub mod pipeline;
pub mod queue;
pub mod sdp;
pub mod server;
pub mod session;
pub mod signal;
pub mod state;
pub mod target;
pub mod timeline;
pub mod track;
pub mod window;
pub mod wire;
