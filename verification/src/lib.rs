//! The capture-and-orchestration engine of a push-to-talk voice assistant:
//! a hotkey-edge detector, the lifecycle of one hardware capture session,
//! and the state machine that sequences capture, transcription, response
//! generation and publication over a shared phase/reply store. The speech
//! and chat collaborators, the hardware, and every form of I/O live in the
//! surrounding program; this crate holds the decisions and proves them.

pub mod capture;
pub mod hotkey;
pub mod messages;
pub mod pipeline;
pub mod request;
pub mod response;
pub mod state;
pub mod store;
pub mod wav;
