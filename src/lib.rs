//! Host-side core of a desktop runtime: the typed command protocol, the
//! dispatch classifier, the bounded response queue and batcher, the event-loop
//! decisions, and the embedded-asset responder.

pub mod bus;
pub mod event_loop;
pub mod ipc;
pub mod json;
pub mod paths;
pub mod protocol;
pub mod storage;
pub mod strs;
pub mod updates;
pub mod window;
