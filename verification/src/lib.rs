//! Synchronization core for hosting a web-rendering engine behind a GUI
//! toolkit's render loop.
//!
//! The engine itself (layout, script, networking) is an opaque collaborator
//! reached through its event/command interface. This crate holds the logic
//! that sits between that engine and the GUI thread: the bridge that turns a
//! drained batch of engine events into UI-observable deltas, the per-session
//! favicon cache, the command protocol that crosses the thread boundary, the
//! heartbeat bookkeeping that decides repaint/present/recomposite ordering
//! after a drain, and the accounting for the GPU surface borrow/recycle
//! handshake. The thread spawning, channels and GPU calls themselves are
//! ordinary glue around these verified pieces.

pub mod bridge;
pub mod coordinator;
pub mod events;
pub mod favicon;
pub mod heartbeat;
pub mod protocol;
pub mod response;
pub mod surface;
pub mod urls;
pub mod webview;
pub mod worker;
