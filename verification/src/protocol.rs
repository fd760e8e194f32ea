//! The command protocol crossing the thread boundary from the GUI-side
//! coordinator to the engine worker.

use vstd::prelude::*;

verus! {

/// One message the coordinator sends the worker over the command channel,
/// generic over the toolkit's raw input event type `E`.
///
/// The rendezvous messages carry their reply channels in the glue around
/// this core: `Heartbeat` is acknowledged after one full drain-to-fixed-point
/// pass, and `BorrowSurface` is answered with an optional GPU surface that
/// must be sent back before the worker proceeds.
pub enum EngineMessage<E> {
    /// Assign a URL; redundant assignments were already dropped by the
    /// coordinator.
    Url(String),
    /// The drawing surface changed to this width and height.
    Resize(i32, i32),
    /// Traverse history by a signed step count.
    Navigation(i32),
    /// A toolkit input event, forwarded verbatim.
    RawInput(E),
    /// Drain engine events to a fixed point; carries whether navigation is
    /// currently allowed.
    Heartbeat(bool),
    /// Lend a swap-chain surface to the GUI thread for one blit.
    BorrowSurface,
    /// Terminate the worker after flushing a final shutdown to the engine.
    Quit,
}

/// Spec-level value of an [`EngineMessage`]: the URL reduced to its
/// character sequence, the raw input payload carried through unchanged.
pub enum MessageModel<E> {
    Url(Seq<char>),
    Resize(i32, i32),
    Navigation(i32),
    RawInput(E),
    Heartbeat(bool),
    BorrowSurface,
    Quit,
}

impl<E> View for EngineMessage<E> {
    type V = MessageModel<E>;

    open spec fn view(&self) -> MessageModel<E> {
        match self {
            EngineMessage::Url(u) => MessageModel::Url(u@),
            EngineMessage::Resize(w, h) => MessageModel::Resize(*w, *h),
            EngineMessage::Navigation(d) => MessageModel::Navigation(*d),
            EngineMessage::RawInput(e) => MessageModel::RawInput(*e),
            EngineMessage::Heartbeat(allowed) => MessageModel::Heartbeat(*allowed),
            EngineMessage::BorrowSurface => MessageModel::BorrowSurface,
            EngineMessage::Quit => MessageModel::Quit,
        }
    }
}

impl<E> DeepView for EngineMessage<E> {
    type V = MessageModel<E>;

    open spec fn deep_view(&self) -> MessageModel<E> {
        self.view()
    }
}

} // verus!
