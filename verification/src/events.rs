//! Events arriving from the engine and commands queued for it.

use vstd::prelude::*;

verus! {

/// One event pulled out of the engine's internal queue.
///
/// Kinds the engine can emit but this core does not model arrive as
/// [`EngineEvent::Unrecognized`]; they are ignored, which keeps the bridge
/// forward-compatible with engine event types outside this protocol.
pub enum EngineEvent {
    /// The engine asks whether a new top-level view (tab/window) may open.
    /// It blocks until a reply command is queued.
    AllowOpeningView,
    /// The engine asks whether a navigation of `pipeline` to `url` may
    /// proceed. It blocks until a reply command is queued.
    AllowNavigationRequest { pipeline: u64, url: String },
    /// A new top-level view came into existence, with its engine-assigned id.
    ViewOpened { id: u64 },
    /// The view with this id was closed.
    ViewClosed { id: u64 },
    /// The page title changed; a page may have no title at all.
    ChangePageTitle { title: Option<String> },
    /// The page advertised a favicon.
    NewFavicon { url: String },
    /// A page load began.
    LoadStart,
    /// A page load finished.
    LoadComplete,
    /// The engine has composited a frame and wants it presented.
    ReadyToPresent,
    /// The session history changed: its entries and the current position.
    HistoryChanged { entries: Vec<String>, position: usize },
    /// An engine event kind not modeled by this core.
    Unrecognized,
}

/// A history event must point inside its own entry list; the engine
/// guarantees this, and the bridge requires it.
pub open spec fn event_wf(ev: EngineEvent) -> bool {
    match ev {
        EngineEvent::HistoryChanged { entries, position } => position < entries@.len(),
        _ => true,
    }
}

/// Direction and step count of a history traversal.
#[derive(Clone, Copy, PartialEq, Eq, Structural, Debug)]
pub enum TraversalDirection {
    Back(usize),
    Forward(usize),
}

/// The traversal that a signed step count denotes: negative steps go back,
/// non-negative steps go forward, by the magnitude.
pub open spec fn traversal_of_steps(steps: int) -> TraversalDirection {
    if steps < 0 {
        TraversalDirection::Back((-steps) as usize)
    } else {
        TraversalDirection::Forward(steps as usize)
    }
}

/// Turns the signed step count handed in by the GUI into the engine's
/// traversal direction.
pub fn traversal_direction(steps: i32) -> (r: TraversalDirection)
    ensures
        r == traversal_of_steps(steps as int),
{
    if steps < 0 {
        let wide: i64 = steps as i64;
        TraversalDirection::Back((-wide) as usize)
    } else {
        TraversalDirection::Forward(steps as usize)
    }
}

/// One command queued for the engine, generic over the toolkit's raw input
/// event type `E`, which this core forwards verbatim.
pub enum EngineCommand<E> {
    /// Reply to [`EngineEvent::AllowOpeningView`].
    AllowOpeningView { allow: bool },
    /// Reply to [`EngineEvent::AllowNavigationRequest`].
    AllowNavigationResponse { pipeline: u64, allow: bool },
    /// Give keyboard focus to a view.
    FocusView { id: u64 },
    /// Traverse the session history.
    Navigation { direction: TraversalDirection },
    /// Tell the engine that its drawing surface was resized.
    Resize,
    /// Load a URL in an existing view.
    LoadUrl { id: u64, url: String },
    /// Create the first top-level view, loading a URL into it.
    NewView { url: String, id: u64 },
    /// A toolkit input event, forwarded verbatim.
    RawInput { event: E },
    /// Shut the engine down.
    Quit,
}

/// Spec-level value of an [`EngineCommand`]: URLs reduced to character
/// sequences. The raw input payload is carried through unchanged.
pub enum CommandModel<E> {
    AllowOpeningView { allow: bool },
    AllowNavigationResponse { pipeline: u64, allow: bool },
    FocusView { id: u64 },
    Navigation { direction: TraversalDirection },
    Resize,
    LoadUrl { id: u64, url: Seq<char> },
    NewView { url: Seq<char>, id: u64 },
    RawInput { event: E },
    Quit,
}

impl<E> DeepView for EngineCommand<E> {
    type V = CommandModel<E>;

    open spec fn deep_view(&self) -> CommandModel<E> {
        self.view()
    }
}

impl<E> View for EngineCommand<E> {
    type V = CommandModel<E>;

    open spec fn view(&self) -> CommandModel<E> {
        match self {
            EngineCommand::AllowOpeningView { allow } => CommandModel::AllowOpeningView {
                allow: *allow,
            },
            EngineCommand::AllowNavigationResponse { pipeline, allow } => (
            CommandModel::AllowNavigationResponse { pipeline: *pipeline, allow: *allow }),
            EngineCommand::FocusView { id } => CommandModel::FocusView { id: *id },
            EngineCommand::Navigation { direction } => CommandModel::Navigation {
                direction: *direction,
            },
            EngineCommand::Resize => CommandModel::Resize,
            EngineCommand::LoadUrl { id, url } => CommandModel::LoadUrl { id: *id, url: url@ },
            EngineCommand::NewView { url, id } => CommandModel::NewView { url: url@, id: *id },
            EngineCommand::RawInput { event } => CommandModel::RawInput { event: *event },
            EngineCommand::Quit => CommandModel::Quit,
        }
    }
}

} // verus!
