//! The GUI-side view state: the UI-observable properties that drained
//! responses are applied to, the pending input queue, and the touch-event
//! value handed in by the toolkit.

use vstd::prelude::*;

use crate::coordinator::{PendingInputQueue, RendererSync};
use crate::response::BrowserResponse;

verus! {

/// Lifecycle state of one touch point, as the toolkit reports it.
#[derive(Clone, Copy, PartialEq, Eq, Structural, Debug)]
pub enum TouchPointState {
    Unknown,
    Stationary,
    Pressed,
    Updated,
    Released,
}

/// One touch point: its toolkit-assigned id, its position in device pixels,
/// and its state.
#[derive(Clone, Copy, PartialEq, Eq, Structural, Debug)]
pub struct TouchPoint {
    pub id: i32,
    pub x: i32,
    pub y: i32,
    pub state: TouchPointState,
}

/// A touch event: the touch points it reports, in toolkit order. An event
/// with no points means the toolkit cancelled the touch sequence.
pub struct QTouchEvent {
    points: Vec<TouchPoint>,
}

impl View for QTouchEvent {
    type V = Seq<TouchPoint>;

    closed spec fn view(&self) -> Seq<TouchPoint> {
        self.points@
    }
}

impl QTouchEvent {
    /// A touch event over the given points.
    pub fn new(points: Vec<TouchPoint>) -> (r: Self)
        ensures
            r@ == points@,
    {
        QTouchEvent { points }
    }

    /// How many touch points the event reports.
    pub fn point_count(&self) -> (r: usize)
        ensures
            r == self@.len(),
    {
        self.points.len()
    }

    /// The touch point at `index`.
    pub fn point(&self, index: usize) -> (r: &TouchPoint)
        requires
            index < self@.len(),
        ensures
            *r == self@[index as int],
    {
        &self.points[index]
    }
}

/// The web view as the GUI observes it: its properties, whether navigation
/// is currently allowed, and the input events accumulated since the last
/// render pass.
pub struct ServoWebView<E> {
    /// Page title, once one was reported.
    pub title: Option<String>,
    /// Whether a page load is in progress.
    pub loading: bool,
    /// Favicon URL, once one was reported.
    pub favicon_url: Option<String>,
    /// Current URL, once one was applied.
    pub url: Option<String>,
    /// The last navigation request that was blocked, if any.
    pub blocked_navigation_request: Option<String>,
    /// Whether a history entry exists before the current one.
    pub can_go_back: bool,
    /// Whether a history entry exists after the current one.
    pub can_go_forward: bool,
    /// Whether navigation requests are currently allowed.
    pub navigation_allowed: bool,
    /// Input events accumulated between render passes.
    pub events: PendingInputQueue<E>,
}

impl<E> ServoWebView<E> {
    /// A fresh view: nothing loaded, navigation allowed, no input pending.
    pub fn new() -> (r: Self)
        ensures
            r.title is None,
            !r.loading,
            r.favicon_url is None,
            r.url is None,
            r.blocked_navigation_request is None,
            !r.can_go_back,
            !r.can_go_forward,
            r.navigation_allowed,
            r.events@ == Seq::<E>::empty(),
    {
        ServoWebView {
            title: None,
            loading: false,
            favicon_url: None,
            url: None,
            blocked_navigation_request: None,
            can_go_back: false,
            can_go_forward: false,
            navigation_allowed: true,
            events: PendingInputQueue::new(),
        }
    }

    /// Applies one drained response to the observable properties: each
    /// present delta overwrites its property, each absent one leaves the
    /// property as it was.
    pub fn apply_response(&mut self, resp: BrowserResponse)
        ensures
            final(self).title == (match resp.title {
                Some(t) => Some(t),
                None => old(self).title,
            }),
            final(self).loading == (match resp.loading {
                Some(l) => l,
                None => old(self).loading,
            }),
            final(self).favicon_url == (match resp.favicon_url {
                Some(f) => Some(f),
                None => old(self).favicon_url,
            }),
            final(self).url == (match resp.url {
                Some(u) => Some(u),
                None => old(self).url,
            }),
            final(self).blocked_navigation_request == (match resp.blocked_navigation_request {
                Some(b) => Some(b),
                None => old(self).blocked_navigation_request,
            }),
            final(self).can_go_back == (match resp.can_go_back {
                Some(b) => b,
                None => old(self).can_go_back,
            }),
            final(self).can_go_forward == (match resp.can_go_forward {
                Some(f) => f,
                None => old(self).can_go_forward,
            }),
            final(self).navigation_allowed == old(self).navigation_allowed,
            final(self).events == old(self).events,
    {
        match resp.title {
            Some(t) => {
                self.title = Some(t);
            },
            None => {},
        }
        match resp.loading {
            Some(l) => {
                self.loading = l;
            },
            None => {},
        }
        match resp.favicon_url {
            Some(f) => {
                self.favicon_url = Some(f);
            },
            None => {},
        }
        match resp.url {
            Some(u) => {
                self.url = Some(u);
            },
            None => {},
        }
        match resp.blocked_navigation_request {
            Some(b) => {
                self.blocked_navigation_request = Some(b);
            },
            None => {},
        }
        match resp.can_go_back {
            Some(b) => {
                self.can_go_back = b;
            },
            None => {},
        }
        match resp.can_go_forward {
            Some(f) => {
                self.can_go_forward = f;
            },
            None => {},
        }
    }

    /// The render-side coordinator for this view, applied to nothing yet:
    /// its first render pass sends the view's URL and size unconditionally.
    pub fn create_renderer(&self) -> (r: RendererSync)
        ensures
            r.last_url_model() is None,
            r.last_size_model() is None,
    {
        RendererSync::new()
    }
}

} // verus!
