//! The one-shot aggregate of UI-observable deltas produced by one drain pass.

use vstd::prelude::*;

verus! {

/// Spec-level value of a [`BrowserResponse`]: every text field reduced to its
/// character sequence, so that contracts do not depend on `String` identity.
pub struct ResponseModel {
    pub title: Option<Seq<char>>,
    pub loading: Option<bool>,
    pub favicon_url: Option<Seq<char>>,
    pub url: Option<Seq<char>>,
    pub blocked_navigation_request: Option<Seq<char>>,
    pub can_go_back: Option<bool>,
    pub can_go_forward: Option<bool>,
    pub present: Option<bool>,
}

/// Deltas to the UI-observable state, produced by one drain of engine events.
///
/// Each field is `None` unless an engine event in the drained batch implies a
/// change; absence means "no change", not "unset".
#[derive(Debug)]
pub struct BrowserResponse {
    /// New page title. A title event that carries no text leaves this absent,
    /// erasing any title set earlier in the same batch.
    pub title: Option<String>,
    /// Whether a page load started (`true`) or completed (`false`).
    pub loading: Option<bool>,
    /// Favicon URL for the current page.
    pub favicon_url: Option<String>,
    /// URL now shown, after an allowed navigation or a history traversal.
    pub url: Option<String>,
    /// URL of a navigation request that was denied.
    pub blocked_navigation_request: Option<String>,
    /// Whether a history entry exists before the current one.
    pub can_go_back: Option<bool>,
    /// Whether a history entry exists after the current one.
    pub can_go_forward: Option<bool>,
    /// Whether the engine has a frame ready to present.
    pub present: Option<bool>,
}

impl View for BrowserResponse {
    type V = ResponseModel;

    open spec fn view(&self) -> ResponseModel {
        ResponseModel {
            title: self.title.deep_view(),
            loading: self.loading,
            favicon_url: self.favicon_url.deep_view(),
            url: self.url.deep_view(),
            blocked_navigation_request: self.blocked_navigation_request.deep_view(),
            can_go_back: self.can_go_back,
            can_go_forward: self.can_go_forward,
            present: self.present,
        }
    }
}

impl ResponseModel {
    /// The model of a response that reports no change at all.
    pub open spec fn empty() -> ResponseModel {
        ResponseModel {
            title: None,
            loading: None,
            favicon_url: None,
            url: None,
            blocked_navigation_request: None,
            can_go_back: None,
            can_go_forward: None,
            present: None,
        }
    }
}

impl BrowserResponse {
    /// A response that reports no change at all.
    pub fn empty() -> (r: BrowserResponse)
        ensures
            r@ == ResponseModel::empty(),
    {
        BrowserResponse {
            title: None,
            loading: None,
            favicon_url: None,
            url: None,
            blocked_navigation_request: None,
            can_go_back: None,
            can_go_forward: None,
            present: None,
        }
    }
}

} // verus!
