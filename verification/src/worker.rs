//! The engine worker's session state: the bridge, the favicon cache and the
//! last applied URL, with one transition per protocol message.
//!
//! The worker owns the engine instance and runs on a dedicated thread; the
//! thread, its channels and the engine calls are glue around the transitions
//! here, which decide everything the protocol requires.

use vstd::prelude::*;

use crate::bridge::{drain_events, BrowserEventBridge, ProtocolError};
use crate::events::{
    event_wf, traversal_of_steps, CommandModel, EngineCommand, EngineEvent, TraversalDirection,
};
use crate::favicon::FaviconCache;
use crate::response::{BrowserResponse, ResponseModel};
use crate::urls::{empty_favicon, empty_favicon_url};

verus! {

/// The favicon rules applied to one drained response: a URL delta with no
/// favicon event first consults the cache, the reported favicon (if any) is
/// recorded for the now-current URL, and a URL delta still without a favicon
/// reports the sentinel so the previous page's icon is not kept on screen.
pub open spec fn favicon_pass(
    r: ResponseModel,
    cache: Map<Seq<char>, Seq<char>>,
    current: Option<Seq<char>>,
) -> (ResponseModel, Map<Seq<char>, Seq<char>>, Option<Seq<char>>) {
    let fav1 = match r.url {
        Some(u) => if r.favicon_url is None && cache.contains_key(u) {
            Some(cache[u])
        } else {
            r.favicon_url
        },
        None => r.favicon_url,
    };
    let cur1 = match r.url {
        Some(u) => Some(u),
        None => current,
    };
    let cache2 = match (fav1, cur1) {
        (Some(f), Some(c)) => cache.insert(c, f),
        _ => cache,
    };
    let fav2 = if r.url is Some && fav1 is None {
        Some(empty_favicon())
    } else {
        fav1
    };
    (ResponseModel { favicon_url: fav2, ..r }, cache2, cur1)
}

/// Session state owned by the engine worker thread.
pub struct EngineWorker<E> {
    /// Translates engine events and queues engine commands.
    bridge: BrowserEventBridge<E>,
    /// Favicons seen this session, by page URL.
    favicons: FaviconCache,
    /// The last URL applied, against which redundant assignments are
    /// dropped.
    current_url: Option<String>,
    /// The top-level browsing context id the engine assigned at startup,
    /// used to create the first view.
    browser_id: u64,
}

impl<E> EngineWorker<E> {
    /// Id of the tracked view, if one is alive.
    pub closed spec fn view_id(&self) -> Option<u64> {
        self.bridge.view_id()
    }

    /// Model of the commands queued for the engine, oldest first.
    pub closed spec fn commands_model(&self) -> Seq<CommandModel<E>> {
        self.bridge.commands_model()
    }

    /// Model of the favicon cache.
    pub closed spec fn cache_model(&self) -> Map<Seq<char>, Seq<char>> {
        self.favicons@
    }

    /// Model of the last applied URL.
    pub closed spec fn current_model(&self) -> Option<Seq<char>> {
        self.current_url.deep_view()
    }

    /// The engine-assigned top-level browsing context id.
    pub closed spec fn context_id(&self) -> u64 {
        self.browser_id
    }

    /// A fresh session for the top-level browsing context the engine handed
    /// out at startup.
    pub fn new(browser_id: u64) -> (r: Self)
        ensures
            r.view_id() is None,
            r.commands_model() == Seq::<CommandModel<E>>::empty(),
            r.cache_model() == Map::<Seq<char>, Seq<char>>::empty(),
            r.current_model() is None,
            r.context_id() == browser_id,
    {
        EngineWorker {
            bridge: BrowserEventBridge::new(),
            favicons: FaviconCache::new(),
            current_url: None,
            browser_id,
        }
    }

    /// Queues a history traversal by a signed step count: negative steps go
    /// back, non-negative steps go forward.
    pub fn navigation(&mut self, steps: i32)
        ensures
            final(self).commands_model() == old(self).commands_model().push(
                CommandModel::Navigation { direction: traversal_of_steps(steps as int) },
            ),
            final(self).view_id() == old(self).view_id(),
            final(self).cache_model() == old(self).cache_model(),
            final(self).current_model() == old(self).current_model(),
            final(self).context_id() == old(self).context_id(),
    {
        let direction = crate::events::traversal_direction(steps);
        self.bridge.push_command(EngineCommand::Navigation { direction });
    }

    /// Forwards one toolkit input event verbatim, preserving arrival order.
    pub fn raw_input(&mut self, event: E)
        ensures
            final(self).commands_model() == old(self).commands_model().push(
                CommandModel::RawInput { event },
            ),
            final(self).view_id() == old(self).view_id(),
            final(self).cache_model() == old(self).cache_model(),
            final(self).current_model() == old(self).current_model(),
            final(self).context_id() == old(self).context_id(),
    {
        self.bridge.push_command(EngineCommand::RawInput { event });
    }

    /// Queues the resize notification that follows a surface resize. The
    /// GPU surface itself is resized by the caller before this is queued.
    pub fn resize(&mut self)
        ensures
            final(self).commands_model() == old(self).commands_model().push(
                CommandModel::Resize,
            ),
            final(self).view_id() == old(self).view_id(),
            final(self).cache_model() == old(self).cache_model(),
            final(self).current_model() == old(self).current_model(),
            final(self).context_id() == old(self).context_id(),
    {
        self.bridge.push_command(EngineCommand::Resize);
    }

    /// Applies a URL assignment. A repeat of the last applied URL is dropped
    /// (checked by value); a new URL loads into the tracked view, or creates
    /// the first view when none is tracked yet.
    pub fn set_url(&mut self, url: String)
        ensures
            old(self).current_model() == Some(url@) ==> *final(self) == *old(self),
            old(self).current_model() != Some(url@) ==> {
                &&& final(self).current_model() == Some(url@)
                &&& final(self).commands_model() == old(self).commands_model().push(
                    match old(self).view_id() {
                        Some(id) => CommandModel::LoadUrl { id, url: url@ },
                        None => CommandModel::NewView { url: url@, id: old(self).context_id() },
                    },
                )
                &&& final(self).view_id() == old(self).view_id()
                &&& final(self).cache_model() == old(self).cache_model()
                &&& final(self).context_id() == old(self).context_id()
            },
    {
        match &self.current_url {
            Some(c) => {
                if *c == url {
                    return ;
                }
            },
            None => {},
        }
        self.current_url = Some(url.clone());
        match self.bridge.webview_id() {
            Some(id) => {
                self.bridge.push_command(EngineCommand::LoadUrl { id, url });
            },
            None => {
                self.bridge.push_command(
                    EngineCommand::NewView { url, id: self.browser_id },
                );
            },
        }
    }

    /// Hands the queued commands over for forwarding into the engine,
    /// leaving the queue empty.
    pub fn take_commands(&mut self) -> (r: Vec<EngineCommand<E>>)
        ensures
            r.deep_view() == old(self).commands_model(),
            final(self).commands_model() == Seq::<CommandModel<E>>::empty(),
            final(self).view_id() == old(self).view_id(),
            final(self).cache_model() == old(self).cache_model(),
            final(self).current_model() == old(self).current_model(),
            final(self).context_id() == old(self).context_id(),
    {
        self.bridge.take_commands()
    }

    /// Processes one drained batch of engine events — one round of the
    /// heartbeat's drain loop: the bridge folds the batch into a response,
    /// then the favicon rules rewrite it and update the cache and the
    /// current URL. A protocol violation rejects the batch and leaves the
    /// session untouched.
    pub fn process_batch(
        &mut self,
        events: Vec<(Option<u64>, EngineEvent)>,
        navigation_allowed: bool,
    ) -> (r: Result<BrowserResponse, ProtocolError>)
        requires
            forall|i: int|
                0 <= i < events@.len() ==> event_wf((#[trigger] events@[i]).1),
        ensures
            match r {
                Ok(resp) => match drain_events(
                    old(self).view_id(),
                    ResponseModel::empty(),
                    old(self).commands_model(),
                    events@,
                    navigation_allowed,
                ) {
                    Ok((v2, rm, cm)) => {
                        let (rm2, cache2, cur2) = favicon_pass(
                            rm,
                            old(self).cache_model(),
                            old(self).current_model(),
                        );
                        &&& resp@ == rm2
                        &&& final(self).view_id() == v2
                        &&& final(self).commands_model() == cm
                        &&& final(self).cache_model() == cache2
                        &&& final(self).current_model() == cur2
                        &&& final(self).context_id() == old(self).context_id()
                    },
                    Err(_) => false,
                },
                Err(e) => {
                    &&& drain_events(
                        old(self).view_id(),
                        ResponseModel::empty(),
                        old(self).commands_model(),
                        events@,
                        navigation_allowed,
                    ) matches Err(e2) && e2 == e
                    &&& *final(self) == *old(self)
                },
            },
    {
        let drained = self.bridge.drain(events, navigation_allowed);
        let mut resp = match drained {
            Ok(resp) => resp,
            Err(e) => {
                return Err(e);
            },
        };
        let ghost rm = resp@;
        match &resp.url {
            Some(u) => {
                if resp.favicon_url.is_none() {
                    match self.favicons.lookup(u) {
                        Some(f) => {
                            resp.favicon_url = Some(f);
                        },
                        None => {},
                    }
                }
                self.current_url = Some(u.clone());
            },
            None => {},
        }
        match &resp.favicon_url {
            Some(f) => match &self.current_url {
                Some(c) => {
                    let fav = f.clone();
                    self.favicons.insert(c, fav);
                },
                None => {},
            },
            None => {},
        }
        if resp.url.is_some() && resp.favicon_url.is_none() {
            resp.favicon_url = Some(empty_favicon_url());
        }
        Ok(resp)
    }
}

/// Law: a URL change to a page whose favicon is cached, arriving with no
/// favicon event in the same batch, reports exactly the cached favicon.
pub proof fn lemma_favicon_from_cache(
    r: ResponseModel,
    cache: Map<Seq<char>, Seq<char>>,
    current: Option<Seq<char>>,
    u: Seq<char>,
    f: Seq<char>,
)
    requires
        r.url == Some(u),
        r.favicon_url is None,
        cache.contains_key(u),
        cache[u] == f,
    ensures
        favicon_pass(r, cache, current).0.favicon_url == Some(f),
{
}

/// Law: a URL change to a page with no cached favicon and no favicon event
/// reports the sentinel empty favicon — never a previous page's icon.
pub proof fn lemma_favicon_sentinel(
    r: ResponseModel,
    cache: Map<Seq<char>, Seq<char>>,
    current: Option<Seq<char>>,
    u: Seq<char>,
)
    requires
        r.url == Some(u),
        r.favicon_url is None,
        !cache.contains_key(u),
    ensures
        favicon_pass(r, cache, current).0.favicon_url == Some(empty_favicon()),
{
}

} // verus!
