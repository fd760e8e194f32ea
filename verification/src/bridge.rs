//! The engine event bridge: a pure state machine that translates one drained
//! batch of engine events into a [`BrowserResponse`] and queued commands.

use vstd::prelude::*;

use crate::events::{event_wf, CommandModel, EngineCommand, EngineEvent};
use crate::response::{BrowserResponse, ResponseModel};

verus! {

/// Per-view record kept while a top-level view is alive.
#[derive(Clone, Copy, PartialEq, Eq, Structural, Debug)]
pub struct WebView {}

impl Default for WebView {
    fn default() -> (r: Self)
        ensures
            r == (WebView {  }),
    {
        WebView {  }
    }
}

/// A violation of the protocol's load-bearing invariants. Fatal: the worker
/// that sees one terminates rather than continue with corrupt state.
#[derive(Clone, Copy, PartialEq, Eq, Structural, Debug)]
pub enum ProtocolError {
    /// The engine opened a second top-level view while one was already
    /// tracked; multi-view operation is unsupported and never merged
    /// silently.
    SecondViewOpened { existing: u64, attempted: u64 },
}

/// The tracked view id of an optional `(id, record)` pair.
pub open spec fn tracked_id(v: Option<(u64, WebView)>) -> Option<u64> {
    match v {
        Some((id, _)) => Some(id),
        None => None,
    }
}

/// Effect of one engine event on the drain state: the tracked view, the
/// response built so far, and the commands queued so far.
pub open spec fn drain_step<E>(
    view: Option<u64>,
    r: ResponseModel,
    c: Seq<CommandModel<E>>,
    ev: EngineEvent,
    navigation_allowed: bool,
) -> Result<(Option<u64>, ResponseModel, Seq<CommandModel<E>>), ProtocolError> {
    match ev {
        EngineEvent::AllowOpeningView => Ok(
            (view, r, c.push(CommandModel::AllowOpeningView { allow: false })),
        ),
        EngineEvent::AllowNavigationRequest { pipeline, url } => {
            if view is Some {
                let c2 = c.push(
                    CommandModel::AllowNavigationResponse { pipeline, allow: navigation_allowed },
                );
                if navigation_allowed {
                    Ok((view, ResponseModel { url: Some(url@), ..r }, c2))
                } else {
                    Ok((view, ResponseModel { blocked_navigation_request: Some(url@), ..r }, c2))
                }
            } else {
                Ok((view, r, c))
            }
        },
        EngineEvent::ViewOpened { id } => match view {
            Some(existing) => Err(ProtocolError::SecondViewOpened { existing, attempted: id }),
            None => Ok((Some(id), r, c.push(CommandModel::FocusView { id }))),
        },
        EngineEvent::ViewClosed { id: _ } => Ok((None, r, c)),
        EngineEvent::ChangePageTitle { title } => Ok(
            (view, ResponseModel { title: title.deep_view(), ..r }, c),
        ),
        EngineEvent::NewFavicon { url } => Ok(
            (view, ResponseModel { favicon_url: Some(url@), ..r }, c),
        ),
        EngineEvent::LoadStart => Ok((view, ResponseModel { loading: Some(true), ..r }, c)),
        EngineEvent::LoadComplete => Ok((view, ResponseModel { loading: Some(false), ..r }, c)),
        EngineEvent::ReadyToPresent => Ok((view, ResponseModel { present: Some(true), ..r }, c)),
        EngineEvent::HistoryChanged { entries, position } => Ok(
            (
                view,
                ResponseModel {
                    url: Some(entries@[position as int]@),
                    can_go_back: Some(position > 0),
                    can_go_forward: Some(position + 1 < entries@.len()),
                    ..r
                },
                c,
            ),
        ),
        EngineEvent::Unrecognized => Ok((view, r, c)),
    }
}

/// Folds [`drain_step`] over a batch, front to back, stopping at the first
/// protocol violation. Each event is tagged with the view the engine
/// attributes it to; under the single-view protocol the tag carries no
/// further information and is not consulted.
pub open spec fn drain_events<E>(
    view: Option<u64>,
    r: ResponseModel,
    c: Seq<CommandModel<E>>,
    events: Seq<(Option<u64>, EngineEvent)>,
    navigation_allowed: bool,
) -> Result<(Option<u64>, ResponseModel, Seq<CommandModel<E>>), ProtocolError>
    decreases events.len(),
{
    if events.len() == 0 {
        Ok((view, r, c))
    } else {
        match drain_step(view, r, c, events[0].1, navigation_allowed) {
            Ok((v2, r2, c2)) => drain_events(v2, r2, c2, events.drop_first(), navigation_allowed),
            Err(e) => Err(e),
        }
    }
}

/// Translates drained engine events into UI-observable deltas and queued
/// engine commands. Pure: no I/O, no blocking, no threading.
pub struct BrowserEventBridge<E> {
    /// The single tracked top-level view, if one is alive.
    web_view: Option<(u64, WebView)>,
    /// Commands queued for the engine, oldest first.
    commands: Vec<EngineCommand<E>>,
}

impl<E> BrowserEventBridge<E> {
    /// Id of the tracked view, if one is alive.
    pub closed spec fn view_id(&self) -> Option<u64> {
        tracked_id(self.web_view)
    }

    /// Model of the queued commands, oldest first.
    pub closed spec fn commands_model(&self) -> Seq<CommandModel<E>> {
        self.commands.deep_view()
    }

    /// A bridge tracking no view, with nothing queued.
    pub fn new() -> (r: Self)
        ensures
            r.view_id() is None,
            r.commands_model() == Seq::<CommandModel<E>>::empty(),
    {
        let r = BrowserEventBridge { web_view: None, commands: Vec::new() };
        proof {
            assert(r.commands_model() =~= Seq::<CommandModel<E>>::empty());
        }
        r
    }

    /// Id of the tracked view, if one is alive.
    pub fn webview_id(&self) -> (r: Option<u64>)
        ensures
            r == self.view_id(),
    {
        match self.web_view {
            Some((id, _)) => Some(id),
            None => None,
        }
    }

    /// Queues one command for the engine.
    pub fn push_command(&mut self, cmd: EngineCommand<E>)
        ensures
            final(self).commands_model() == old(self).commands_model().push(cmd@),
            final(self).view_id() == old(self).view_id(),
    {
        let ghost before = self.commands.deep_view();
        self.commands.push(cmd);
        proof {
            assert(self.commands.deep_view() =~= before.push(cmd@));
        }
    }

    /// Hands the queued commands over for forwarding into the engine,
    /// leaving the queue empty.
    pub fn take_commands(&mut self) -> (r: Vec<EngineCommand<E>>)
        ensures
            r.deep_view() == old(self).commands_model(),
            final(self).commands_model() == Seq::<CommandModel<E>>::empty(),
            final(self).view_id() == old(self).view_id(),
    {
        let mut out: Vec<EngineCommand<E>> = Vec::new();
        std::mem::swap(&mut self.commands, &mut out);
        proof {
            assert(self.commands.deep_view() =~= Seq::<CommandModel<E>>::empty());
        }
        out
    }

    /// Processes one drained batch of engine events, in order.
    ///
    /// On success the returned response holds the last-write-wins deltas and
    /// the reply/focus commands stand appended to the queue, exactly as
    /// [`drain_events`] folds them. A second view opening while one is
    /// tracked is a protocol violation: the batch is rejected and the bridge
    /// left untouched.
    pub fn drain(
        &mut self,
        events: Vec<(Option<u64>, EngineEvent)>,
        navigation_allowed: bool,
    ) -> (r: Result<BrowserResponse, ProtocolError>)
        requires
            forall|i: int|
                0 <= i < events@.len() ==> event_wf((#[trigger] events@[i]).1),
        ensures
            match r {
                Ok(resp) => drain_events(
                    old(self).view_id(),
                    ResponseModel::empty(),
                    old(self).commands_model(),
                    events@,
                    navigation_allowed,
                ) == Ok::<_, ProtocolError>((final(self).view_id(), resp@, final(self).commands_model())),
                Err(e) => {
                    &&& drain_events(
                        old(self).view_id(),
                        ResponseModel::empty(),
                        old(self).commands_model(),
                        events@,
                        navigation_allowed,
                    ) == Err::<(Option<u64>, ResponseModel, Seq<CommandModel<E>>), _>(e)
                    &&& *final(self) == *old(self)
                },
            },
    {
        let ghost init_cmds = self.commands.deep_view();
        let mut view: Option<(u64, WebView)> = self.web_view;
        let mut resp = BrowserResponse::empty();
        let mut new_cmds: Vec<EngineCommand<E>> = Vec::new();
        let n = events.len();
        let mut i: usize = 0;
        proof {
            assert(new_cmds.deep_view() =~= Seq::<CommandModel<E>>::empty());
            assert(init_cmds + new_cmds.deep_view() =~= init_cmds);
            assert(events@.skip(0) =~= events@);
        }
        while i < n
            invariant
                n == events@.len(),
                i <= n,
                forall|k: int|
                    0 <= k < events@.len() ==> event_wf((#[trigger] events@[k]).1),
                *self == *old(self),
                drain_events(
                    old(self).view_id(),
                    ResponseModel::empty(),
                    init_cmds,
                    events@,
                    navigation_allowed,
                ) == drain_events(
                    tracked_id(view),
                    resp@,
                    init_cmds + new_cmds.deep_view(),
                    events@.skip(i as int),
                    navigation_allowed,
                ),
                init_cmds == old(self).commands_model(),
            decreases n - i,
        {
            let ghost rest = events@.skip(i as int);
            let ghost cur_cmds = init_cmds + new_cmds.deep_view();
            proof {
                assert(rest.len() > 0);
                assert(rest[0] == events@[i as int]);
                assert(rest.drop_first() =~= events@.skip(i as int + 1));
            }
            let (_tag, ev) = &events[i];
            match ev {
                EngineEvent::AllowOpeningView => {
                    let ghost before = new_cmds.deep_view();
                    new_cmds.push(EngineCommand::AllowOpeningView { allow: false });
                    proof {
                        assert(new_cmds.deep_view() =~= before.push(
                            CommandModel::AllowOpeningView { allow: false },
                        ));
                        assert(init_cmds + new_cmds.deep_view() =~= cur_cmds.push(
                            CommandModel::AllowOpeningView { allow: false },
                        ));
                    }
                },
                EngineEvent::AllowNavigationRequest { pipeline, url } => {
                    match view {
                        Some(_) => {
                            let ghost before = new_cmds.deep_view();
                            new_cmds.push(
                                EngineCommand::AllowNavigationResponse {
                                    pipeline: *pipeline,
                                    allow: navigation_allowed,
                                },
                            );
                            proof {
                                assert(new_cmds.deep_view() =~= before.push(
                                    CommandModel::AllowNavigationResponse {
                                        pipeline: *pipeline,
                                        allow: navigation_allowed,
                                    },
                                ));
                                assert(init_cmds + new_cmds.deep_view() =~= cur_cmds.push(
                                    CommandModel::AllowNavigationResponse {
                                        pipeline: *pipeline,
                                        allow: navigation_allowed,
                                    },
                                ));
                            }
                            if navigation_allowed {
                                resp.url = Some(url.clone());
                            } else {
                                resp.blocked_navigation_request = Some(url.clone());
                            }
                        },
                        None => {},
                    }
                },
                EngineEvent::ViewOpened { id } => {
                    match view {
                        Some((existing, _)) => {
                            return Err(
                                ProtocolError::SecondViewOpened { existing, attempted: *id },
                            );
                        },
                        None => {
                            view = Some((*id, WebView {  }));
                            let ghost before = new_cmds.deep_view();
                            new_cmds.push(EngineCommand::FocusView { id: *id });
                            proof {
                                assert(new_cmds.deep_view() =~= before.push(
                                    CommandModel::FocusView { id: *id },
                                ));
                                assert(init_cmds + new_cmds.deep_view() =~= cur_cmds.push(
                                    CommandModel::FocusView { id: *id },
                                ));
                            }
                        },
                    }
                },
                EngineEvent::ViewClosed { id: _ } => {
                    view = None;
                },
                EngineEvent::ChangePageTitle { title } => {
                    resp.title = match title {
                        Some(t) => Some(t.clone()),
                        None => None,
                    };
                },
                EngineEvent::NewFavicon { url } => {
                    resp.favicon_url = Some(url.clone());
                },
                EngineEvent::LoadStart => {
                    resp.loading = Some(true);
                },
                EngineEvent::LoadComplete => {
                    resp.loading = Some(false);
                },
                EngineEvent::ReadyToPresent => {
                    resp.present = Some(true);
                },
                EngineEvent::HistoryChanged { entries, position } => {
                    proof {
                        assert(event_wf(events@[i as int].1));
                        assert(*position < entries@.len());
                    }
                    let len = entries.len();
                    resp.url = Some(entries[*position].clone());
                    resp.can_go_back = Some(*position > 0);
                    resp.can_go_forward = Some(*position + 1 < len);
                },
                EngineEvent::Unrecognized => {},
            }
            i = i + 1;
        }
        proof {
            assert(events@.skip(n as int) =~= Seq::<(Option<u64>, EngineEvent)>::empty());
        }
        self.web_view = view;
        let ghost final_cmds = init_cmds + new_cmds.deep_view();
        self.commands.append(&mut new_cmds);
        proof {
            assert(self.commands.deep_view() =~= final_cmds);
        }
        Ok(resp)
    }
}

/// The title carried by the last title event of a batch, if the batch has
/// one.
pub open spec fn last_title_event(events: Seq<(Option<u64>, EngineEvent)>) -> Option<
    Option<Seq<char>>,
>
    decreases events.len(),
{
    if events.len() == 0 {
        None
    } else {
        let rest = last_title_event(events.drop_first());
        if rest is Some {
            rest
        } else {
            match events[0].1 {
                EngineEvent::ChangePageTitle { title } => Some(title.deep_view()),
                _ => None,
            }
        }
    }
}

/// Law: within one drained batch the last title event wins, and a batch with
/// no title event leaves the title delta as it began. Since every drain
/// starts from the empty response, a drain whose batch holds no title event
/// reports no title — the title is set exactly by the batch that carries the
/// event and absent on subsequent drains until the engine changes it again.
pub proof fn lemma_title_last_write_wins<E>(
    view: Option<u64>,
    r: ResponseModel,
    c: Seq<CommandModel<E>>,
    events: Seq<(Option<u64>, EngineEvent)>,
    navigation_allowed: bool,
)
    ensures
        (match drain_events(view, r, c, events, navigation_allowed) {
            Ok((_, r2, _)) => r2.title == (match last_title_event(events) {
                Some(t) => t,
                None => r.title,
            }),
            Err(_) => true,
        }),
    decreases events.len(),
{
    if events.len() > 0 {
        match drain_step(view, r, c, events[0].1, navigation_allowed) {
            Ok((v2, r2, c2)) => {
                lemma_title_last_write_wins(
                    v2,
                    r2,
                    c2,
                    events.drop_first(),
                    navigation_allowed,
                );
            },
            Err(_) => {},
        }
    }
}

/// Whether a batch opens a view before any view-close event: starting from a
/// tracked view, draining such a batch must hit the single-view violation.
pub open spec fn opens_before_any_close(events: Seq<(Option<u64>, EngineEvent)>) -> bool
    decreases events.len(),
{
    if events.len() == 0 {
        false
    } else {
        match events[0].1 {
            EngineEvent::ViewOpened { .. } => true,
            EngineEvent::ViewClosed { .. } => false,
            _ => opens_before_any_close(events.drop_first()),
        }
    }
}

/// Law: a view-open event arriving while a view is already tracked (with no
/// close in between) is always detected and reported as fatal, never
/// silently merged.
pub proof fn lemma_second_open_is_fatal<E>(
    view: Option<u64>,
    r: ResponseModel,
    c: Seq<CommandModel<E>>,
    events: Seq<(Option<u64>, EngineEvent)>,
    navigation_allowed: bool,
)
    requires
        view is Some,
        opens_before_any_close(events),
    ensures
        drain_events(view, r, c, events, navigation_allowed) is Err,
    decreases events.len(),
{
    if events.len() > 0 {
        match drain_step(view, r, c, events[0].1, navigation_allowed) {
            Ok((v2, r2, c2)) => {
                lemma_second_open_is_fatal(
                    v2,
                    r2,
                    c2,
                    events.drop_first(),
                    navigation_allowed,
                );
            },
            Err(_) => {},
        }
    }
}

} // verus!
