//! Heartbeat bookkeeping: what the worker owes the engine after draining
//! events to a fixed point.

use vstd::prelude::*;

use crate::response::BrowserResponse;

verus! {

/// An engine call the worker performs after the drain loop, in order.
#[derive(Clone, Copy, PartialEq, Eq, Structural, Debug)]
pub enum EngineAction {
    /// Force a synchronous repaint; required after a resize, where a
    /// deferred repaint would present an empty frame.
    RepaintSynchronously,
    /// Present the composited frame.
    Present,
    /// Recomposite once more, so that after a resize both the front and the
    /// back buffer reflect the new size before the next borrow.
    Recomposite,
}

/// The exact call sequence a heartbeat owes the engine once draining is
/// done. A resize forces repaint, present and recomposite in that order; a
/// pending present alone presents; otherwise nothing is called.
pub open spec fn finish_sequence(need_resize: bool, need_present: bool) -> Seq<EngineAction> {
    if need_resize {
        seq![
            EngineAction::RepaintSynchronously,
            EngineAction::Present,
            EngineAction::Recomposite,
        ]
    } else if need_present {
        seq![EngineAction::Present]
    } else {
        Seq::empty()
    }
}

/// Present/resize bookkeeping accumulated across the rounds of one
/// heartbeat's drain loop.
pub struct HeartbeatState {
    /// Whether any drained response asked for a present.
    pub need_present: bool,
    /// Whether the engine reported a resize-class event while handling
    /// commands.
    pub need_resize: bool,
}

impl HeartbeatState {
    /// Bookkeeping at the start of a heartbeat: nothing owed yet.
    pub fn new() -> (r: Self)
        ensures
            !r.need_present,
            !r.need_resize,
    {
        HeartbeatState { need_present: false, need_resize: false }
    }

    /// Absorbs one drained response: a present request, once seen, sticks
    /// for the rest of the heartbeat.
    pub fn note_response(&mut self, resp: &BrowserResponse)
        ensures
            final(self).need_present == (old(self).need_present || resp@.present == Some(true)),
            final(self).need_resize == old(self).need_resize,
    {
        let p = match resp.present {
            Some(p) => p,
            None => false,
        };
        self.need_present = self.need_present || p;
    }

    /// Absorbs the engine's report of whether handling the forwarded
    /// commands caused a resize-class event.
    pub fn note_engine(&mut self, resized: bool)
        ensures
            final(self).need_resize == (old(self).need_resize || resized),
            final(self).need_present == old(self).need_present,
    {
        self.need_resize = self.need_resize || resized;
    }

    /// The engine calls owed after the drain loop, in the exact order they
    /// must be performed.
    pub fn finish_actions(&self) -> (acts: Vec<EngineAction>)
        ensures
            acts@ == finish_sequence(self.need_resize, self.need_present),
    {
        let mut acts: Vec<EngineAction> = Vec::new();
        if self.need_resize {
            acts.push(EngineAction::RepaintSynchronously);
            acts.push(EngineAction::Present);
            acts.push(EngineAction::Recomposite);
        } else if self.need_present {
            acts.push(EngineAction::Present);
        }
        proof {
            assert(acts@ =~= finish_sequence(self.need_resize, self.need_present));
        }
        acts
    }
}

} // verus!
