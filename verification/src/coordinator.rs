//! The render-side coordinator: decides, once per render pass, which
//! messages the worker is sent and in which order.

use vstd::prelude::*;

use crate::protocol::{EngineMessage, MessageModel};
use crate::urls::{normalize_url, parsed_url};

verus! {

/// Ordered queue of toolkit input events accumulated between render passes
/// and drained exactly once per synchronization, in arrival order.
pub struct PendingInputQueue<E> {
    events: Vec<E>,
}

impl<E> View for PendingInputQueue<E> {
    type V = Seq<E>;

    closed spec fn view(&self) -> Seq<E> {
        self.events@
    }
}

impl<E> PendingInputQueue<E> {
    /// An empty queue.
    pub fn new() -> (r: Self)
        ensures
            r@ == Seq::<E>::empty(),
    {
        let r = PendingInputQueue { events: Vec::new() };
        proof {
            assert(r@ =~= Seq::<E>::empty());
        }
        r
    }

    /// Appends one event in arrival order.
    pub fn push(&mut self, event: E)
        ensures
            final(self)@ == old(self)@.push(event),
    {
        self.events.push(event);
    }

    /// Hands the accumulated events over, in arrival order, leaving the
    /// queue empty.
    pub fn drain(&mut self) -> (r: Vec<E>)
        ensures
            r@ == old(self)@,
            final(self)@ == Seq::<E>::empty(),
    {
        let mut out: Vec<E> = Vec::new();
        core::mem::swap(&mut self.events, &mut out);
        out
    }
}

/// Effect of one URL assignment on the coordinator: the recorded last URL
/// and the message payload, if one is owed. A repeat of the last assigned
/// URL is dropped; a URL that does not parse is ignored entirely — no
/// command reaches the engine and nothing is recorded.
pub open spec fn url_action(last: Option<Seq<char>>, raw: Seq<char>) -> (
    Option<Seq<char>>,
    Option<Seq<char>>,
) {
    if last == Some(raw) {
        (last, None)
    } else {
        match parsed_url(raw) {
            Some(norm) => (Some(raw), Some(norm)),
            None => (last, None),
        }
    }
}

/// Effect of one size report: the recorded last size, and whether a resize
/// message is owed — exactly when the size changed.
pub open spec fn size_action(last: Option<(i32, i32)>, w: i32, h: i32) -> (
    Option<(i32, i32)>,
    bool,
) {
    if last == Some((w, h)) {
        (last, false)
    } else {
        (Some((w, h)), true)
    }
}

/// The pending input events as verbatim forward messages, in order.
pub open spec fn raw_input_messages<E>(inputs: Seq<E>) -> Seq<MessageModel<E>> {
    inputs.map_values(|e: E| MessageModel::<E>::RawInput(e))
}

/// The full message sequence one render pass owes the worker: URL and
/// resize deltas first, then the navigation request, then the pending input
/// events in arrival order, and the heartbeat last. The protocol's ordering
/// guarantee — deltas and inputs happen before the heartbeat that drains
/// their effects — is this sequence's order.
pub open spec fn frame_messages<E>(
    url_payload: Option<Seq<char>>,
    resized: bool,
    w: i32,
    h: i32,
    navigation: Option<i32>,
    inputs: Seq<E>,
    navigation_allowed: bool,
) -> Seq<MessageModel<E>> {
    (match url_payload {
        Some(u) => seq![MessageModel::<E>::Url(u)],
        None => Seq::empty(),
    }) + (if resized {
        seq![MessageModel::<E>::Resize(w, h)]
    } else {
        Seq::empty()
    }) + (match navigation {
        Some(d) => seq![MessageModel::<E>::Navigation(d)],
        None => Seq::empty(),
    }) + raw_input_messages(inputs) + seq![MessageModel::<E>::Heartbeat(navigation_allowed)]
}

/// Per-surface coordinator state living on the GUI thread's render
/// callback: the last applied URL and size, against which redundant sends
/// are dropped.
pub struct RendererSync {
    last_url: Option<String>,
    last_size: Option<(i32, i32)>,
}

impl RendererSync {
    /// Model of the last URL assignment applied.
    pub closed spec fn last_url_model(&self) -> Option<Seq<char>> {
        self.last_url.deep_view()
    }

    /// The last size applied.
    pub closed spec fn last_size_model(&self) -> Option<(i32, i32)> {
        self.last_size
    }

    /// A coordinator that has applied nothing yet: the first valid URL and
    /// the first size are always sent.
    pub fn new() -> (r: Self)
        ensures
            r.last_url_model() is None,
            r.last_size_model() is None,
    {
        RendererSync { last_url: None, last_size: None }
    }

    /// Builds the messages one render pass sends the worker, in protocol
    /// order, and records what was applied. The URL travels normalized; the
    /// input events travel verbatim, in arrival order.
    pub fn sync_messages<E>(
        &mut self,
        url: &str,
        width: i32,
        height: i32,
        navigation: Option<i32>,
        inputs: Vec<E>,
        navigation_allowed: bool,
    ) -> (msgs: Vec<EngineMessage<E>>)
        ensures
            (final(self).last_url_model(), final(self).last_size_model()) == (
                url_action(old(self).last_url_model(), url@).0,
                size_action(old(self).last_size_model(), width, height).0,
            ),
            msgs.deep_view() == frame_messages(
                url_action(old(self).last_url_model(), url@).1,
                size_action(old(self).last_size_model(), width, height).1,
                width,
                height,
                navigation,
                inputs@,
                navigation_allowed,
            ),
    {
        let ghost in0 = inputs@;
        let ghost p_url: Seq<MessageModel<E>> = (match url_action(
            old(self).last_url_model(),
            url@,
        ).1 {
            Some(u) => seq![MessageModel::<E>::Url(u)],
            None => Seq::empty(),
        });
        let ghost p_size: Seq<MessageModel<E>> = (if size_action(
            old(self).last_size_model(),
            width,
            height,
        ).1 {
            seq![MessageModel::<E>::Resize(width, height)]
        } else {
            Seq::empty()
        });
        let ghost p_nav: Seq<MessageModel<E>> = (match navigation {
            Some(d) => seq![MessageModel::<E>::Navigation(d)],
            None => Seq::empty(),
        });
        let mut msgs: Vec<EngineMessage<E>> = Vec::new();
        let url_owned = String::from_str(url);
        let same_url = match &self.last_url {
            Some(last) => *last == url_owned,
            None => false,
        };
        if !same_url {
            match normalize_url(url) {
                Some(norm) => {
                    self.last_url = Some(url_owned);
                    let ghost nv = norm@;
                    msgs.push(EngineMessage::Url(norm));
                    proof {
                        assert(msgs.deep_view() =~= seq![MessageModel::<E>::Url(nv)]);
                    }
                },
                None => {},
            }
        }
        proof {
            assert(msgs.deep_view() =~= p_url);
        }
        let same_size = match self.last_size {
            Some((w, h)) => w == width && h == height,
            None => false,
        };
        if !same_size {
            self.last_size = Some((width, height));
            let ghost md = msgs.deep_view();
            msgs.push(EngineMessage::Resize(width, height));
            proof {
                assert(msgs.deep_view() =~= md.push(MessageModel::<E>::Resize(width, height)));
            }
        }
        proof {
            assert(msgs.deep_view() =~= p_url + p_size);
        }
        match navigation {
            Some(d) => {
                let ghost md = msgs.deep_view();
                msgs.push(EngineMessage::Navigation(d));
                proof {
                    assert(msgs.deep_view() =~= md.push(MessageModel::<E>::Navigation(d)));
                }
            },
            None => {},
        }
        proof {
            assert(msgs.deep_view() =~= p_url + p_size + p_nav);
        }
        let ghost base = msgs.deep_view();
        let mut rest = inputs;
        proof {
            assert(rest@ =~= in0.skip(0));
            assert(msgs.deep_view() =~= base + raw_input_messages(in0.take(0)));
        }
        while rest.len() > 0
            invariant
                rest@.len() <= in0.len(),
                rest@ == in0.skip(in0.len() - rest@.len()),
                msgs.deep_view() == base + raw_input_messages(
                    in0.take(in0.len() - rest@.len()),
                ),
            decreases rest@.len(),
        {
            let ghost consumed = in0.len() - rest@.len();
            let ghost md = msgs.deep_view();
            let e = rest.remove(0);
            let ghost ev = e;
            msgs.push(EngineMessage::RawInput(e));
            proof {
                assert(ev == in0[consumed]);
                assert(rest@ =~= in0.skip(consumed + 1));
                assert(msgs.deep_view() =~= md.push(MessageModel::<E>::RawInput(ev)));
                assert(in0.take(consumed + 1) =~= in0.take(consumed).push(ev));
                assert(raw_input_messages(in0.take(consumed + 1)) =~= raw_input_messages(
                    in0.take(consumed),
                ).push(MessageModel::<E>::RawInput(ev)));
                assert(msgs.deep_view() =~= base + raw_input_messages(in0.take(consumed + 1)));
            }
        }
        proof {
            assert(in0.take(in0.len() as int) =~= in0);
        }
        let ghost md_final = msgs.deep_view();
        msgs.push(EngineMessage::Heartbeat(navigation_allowed));
        proof {
            assert(msgs.deep_view() =~= md_final.push(
                MessageModel::<E>::Heartbeat(navigation_allowed),
            ));
            assert(md_final == base + raw_input_messages(in0));
            assert(msgs.deep_view() =~= p_url + p_size + p_nav + raw_input_messages(in0) + seq![
                MessageModel::<E>::Heartbeat(navigation_allowed),
            ]);
            assert(msgs.deep_view() =~= frame_messages(
                url_action(old(self).last_url_model(), url@).1,
                size_action(old(self).last_size_model(), width, height).1,
                width,
                height,
                navigation,
                in0,
                navigation_allowed,
            ));
        }
        msgs
    }
}

/// Law: sending the same URL twice to the coordinator produces exactly one
/// URL command to the worker — whatever the second assignment follows, it
/// owes no message.
pub proof fn lemma_url_idempotent(last: Option<Seq<char>>, raw: Seq<char>)
    ensures
        url_action(url_action(last, raw).0, raw).1 is None,
{
}

} // verus!
