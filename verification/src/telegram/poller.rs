//! The decisions of the loop that receives from the engine.
//!
//! One worker blocks on the engine's receive call. Before each call it takes in
//! the requests that were registered since the last one; after it, it hands
//! the message to `on_text`, which says what to do with it. The worker is the
//! only one that applies updates to the session.

use crate::decimal::{parse_u64, u64_of};
use crate::json::{json_document, member_text, parse, text_member};
use crate::telegram::messages::{AuthState, TdLibResponse};
use crate::telegram::router::{delivery, drained, CorrelationRouter};
use crate::telegram::session::State;
use serde_json::Value;
use vstd::prelude::*;

verus! {

/// What the worker does with a message.
#[derive(Debug)]
pub enum Dispatch<S> {
    /// The message answers an outstanding request: hand `payload` to `slot`.
    Deliver { slot: S, payload: Value },
    /// The engine pushed `update`: apply it to the session.
    Update { update: TdLibResponse },
    /// The engine announced that it closed: apply `update`, fail every request
    /// in `abandoned` with an end of stream, and leave the loop.
    Closed { update: TdLibResponse, abandoned: Vec<(u64, S)> },
    /// Nothing is to be done: the message is malformed, answers no outstanding
    /// request, or is none that the client reads.
    Discard,
}

/// The id that a message carries as its correlation tag: the member `@extra`,
/// a string of decimal digits.
pub open spec fn correlation_id(payload: Value) -> Option<u64> {
    match text_member(payload, "@extra"@) {
        Some(tag) => u64_of(tag),
        None => None,
    }
}

/// Whether a message carries a correlation tag, readable or not.
pub open spec fn is_tagged(payload: Value) -> bool {
    text_member(payload, "@extra"@) is Some
}

/// Whether a message is one that the engine pushes on its own.
pub open spec fn is_push(update: TdLibResponse) -> bool {
    match update {
        TdLibResponse::UpdateAuthorizationState { .. } => true,
        TdLibResponse::UpdateNewChat { .. } => true,
        TdLibResponse::UpdateBasicGroup { .. } => true,
        TdLibResponse::UpdateSupergroup { .. } => true,
        TdLibResponse::UpdateUser { .. } => true,
        _ => false,
    }
}

/// Whether a message announces that the engine closed.
pub open spec fn announces_close(update: TdLibResponse) -> bool {
    update matches TdLibResponse::UpdateAuthorizationState { authorization_state }
        && authorization_state.typ == AuthState::AuthorizationStateClosed
}

/// A reply to a request never moves the session: a request that the engine
/// turned down can be made again in the phase in which it was made.
pub proof fn lemma_replies_leave_the_session(state: State, reply: TdLibResponse, next: State)
    requires
        !is_push(reply),
        state.follows(reply, next),
    ensures
        next == state,
{
}

/// The state of the receiving loop: the requests that wait for a response, and
/// whether the loop still runs.
pub struct Poller<S> {
    router: CorrelationRouter<S>,
    running: bool,
}

impl<S> Poller<S> {
    /// The outstanding requests: correlation id to completion slot.
    pub closed spec fn pending(&self) -> Map<u64, S> {
        self.router.pending()
    }

    pub closed spec fn running_spec(&self) -> bool {
        self.running
    }

    /// A loop that runs, with nothing outstanding.
    pub fn new() -> (r: Self)
        ensures
            r.running(),
            r.pending() == Map::<u64, S>::empty(),
    {
        Poller { router: CorrelationRouter::new(), running: true }
    }

    /// Whether the loop goes on.
    #[verifier::when_used_as_spec(running_spec)]
    pub fn running(&self) -> (r: bool)
        ensures
            r == self.running_spec(),
    {
        self.running
    }

    /// Whether a request with this id waits for its response.
    pub fn is_pending(&self, id: u64) -> (r: bool)
        ensures
            r == self.pending().contains_key(id),
    {
        self.router.is_pending(id)
    }

    /// The number of requests that wait for their response.
    pub fn outstanding(&self) -> (n: usize)
        ensures
            n == self.pending().len(),
    {
        self.router.outstanding()
    }

    /// Takes in a request that was registered: `slot` waits for the response
    /// to `id`. A slot that waited under the same id is displaced and returned.
    pub fn register(&mut self, id: u64, slot: S) -> (displaced: Option<S>)
        ensures
            final(self).running() == old(self).running(),
            final(self).pending() == old(self).pending().insert(id, slot),
            displaced == delivery(old(self).pending(), id),
    {
        self.router.register(id, slot)
    }

    /// The registration input was closed: the loop ends, and every outstanding
    /// request comes back once, to be failed with an end of stream.
    pub fn on_disconnect(&mut self) -> (abandoned: Vec<(u64, S)>)
        ensures
            !final(self).running(),
            final(self).pending() == Map::<u64, S>::empty(),
            drained(old(self).pending(), abandoned@),
    {
        self.running = false;
        self.router.shutdown()
    }

    /// Whether `action`, with `pending` outstanding and the loop `running`
    /// afterwards, is what a loop with `self` does on `payload`.
    ///
    /// A message with a correlation tag is a response. It is delivered to the
    /// slot registered under its id, which then is no longer outstanding; with
    /// a tag that is no id, or the id of no outstanding request, it is
    /// discarded. A message without a tag is an update if it decodes as one,
    /// and is discarded if not. The update that announces the close ends the
    /// loop and abandons all that is outstanding.
    pub open spec fn dispatches(
        &self,
        payload: Value,
        action: Dispatch<S>,
        pending: Map<u64, S>,
        running: bool,
    ) -> bool {
        if is_tagged(payload) {
            &&& running == self.running()
            &&& match correlation_id(payload) {
                Some(id) => match delivery(self.pending(), id) {
                    Some(slot) => {
                        &&& action == (Dispatch::Deliver { slot, payload })
                        &&& pending == self.pending().remove(id)
                    },
                    None => action is Discard && pending == self.pending(),
                },
                None => action is Discard && pending == self.pending(),
            }
        } else {
            match action {
                Dispatch::Deliver { .. } => false,
                Dispatch::Update { update } => {
                    &&& TdLibResponse::decodes(payload, update)
                    &&& is_push(update)
                    &&& !announces_close(update)
                    &&& pending == self.pending()
                    &&& running == self.running()
                },
                Dispatch::Closed { update, abandoned } => {
                    &&& TdLibResponse::decodes(payload, update)
                    &&& announces_close(update)
                    &&& drained(self.pending(), abandoned@)
                    &&& pending == Map::<u64, S>::empty()
                    &&& !running
                },
                Dispatch::Discard => {
                    &&& forall|update: TdLibResponse|
                        TdLibResponse::decodes(payload, update) ==> !is_push(update)
                    &&& pending == self.pending()
                    &&& running == self.running()
                },
            }
        }
    }

    /// Takes in a message that was received and decoded as JSON.
    pub fn on_payload(&mut self, payload: Value) -> (action: Dispatch<S>)
        ensures
            old(self).dispatches(payload, action, final(self).pending(), final(self).running()),
    {
        match member_text(&payload, "@extra") {
            Some(tag) => match parse_u64(tag) {
                Some(id) => match self.router.resolve(id) {
                    Some(slot) => Dispatch::Deliver { slot, payload },
                    None => {
                        assert(self.router.pending() =~= old(self).router.pending());
                        Dispatch::Discard
                    },
                },
                None => Dispatch::Discard,
            },
            None => match TdLibResponse::decode(&payload) {
                Some(update) => {
                    let closes = match &update {
                        TdLibResponse::UpdateAuthorizationState { authorization_state } => {
                            authorization_state.typ == AuthState::AuthorizationStateClosed
                        },
                        _ => false,
                    };
                    let push = match &update {
                        TdLibResponse::UpdateAuthorizationState { .. } => true,
                        TdLibResponse::UpdateNewChat { .. } => true,
                        TdLibResponse::UpdateBasicGroup { .. } => true,
                        TdLibResponse::UpdateSupergroup { .. } => true,
                        TdLibResponse::UpdateUser { .. } => true,
                        _ => false,
                    };
                    if closes {
                        self.running = false;
                        let abandoned = self.router.shutdown();
                        Dispatch::Closed { update, abandoned }
                    } else if push {
                        Dispatch::Update { update }
                    } else {
                        proof {
                            crate::telegram::messages::lemma_kinds_differ();
                            crate::telegram::messages::lemma_kind_fixes_variant(payload, update);
                        }
                        Dispatch::Discard
                    }
                },
                None => {
                    proof {
                        crate::telegram::messages::lemma_decodes_is_decodable(payload);
                    }
                    Dispatch::Discard
                },
            },
        }
    }

    /// Takes in a message as it was received. Text that is no JSON is discarded;
    /// any other is handled as `on_payload` says.
    pub fn on_text(&mut self, text: &str) -> (action: Dispatch<S>)
        ensures
            match json_document(text@) {
                Some(payload) => old(self).dispatches(
                    payload,
                    action,
                    final(self).pending(),
                    final(self).running(),
                ),
                None => {
                    &&& action is Discard
                    &&& final(self).pending() == old(self).pending()
                    &&& final(self).running() == old(self).running()
                },
            },
    {
        match parse(text) {
            Some(payload) => self.on_payload(payload),
            None => Dispatch::Discard,
        }
    }
}

} // verus!
