//! The phases of a session, and how the engine's announcements move it
//! through them.

use crate::telegram::catalog::CatalogCache;
use crate::telegram::messages::{text_or_empty, AuthState, TdLibResponse, UpdateAuthState};
use serde_json::Value;
use vstd::prelude::*;
use vstd::string::*;

verus! {

/// Where a session stands, without what it carries.
#[derive(Clone, Copy, Debug, PartialEq, Eq, Structural)]
pub enum Phase {
    Init,
    AwaitingEngineParameters,
    AwaitingPhoneNumber,
    AwaitingCode,
    AwaitingPassword,
    Authorized,
    Closed,
}

impl Phase {
    /// The place of a phase in the order in which a session passes through them.
    pub open spec fn rank_spec(self) -> u8 {
        match self {
            Phase::Init => 0u8,
            Phase::AwaitingEngineParameters => 1u8,
            Phase::AwaitingPhoneNumber => 2u8,
            Phase::AwaitingCode => 3u8,
            Phase::AwaitingPassword => 4u8,
            Phase::Authorized => 5u8,
            Phase::Closed => 6u8,
        }
    }

    #[verifier::when_used_as_spec(rank_spec)]
    pub fn rank(self) -> (r: u8)
        ensures
            r == self.rank_spec(),
    {
        match self {
            Phase::Init => 0,
            Phase::AwaitingEngineParameters => 1,
            Phase::AwaitingPhoneNumber => 2,
            Phase::AwaitingCode => 3,
            Phase::AwaitingPassword => 4,
            Phase::Authorized => 5,
            Phase::Closed => 6,
        }
    }

    /// The phase that an authorization state of the engine stands for.
    pub open spec fn announced_spec(auth: AuthState) -> Phase {
        match auth {
            AuthState::AuthorizationStateWaitTdlibParameters => Phase::AwaitingEngineParameters,
            AuthState::AuthorizationStateWaitPhoneNumber => Phase::AwaitingPhoneNumber,
            AuthState::AuthorizationStateWaitCode => Phase::AwaitingCode,
            AuthState::AuthorizationStateWaitPassword => Phase::AwaitingPassword,
            AuthState::AuthorizationStateReady => Phase::Authorized,
            AuthState::AuthorizationStateClosed => Phase::Closed,
        }
    }

    #[verifier::when_used_as_spec(announced_spec)]
    pub fn announced(auth: AuthState) -> (r: Phase)
        ensures
            r == Self::announced_spec(auth),
    {
        match auth {
            AuthState::AuthorizationStateWaitTdlibParameters => Phase::AwaitingEngineParameters,
            AuthState::AuthorizationStateWaitPhoneNumber => Phase::AwaitingPhoneNumber,
            AuthState::AuthorizationStateWaitCode => Phase::AwaitingCode,
            AuthState::AuthorizationStateWaitPassword => Phase::AwaitingPassword,
            AuthState::AuthorizationStateReady => Phase::Authorized,
            AuthState::AuthorizationStateClosed => Phase::Closed,
        }
    }
}

/// The state of a session: its phase, the password hint while a password is
/// awaited, and the catalog once the session is authorized.
pub enum State {
    Init,
    AwaitingEngineParameters,
    AwaitingPhoneNumber,
    AwaitingCode,
    AwaitingPassword { hint: String },
    Authorized { catalog: CatalogCache },
    Closed,
}

impl State {
    pub open spec fn phase_spec(&self) -> Phase {
        match self {
            State::Init => Phase::Init,
            State::AwaitingEngineParameters => Phase::AwaitingEngineParameters,
            State::AwaitingPhoneNumber => Phase::AwaitingPhoneNumber,
            State::AwaitingCode => Phase::AwaitingCode,
            State::AwaitingPassword { .. } => Phase::AwaitingPassword,
            State::Authorized { .. } => Phase::Authorized,
            State::Closed => Phase::Closed,
        }
    }

    /// The password hint; empty in every phase but `AwaitingPassword`.
    pub open spec fn hint(&self) -> Seq<char> {
        match self {
            State::AwaitingPassword { hint } => hint@,
            _ => Seq::<char>::empty(),
        }
    }

    /// A new session.
    pub fn new() -> (r: State)
        ensures
            r == State::Init,
    {
        State::Init
    }

    /// The phase in which the session is.
    #[verifier::when_used_as_spec(phase_spec)]
    pub fn phase(&self) -> (r: Phase)
        ensures
            r == self.phase_spec(),
    {
        match self {
            State::Init => Phase::Init,
            State::AwaitingEngineParameters => Phase::AwaitingEngineParameters,
            State::AwaitingPhoneNumber => Phase::AwaitingPhoneNumber,
            State::AwaitingCode => Phase::AwaitingCode,
            State::AwaitingPassword { .. } => Phase::AwaitingPassword,
            State::Authorized { .. } => Phase::Authorized,
            State::Closed => Phase::Closed,
        }
    }

    /// The catalog, which exists in the phase `Authorized` only.
    pub fn catalog(&self) -> (r: Option<&CatalogCache>)
        ensures
            match r {
                Some(c) => *self == (State::Authorized { catalog: *c }),
                None => self.phase() != Phase::Authorized,
            },
    {
        match self {
            State::Authorized { catalog } => Some(catalog),
            _ => None,
        }
    }

    /// Whether an announcement of `auth` moves a session that is in this
    /// state. It does where it announces a later phase; one that announces the
    /// present phase or an earlier one is stale.
    pub open spec fn moved_by(&self, auth: AuthState) -> bool {
        Phase::announced(auth).rank() > self.phase().rank()
    }

    /// Whether `next` is the state that follows `self` on the announcement `update`.
    pub open spec fn follows_authorization(&self, update: UpdateAuthState, next: State) -> bool {
        if self.moved_by(update.typ) {
            &&& next.phase() == Phase::announced(update.typ)
            &&& next.hint() == (if update.typ == AuthState::AuthorizationStateWaitPassword {
                text_or_empty(update.other, "password_hint"@)
            } else {
                Seq::<char>::empty()
            })
            &&& next matches State::Authorized { catalog } ==> catalog.is_empty()
        } else {
            next == *self
        }
    }

    /// Takes in an announced authorization state. Returns whether the session moved.
    pub fn on_authorization(&mut self, update: &UpdateAuthState) -> (moved: bool)
        ensures
            moved == old(self).moved_by(update.typ),
            old(self).follows_authorization(*update, *final(self)),
    {
        let target = Phase::announced(update.typ);
        if target.rank() <= self.phase().rank() {
            return false;
        }
        match update.typ {
            AuthState::AuthorizationStateWaitTdlibParameters => {
                *self = State::AwaitingEngineParameters;
            },
            AuthState::AuthorizationStateWaitPhoneNumber => {
                *self = State::AwaitingPhoneNumber;
            },
            AuthState::AuthorizationStateWaitCode => {
                *self = State::AwaitingCode;
            },
            AuthState::AuthorizationStateWaitPassword => {
                let hint = match crate::json::member_text(&update.other, "password_hint") {
                    Some(h) => h.to_owned(),
                    None => String::new(),
                };
                *self = State::AwaitingPassword { hint };
            },
            AuthState::AuthorizationStateReady => {
                *self = State::Authorized { catalog: CatalogCache::new() };
            },
            AuthState::AuthorizationStateClosed => {
                *self = State::Closed;
            },
        }
        true
    }

    /// Whether `next` is the state that follows `self` on the message `update`.
    ///
    /// An announced authorization state moves the session forward. A record of
    /// a chat, a group or a user is kept while the session is authorized and
    /// dropped before. Any other message leaves the session as it is.
    pub open spec fn follows(&self, update: TdLibResponse, next: State) -> bool {
        match update {
            TdLibResponse::UpdateAuthorizationState { authorization_state } =>
                self.follows_authorization(authorization_state, next),
            TdLibResponse::UpdateNewChat { chat } => match *self {
                State::Authorized { catalog } => {
                    &&& next matches State::Authorized { catalog: kept }
                    &&& kept.chats() == catalog.chats().insert(chat.id, chat.other)
                    &&& kept.basic_groups() == catalog.basic_groups()
                    &&& kept.supergroups() == catalog.supergroups()
                    &&& kept.users() == catalog.users()
                },
                _ => next == *self,
            },
            TdLibResponse::UpdateBasicGroup { basicgroup } => match *self {
                State::Authorized { catalog } => {
                    &&& next matches State::Authorized { catalog: kept }
                    &&& kept.chats() == catalog.chats()
                    &&& kept.basic_groups() == catalog.basic_groups().insert(
                        basicgroup.id,
                        basicgroup.other,
                    )
                    &&& kept.supergroups() == catalog.supergroups()
                    &&& kept.users() == catalog.users()
                },
                _ => next == *self,
            },
            TdLibResponse::UpdateSupergroup { supergroup } => match *self {
                State::Authorized { catalog } => {
                    &&& next matches State::Authorized { catalog: kept }
                    &&& kept.chats() == catalog.chats()
                    &&& kept.basic_groups() == catalog.basic_groups()
                    &&& kept.supergroups() == catalog.supergroups().insert(
                        supergroup.id,
                        supergroup.other,
                    )
                    &&& kept.users() == catalog.users()
                },
                _ => next == *self,
            },
            TdLibResponse::UpdateUser { user } => match *self {
                State::Authorized { catalog } => {
                    &&& next matches State::Authorized { catalog: kept }
                    &&& kept.chats() == catalog.chats()
                    &&& kept.basic_groups() == catalog.basic_groups()
                    &&& kept.supergroups() == catalog.supergroups()
                    &&& kept.users() == catalog.users().insert(user.id, user.other)
                },
                _ => next == *self,
            },
            _ => next == *self,
        }
    }

    /// Takes in a message that the engine pushed.
    pub fn on_update(&mut self, update: TdLibResponse)
        ensures
            old(self).follows(update, *final(self)),
    {
        match update {
            TdLibResponse::UpdateAuthorizationState { authorization_state } => {
                self.on_authorization(&authorization_state);
            },
            TdLibResponse::UpdateNewChat { chat } => match self {
                State::Authorized { catalog } => {
                    catalog.record_chat(chat);
                },
                _ => {},
            },
            TdLibResponse::UpdateBasicGroup { basicgroup } => match self {
                State::Authorized { catalog } => {
                    catalog.record_basic_group(basicgroup);
                },
                _ => {},
            },
            TdLibResponse::UpdateSupergroup { supergroup } => match self {
                State::Authorized { catalog } => {
                    catalog.record_supergroup(supergroup);
                },
                _ => {},
            },
            TdLibResponse::UpdateUser { user } => match self {
                State::Authorized { catalog } => {
                    catalog.record_user(user);
                },
                _ => {},
            },
            _ => {},
        }
    }
}

/// A session never moves to an earlier phase.
pub proof fn lemma_phase_never_goes_back(state: State, update: TdLibResponse, next: State)
    requires
        state.follows(update, next),
    ensures
        next.phase().rank() >= state.phase().rank(),
{
}

/// A closed session stays as it is, whatever arrives.
pub proof fn lemma_closed_is_terminal(state: State, update: TdLibResponse, next: State)
    requires
        state.phase() == Phase::Closed,
        state.follows(update, next),
    ensures
        next == state,
{
}

/// Every phase but `Closed` is left for `Closed` when the engine announces it.
pub proof fn lemma_closed_is_reachable(state: State, other: Value, next: State)
    requires
        state.follows_authorization(
            UpdateAuthState { typ: AuthState::AuthorizationStateClosed, other },
            next,
        ),
    ensures
        next.phase() == Phase::Closed,
{
}

/// The catalog is empty at the moment a session becomes authorized.
pub proof fn lemma_catalog_starts_empty(state: State, update: TdLibResponse, next: State)
    requires
        state.phase() != Phase::Authorized,
        state.follows(update, next),
    ensures
        next matches State::Authorized { catalog } ==> catalog.is_empty(),
{
}

/// While a session stays authorized, no record leaves its catalog.
pub proof fn lemma_records_are_kept(state: State, update: TdLibResponse, next: State)
    requires
        state.follows(update, next),
    ensures
        state matches State::Authorized { catalog: before } ==> (next matches State::Authorized {
            catalog: after,
        } ==> {
            &&& before.chats().dom().subset_of(after.chats().dom())
            &&& before.basic_groups().dom().subset_of(after.basic_groups().dom())
            &&& before.supergroups().dom().subset_of(after.supergroups().dom())
            &&& before.users().dom().subset_of(after.users().dom())
        }),
{
}

/// A bounded wait for a phase: the phase is looked at, and while it is none of
/// the wanted ones the caller sleeps and looks again, a fixed number of times
/// at most.
#[derive(Debug)]
pub struct PhaseWait {
    wanted: Vec<Phase>,
    sleeps_left: u32,
}

/// What a caller that waits for a phase does next.
#[derive(Clone, Copy, Debug, PartialEq, Eq, Structural)]
pub enum WaitStep {
    /// The wait is over, with the phase last seen.
    Done(Phase),
    /// Sleep for one interval, then look again.
    Sleep,
}

impl PhaseWait {
    pub closed spec fn wanted(&self) -> Seq<Phase> {
        self.wanted@
    }

    pub closed spec fn sleeps_left(&self) -> u32 {
        self.sleeps_left
    }

    /// A wait for one of `wanted` that sleeps `sleeps` times at most.
    pub fn new(wanted: Vec<Phase>, sleeps: u32) -> (r: PhaseWait)
        ensures
            r.wanted() == wanted@,
            r.sleeps_left() == sleeps,
    {
        PhaseWait { wanted, sleeps_left: sleeps }
    }

    /// A wait for one of `wanted` that lasts `timeout_ms` milliseconds at most,
    /// with a look every `poll_interval_ms` milliseconds: as many sleeps as
    /// intervals fit into the timeout.
    pub fn await_phase(wanted: Vec<Phase>, timeout_ms: u32, poll_interval_ms: u32) -> (r:
        PhaseWait)
        ensures
            r.wanted() == wanted@,
            r.sleeps_left() == (if poll_interval_ms == 0 {
                0
            } else {
                timeout_ms as int / poll_interval_ms as int
            }),
    {
        let sleeps = if poll_interval_ms == 0 {
            0
        } else {
            timeout_ms / poll_interval_ms
        };
        PhaseWait { wanted, sleeps_left: sleeps }
    }

    /// The wait that follows the handing over of the engine parameters: for a
    /// phase in which the session can be used or logged in, with 10 sleeps at
    /// most.
    pub fn after_init() -> (r: PhaseWait)
        ensures
            r.wanted() == seq![Phase::AwaitingPhoneNumber, Phase::AwaitingCode, Phase::Authorized],
            r.sleeps_left() == 10,
    {
        let mut wanted: Vec<Phase> = Vec::new();
        wanted.push(Phase::AwaitingPhoneNumber);
        wanted.push(Phase::AwaitingCode);
        wanted.push(Phase::Authorized);
        proof {
            assert(wanted@ =~= seq![
                Phase::AwaitingPhoneNumber,
                Phase::AwaitingCode,
                Phase::Authorized,
            ]);
        }
        PhaseWait { wanted, sleeps_left: 10 }
    }

    /// Takes in the phase that was just seen. The wait is over when the phase
    /// is a wanted one, or when no sleep is left; else one sleep is used up.
    pub fn observe(&mut self, phase: Phase) -> (step: WaitStep)
        ensures
            final(self).wanted() == old(self).wanted(),
            step == (if old(self).wanted().contains(phase) || old(self).sleeps_left() == 0 {
                WaitStep::Done(phase)
            } else {
                WaitStep::Sleep
            }),
            final(self).sleeps_left() == (if step == WaitStep::Sleep {
                (old(self).sleeps_left() - 1) as u32
            } else {
                old(self).sleeps_left()
            }),
    {
        let mut i: usize = 0;
        let mut found = false;
        while i < self.wanted.len()
            invariant
                i <= self.wanted@.len(),
                *self == *old(self),
                found == self.wanted@.take(i as int).contains(phase),
            decreases self.wanted@.len() - i,
        {
            let ghost before = self.wanted@.take(i as int);
            if self.wanted[i] == phase {
                found = true;
            }
            proof {
                let after = self.wanted@.take(i + 1);
                assert(after =~= before.push(self.wanted@[i as int]));
                if before.contains(phase) {
                    let k = choose|k: int| 0 <= k < before.len() && before[k] == phase;
                    assert(after[k] == phase);
                }
                if self.wanted@[i as int] == phase {
                    assert(after[i as int] == phase);
                }
                if after.contains(phase) {
                    let k = choose|k: int| 0 <= k < after.len() && after[k] == phase;
                    if k < i {
                        assert(before[k] == phase);
                    }
                }
            }
            i = i + 1;
        }
        assert(self.wanted@.take(i as int) =~= self.wanted@);
        if found || self.sleeps_left == 0 {
            WaitStep::Done(phase)
        } else {
            self.sleeps_left = self.sleeps_left - 1;
            WaitStep::Sleep
        }
    }
}

} // verus!
