//! The scoped session protocol on the shared backend connection.
//!
//! One request at a time holds the connection. It authenticates with its
//! credential, runs exactly one operation, and de-authenticates, whatever
//! the operation's result. The driver performs each action that `handle`
//! returns and reports back what happened as the next event; requests are
//! told apart by a number the driver assigns.
use vstd::prelude::*;

verus! {

/// How the guarded operation itself ended.
#[derive(PartialEq, Eq, Structural, Clone, Copy, Debug)]
pub enum Outcome {
    Succeeded,
    Failed,
}

/// Where the shared connection stands.
#[derive(PartialEq, Eq, Structural, Clone, Copy, Debug)]
pub enum Phase {
    /// No request holds the connection; no identity is bound.
    Free,
    /// The holder's credential is being presented.
    Authenticating,
    /// The holder's identity is bound and its operation runs.
    Operating,
    /// The operation ended with the given outcome; the binding is being
    /// cleared.
    Releasing(Outcome),
    /// Clearing a binding failed: the connection may still carry an
    /// identity, so no request may use it again.
    Poisoned,
}

/// What the driver reports.
#[derive(PartialEq, Eq, Structural, Clone, Copy, Debug)]
pub enum GuardEvent {
    /// Request `r` asks to run one guarded operation.
    Begin(u64),
    /// The backend accepted `r`'s credential.
    AuthSucceeded(u64),
    /// The backend refused `r`'s credential.
    AuthFailed(u64),
    /// `r`'s operation ended, successfully or not.
    OperationEnded(u64, Outcome),
    /// The backend cleared `r`'s binding.
    DeauthSucceeded(u64),
    /// Clearing `r`'s binding failed.
    DeauthFailed(u64),
    /// Request `r` was dropped before it finished.
    Aborted(u64),
}

/// What a guarded request finally receives.
#[derive(PartialEq, Eq, Structural, Clone, Copy, Debug)]
pub enum GuardResult {
    /// The credential was refused; nothing was bound and nothing ran.
    AuthenticationFailed,
    /// The operation ran and ended with `outcome`; `released` tells
    /// whether the binding was then cleared.
    Completed { outcome: Outcome, released: bool },
}

/// What the driver is to do next.
#[derive(PartialEq, Eq, Structural, Clone, Copy, Debug)]
pub enum GuardAction {
    /// Present `r`'s credential to the connection.
    Authenticate(u64),
    /// Run `r`'s operation on the connection.
    RunOperation(u64),
    /// Clear the binding of the connection.
    Deauthenticate(u64),
    /// Hand `r` its result; the request is over.
    Finish(u64, GuardResult),
    /// The connection is held by another request: `r` waits and begins
    /// again later.
    Wait(u64),
    /// The connection is unusable: `r` fails as unavailable.
    Refuse(u64),
    /// The event does not belong to the current holder's step: nothing to do.
    Ignore,
}

/// The state of the shared connection.
#[derive(PartialEq, Eq, Structural, Clone, Copy, Debug)]
pub struct Connection {
    pub phase: Phase,
    /// The request that holds the connection, unless it is free.
    pub holder: u64,
    /// The request whose identity is bound to the connection.
    pub bound: Option<u64>,
}

impl Connection {
    /// Only the holder's identity is ever bound, and only while its
    /// operation runs or its binding is being cleared.
    pub open spec fn wf(self) -> bool {
        match self.phase {
            Phase::Free => self.bound is None,
            Phase::Authenticating => self.bound is None,
            Phase::Operating => self.bound == Some(self.holder),
            Phase::Releasing(_) => self.bound == Some(self.holder),
            Phase::Poisoned => true,
        }
    }

    /// Whether the connection is being used on behalf of a request.
    pub open spec fn is_held(self) -> bool {
        !(self.phase is Free) && !(self.phase is Poisoned)
    }
}

/// The request an event comes from.
pub open spec fn event_request(e: GuardEvent) -> u64 {
    match e {
        GuardEvent::Begin(r) => r,
        GuardEvent::AuthSucceeded(r) => r,
        GuardEvent::AuthFailed(r) => r,
        GuardEvent::OperationEnded(r, _) => r,
        GuardEvent::DeauthSucceeded(r) => r,
        GuardEvent::DeauthFailed(r) => r,
        GuardEvent::Aborted(r) => r,
    }
}

/// One step of the protocol: the next state of the connection and the
/// action for the driver.
pub open spec fn spec_step(c: Connection, e: GuardEvent) -> (Connection, GuardAction) {
    let mine = |r: u64| c.is_held() && c.holder == r;
    match e {
        GuardEvent::Begin(r) => match c.phase {
            Phase::Free => (
                Connection { phase: Phase::Authenticating, holder: r, bound: None },
                GuardAction::Authenticate(r),
            ),
            Phase::Poisoned => (c, GuardAction::Refuse(r)),
            _ => (c, GuardAction::Wait(r)),
        },
        GuardEvent::AuthSucceeded(r) => if mine(r) && c.phase is Authenticating {
            (
                Connection { phase: Phase::Operating, holder: r, bound: Some(r) },
                GuardAction::RunOperation(r),
            )
        } else {
            (c, GuardAction::Ignore)
        },
        GuardEvent::AuthFailed(r) => if mine(r) && c.phase is Authenticating {
            (
                Connection { phase: Phase::Free, holder: r, bound: None },
                GuardAction::Finish(r, GuardResult::AuthenticationFailed),
            )
        } else {
            (c, GuardAction::Ignore)
        },
        GuardEvent::OperationEnded(r, o) => if mine(r) && c.phase is Operating {
            (Connection { phase: Phase::Releasing(o), ..c }, GuardAction::Deauthenticate(r))
        } else {
            (c, GuardAction::Ignore)
        },
        GuardEvent::DeauthSucceeded(r) => match c.phase {
            Phase::Releasing(o) => if c.holder == r {
                (
                    Connection { phase: Phase::Free, holder: r, bound: None },
                    GuardAction::Finish(r, GuardResult::Completed { outcome: o, released: true }),
                )
            } else {
                (c, GuardAction::Ignore)
            },
            _ => (c, GuardAction::Ignore),
        },
        GuardEvent::DeauthFailed(r) => match c.phase {
            Phase::Releasing(o) => if c.holder == r {
                (
                    Connection { phase: Phase::Poisoned, ..c },
                    GuardAction::Finish(r, GuardResult::Completed { outcome: o, released: false }),
                )
            } else {
                (c, GuardAction::Ignore)
            },
            _ => (c, GuardAction::Ignore),
        },
        GuardEvent::Aborted(r) => if mine(r) {
            match c.phase {
                Phase::Releasing(_) => (c, GuardAction::Deauthenticate(r)),
                _ => (
                    Connection { phase: Phase::Releasing(Outcome::Failed), holder: r, bound: Some(r) },
                    GuardAction::Deauthenticate(r),
                ),
            }
        } else {
            (c, GuardAction::Ignore)
        },
    }
}

/// The state after a run of events, in order.
pub open spec fn replay(c: Connection, es: Seq<GuardEvent>) -> Connection
    decreases es.len(),
{
    if es.len() == 0 {
        c
    } else {
        spec_step(replay(c, es.drop_last()), es.last()).0
    }
}

impl Connection {
    /// A free connection with no identity bound.
    pub fn new() -> (r: Connection)
        ensures
            r.phase == Phase::Free,
            r.bound is None,
            r.wf(),
    {
        Connection { phase: Phase::Free, holder: 0, bound: None }
    }

    /// Takes one event and returns the driver's next action.
    pub fn handle(&mut self, e: GuardEvent) -> (a: GuardAction)
        ensures
            (*final(self), a) == spec_step(*old(self), e),
    {
        let held = match self.phase {
            Phase::Free => false,
            Phase::Poisoned => false,
            _ => true,
        };
        match e {
            GuardEvent::Begin(r) => match self.phase {
                Phase::Free => {
                    *self = Connection { phase: Phase::Authenticating, holder: r, bound: None };
                    GuardAction::Authenticate(r)
                },
                Phase::Poisoned => GuardAction::Refuse(r),
                _ => GuardAction::Wait(r),
            },
            GuardEvent::AuthSucceeded(r) => {
                if held && self.holder == r && self.phase == Phase::Authenticating {
                    *self = Connection { phase: Phase::Operating, holder: r, bound: Some(r) };
                    GuardAction::RunOperation(r)
                } else {
                    GuardAction::Ignore
                }
            },
            GuardEvent::AuthFailed(r) => {
                if held && self.holder == r && self.phase == Phase::Authenticating {
                    *self = Connection { phase: Phase::Free, holder: r, bound: None };
                    GuardAction::Finish(r, GuardResult::AuthenticationFailed)
                } else {
                    GuardAction::Ignore
                }
            },
            GuardEvent::OperationEnded(r, o) => {
                if held && self.holder == r && self.phase == Phase::Operating {
                    self.phase = Phase::Releasing(o);
                    GuardAction::Deauthenticate(r)
                } else {
                    GuardAction::Ignore
                }
            },
            GuardEvent::DeauthSucceeded(r) => match self.phase {
                Phase::Releasing(o) => {
                    if self.holder == r {
                        *self = Connection { phase: Phase::Free, holder: r, bound: None };
                        GuardAction::Finish(r, GuardResult::Completed { outcome: o, released: true })
                    } else {
                        GuardAction::Ignore
                    }
                },
                _ => GuardAction::Ignore,
            },
            GuardEvent::DeauthFailed(r) => match self.phase {
                Phase::Releasing(o) => {
                    if self.holder == r {
                        self.phase = Phase::Poisoned;
                        GuardAction::Finish(
                            r,
                            GuardResult::Completed { outcome: o, released: false },
                        )
                    } else {
                        GuardAction::Ignore
                    }
                },
                _ => GuardAction::Ignore,
            },
            GuardEvent::Aborted(r) => {
                if held && self.holder == r {
                    match self.phase {
                        Phase::Releasing(_) => {},
                        _ => {
                            *self = Connection {
                                phase: Phase::Releasing(Outcome::Failed),
                                holder: r,
                                bound: Some(r),
                            };
                        },
                    }
                    GuardAction::Deauthenticate(r)
                } else {
                    GuardAction::Ignore
                }
            },
        }
    }
}

/// Each step keeps the binding to the holder alone.
pub proof fn lemma_step_wf(c: Connection, e: GuardEvent)
    requires
        c.wf(),
    ensures
        spec_step(c, e).0.wf(),
{
}

/// Under any interleaving of the events of any number of requests, only
/// the holder's identity is ever bound to the connection.
pub proof fn lemma_replay_wf(c: Connection, es: Seq<GuardEvent>)
    requires
        c.wf(),
    ensures
        replay(c, es).wf(),
    decreases es.len(),
{
    if es.len() > 0 {
        lemma_replay_wf(c, es.drop_last());
        lemma_step_wf(replay(c, es.drop_last()), es.last());
    }
}

/// While one request holds the connection, no event of another request
/// changes it or makes anything run; and an operation is only ever run
/// with the identity of its own request bound.
pub proof fn lemma_isolation(c: Connection, e: GuardEvent)
    requires
        c.wf(),
    ensures
        c.is_held() && event_request(e) != c.holder ==> spec_step(c, e).0 == c
            && !(spec_step(c, e).1 is RunOperation) && !(spec_step(c, e).1 is Deauthenticate),
        spec_step(c, e).1 matches GuardAction::RunOperation(r) ==> spec_step(c, e).0.bound == Some(
            r,
        ) && r == event_request(e),
{
}

/// Whatever its operation's outcome, a request that ran leaves the
/// connection free and unbound once the binding is cleared, and receives
/// that outcome unchanged.
pub proof fn lemma_release_after_operation(c: Connection, r: u64, o: Outcome)
    requires
        c.wf(),
        c.phase == Phase::Operating,
        c.holder == r,
    ensures
        ({
            let (c1, a1) = spec_step(c, GuardEvent::OperationEnded(r, o));
            let (c2, a2) = spec_step(c1, GuardEvent::DeauthSucceeded(r));
            &&& a1 == GuardAction::Deauthenticate(r)
            &&& c2.phase == Phase::Free
            &&& c2.bound is None
            &&& a2 == GuardAction::Finish(r, GuardResult::Completed { outcome: o, released: true })
        }),
        ({
            let (c1, a1) = spec_step(c, GuardEvent::OperationEnded(r, o));
            let (c2, a2) = spec_step(c1, GuardEvent::DeauthFailed(r));
            a2 == GuardAction::Finish(r, GuardResult::Completed { outcome: o, released: false })
                && !c2.is_held() && c2.phase == Phase::Poisoned
        }),
{
}

/// A request dropped while it holds the connection still has its binding
/// cleared, as a failed operation's would be.
pub proof fn lemma_abort_releases(c: Connection, r: u64)
    requires
        c.wf(),
        c.is_held(),
        c.holder == r,
    ensures
        ({
            let (c1, a1) = spec_step(c, GuardEvent::Aborted(r));
            let (c2, a2) = spec_step(c1, GuardEvent::DeauthSucceeded(r));
            &&& a1 == GuardAction::Deauthenticate(r)
            &&& c2.phase == Phase::Free
            &&& c2.bound is None
            &&& a2 is Finish
        }),
{
}

/// A refused credential binds nothing, needs no clearing, and frees the
/// connection.
pub proof fn lemma_auth_failure(c: Connection, r: u64)
    requires
        c.wf(),
        c.phase == Phase::Authenticating,
        c.holder == r,
    ensures
        spec_step(c, GuardEvent::AuthFailed(r)) == (
            Connection { phase: Phase::Free, holder: r, bound: None },
            GuardAction::Finish(r, GuardResult::AuthenticationFailed),
        ),
{
}

} // verus!
