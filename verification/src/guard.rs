//! The session guard: resolves the current authenticated identity exactly
//! once per guard instance, exposes it read-only to the views it wraps, and
//! routes unauthenticated sessions away from protected views.
//!
//! Resolution fails closed: a server-reported "not authenticated" and a
//! transport or decode failure both navigate to the login view; neither is
//! retried.

use vstd::prelude::*;

use crate::api::{ApiCallError, Response, User};

verus! {

/// The client-side routing table.
#[derive(Clone, Copy, PartialEq, Eq, Structural, Debug)]
pub enum Route {
    Index,
    Chats,
    Chat { id: i32 },
    Login,
    Register,
    MyBots,
    NotFound,
}

/// Whether a route renders behind the session guard.
pub open spec fn spec_route_is_protected(r: Route) -> bool {
    match r {
        Route::Chats => true,
        Route::Chat { .. } => true,
        Route::MyBots => true,
        Route::Index => false,
        Route::Login => false,
        Route::Register => false,
        Route::NotFound => false,
    }
}

/// The chats view, each chat view and the bots view require a resolved
/// identity; the index, login, register and not-found views do not.
pub fn route_is_protected(r: Route) -> (b: bool)
    ensures
        b == spec_route_is_protected(r),
{
    match r {
        Route::Chats => true,
        Route::Chat { .. } => true,
        Route::MyBots => true,
        _ => false,
    }
}

/// Lifecycle of the session state a guard owns.
#[derive(Debug)]
pub enum SessionLifecycle {
    /// The guard has not activated yet.
    Unresolved,
    /// The single identity fetch is in flight.
    Resolving,
    /// The fetch settled; `user` is the identity, if authenticated.
    Resolved { user: Option<User> },
}

/// What the surrounding application must do next on behalf of a guard.
#[derive(Clone, Copy, PartialEq, Eq, Structural, Debug)]
pub enum GuardAction {
    NoAction,
    /// Issue the single "who am I" request.
    IssueIdentityFetch,
    /// Route away from the protected subtree.
    Navigate { to: Route },
}

/// How the identity fetch settled.
#[derive(Debug)]
pub enum IdentityOutcome {
    /// The envelope arrived with `ok = true`: `user` is its payload.
    Accepted { user: Option<User> },
    /// The envelope arrived with `ok = false`: explicitly not authenticated.
    Rejected,
    /// The transport failed before a well-formed envelope arrived.
    Unreachable,
}

/// The activation transition: only a guard that has never activated issues
/// the identity fetch; re-activation does nothing, so exactly one resolution
/// attempt is made per guard instance.
pub open spec fn step_activate(s: SessionLifecycle) -> (SessionLifecycle, GuardAction) {
    match s {
        SessionLifecycle::Unresolved => (
            SessionLifecycle::Resolving,
            GuardAction::IssueIdentityFetch,
        ),
        _ => (s, GuardAction::NoAction),
    }
}

/// The resolution transition. An accepted envelope resolves to its payload
/// and stays put; a rejected envelope and an unreachable server both resolve
/// to no identity and navigate to the login view — fail closed, no retry.
pub open spec fn step_resolve(s: SessionLifecycle, o: IdentityOutcome) -> (
    SessionLifecycle,
    GuardAction,
) {
    match s {
        SessionLifecycle::Resolving => match o {
            IdentityOutcome::Accepted { user } => (
                SessionLifecycle::Resolved { user },
                GuardAction::NoAction,
            ),
            IdentityOutcome::Rejected => (
                SessionLifecycle::Resolved { user: Option::None },
                GuardAction::Navigate { to: Route::Login },
            ),
            IdentityOutcome::Unreachable => (
                SessionLifecycle::Resolved { user: Option::None },
                GuardAction::Navigate { to: Route::Login },
            ),
        },
        _ => (s, GuardAction::NoAction),
    }
}

/// A gate component owning the session state of the subtree it wraps.
#[derive(Debug)]
pub struct SessionGuard {
    pub state: SessionLifecycle,
}

impl SessionGuard {
    /// A freshly mounted guard: nothing resolved yet, and descendants must
    /// not assume an identity is available.
    pub fn new() -> (g: SessionGuard)
        ensures
            g.state is Unresolved,
    {
        SessionGuard { state: SessionLifecycle::Unresolved }
    }

    /// First activation issues the single "who am I" request; any later
    /// activation is a no-op.
    pub fn activate(&mut self) -> (act: GuardAction)
        ensures
            final(self).state == step_activate(old(self).state).0,
            act == step_activate(old(self).state).1,
    {
        match self.state {
            SessionLifecycle::Unresolved => {
                self.state = SessionLifecycle::Resolving;
                GuardAction::IssueIdentityFetch
            },
            _ => GuardAction::NoAction,
        }
    }

    /// Feeds the settled identity fetch in.
    pub fn on_identity(&mut self, o: IdentityOutcome) -> (act: GuardAction)
        ensures
            final(self).state == step_resolve(old(self).state, o).0,
            act == step_resolve(old(self).state, o).1,
    {
        match self.state {
            SessionLifecycle::Resolving => match o {
                IdentityOutcome::Accepted { user } => {
                    self.state = SessionLifecycle::Resolved { user };
                    GuardAction::NoAction
                },
                IdentityOutcome::Rejected => {
                    self.state = SessionLifecycle::Resolved { user: Option::None };
                    GuardAction::Navigate { to: Route::Login }
                },
                IdentityOutcome::Unreachable => {
                    self.state = SessionLifecycle::Resolved { user: Option::None };
                    GuardAction::Navigate { to: Route::Login }
                },
            },
            _ => GuardAction::NoAction,
        }
    }

    /// The session state, borrowed read-only for descendants; only the guard
    /// itself produces new values.
    pub fn identity(&self) -> (r: &SessionLifecycle)
        ensures
            r == self.state,
    {
        &self.state
    }
}

/// Turns the transport result of the "who am I" request into the guard's
/// outcome: `ok = true` is accepted with its payload, `ok = false` is the
/// explicit "not authenticated" answer, and a transport failure is the
/// unreachable server.
pub fn classify_identity(r: Result<Response<User>, ApiCallError>) -> (o: IdentityOutcome)
    ensures
        match r {
            Ok(resp) => {
                if resp.ok {
                    o matches IdentityOutcome::Accepted { user } && user == resp.data
                } else {
                    o is Rejected
                }
            },
            Err(_) => o is Unreachable,
        },
{
    match r {
        Ok(resp) => {
            if resp.ok {
                IdentityOutcome::Accepted { user: resp.data }
            } else {
                IdentityOutcome::Rejected
            }
        },
        Err(_) => IdentityOutcome::Unreachable,
    }
}

/// Resolution fails closed: any outcome other than an accepted envelope —
/// the explicit "not authenticated" answer or an unreachable server — leaves
/// the session resolved with no identity and navigates to the login view.
pub proof fn lemma_guard_fails_closed(o: IdentityOutcome)
    requires
        !(o is Accepted),
    ensures
        step_resolve(SessionLifecycle::Resolving, o) == (
            SessionLifecycle::Resolved { user: Option::<User>::None },
            GuardAction::Navigate { to: Route::Login },
        ),
{
}

/// Exactly one resolution attempt per guard instance: activation issues the
/// fetch only from the initial state, moves the guard out of it, and no
/// transition ever returns to it.
pub proof fn lemma_single_resolution_attempt(s: SessionLifecycle, o: IdentityOutcome)
    ensures
        step_activate(s).1 is IssueIdentityFetch <==> s is Unresolved,
        s is Unresolved ==> step_activate(s).0 is Resolving,
        !(s is Unresolved) ==> step_activate(s) == (s, GuardAction::NoAction),
        !(step_activate(s).0 is Unresolved),
        !(s is Unresolved) ==> !(step_resolve(s, o).0 is Unresolved),
{
}

} // verus!
