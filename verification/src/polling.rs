//! Polling sessions: per-view, cancelable repeating fetch loops.
//!
//! A session owns one resource snapshot and moves between three phases:
//! `Armed` (its timer is armed, no fetch outstanding), `InFlight` (exactly one
//! fetch outstanding) and `Canceled` (terminal). The surrounding application
//! arms timers and issues fetches as the returned [`PollAction`] directs, and
//! hands the timer tick and the settled fetch back in; every decision — start
//! a fetch, replace the snapshot, report a failure, re-arm the timer — is made
//! here.
//!
//! The transitions enforce the ordering rules of the design: a fetch is only
//! started from `Armed`, so at most one fetch is ever in flight per session;
//! the timer is re-armed only after a fetch settles, so the loop cannot
//! outpace the server; and once canceled, a session absorbs every remaining
//! event without mutating any state.

use vstd::prelude::*;

use crate::api::{ApiCallError, ApiError, Response};
use crate::notify::{NotificationQueue, NotificationStyle};
use crate::reconcile;
use crate::texts;

verus! {

/// The list resources a view keeps fresh by polling.
#[derive(Clone, Copy, PartialEq, Eq, Structural, Debug)]
pub enum PollResource {
    ChatMessages,
    ChatMembers,
    ChatList,
    BotList,
}

/// The query parameters a snapshot was produced with.
#[derive(Clone, Copy, PartialEq, Eq, Structural, Debug)]
pub struct PageParams {
    pub limit: i32,
    pub offset: i32,
}

/// The full, point-in-time result of one fetch of a list resource: the
/// records and the query parameters that produced them.
#[derive(Debug)]
pub struct Snapshot<T> {
    pub records: Vec<T>,
    pub params: PageParams,
}

/// Where a session stands in its fetch cycle.
#[derive(Clone, Copy, PartialEq, Eq, Structural, Debug)]
pub enum PollPhase {
    /// The timer is armed; no fetch is outstanding.
    Armed,
    /// Exactly one fetch is outstanding.
    InFlight,
    /// The owning view went away; terminal.
    Canceled,
}

/// What the surrounding application must do next on behalf of a session.
#[derive(Clone, Copy, PartialEq, Eq, Structural, Debug)]
pub enum PollAction {
    /// Nothing: the session is canceled or the event was stale.
    NoAction,
    /// Schedule a timer tick after this many milliseconds.
    ArmTimer { delay_ms: u32 },
    /// Issue the fetch for this resource, key and page.
    StartFetch { resource: PollResource, key: i32, params: PageParams },
}

/// How one settled fetch came out, as handed back by the application.
#[derive(Debug)]
pub enum FetchOutcome<T> {
    /// The envelope arrived with `ok = true`: a fresh snapshot.
    Success { snapshot: Snapshot<T> },
    /// The envelope arrived with `ok = false`.
    ServerError { error: Option<ApiError> },
    /// The transport failed before a well-formed envelope arrived.
    Disconnected,
}

/// A cancelable repeating fetch loop bound to one resource key, owning one
/// resource snapshot.
#[derive(Debug)]
pub struct PollingSession<T> {
    pub resource: PollResource,
    pub key: i32,
    pub interval_ms: u32,
    pub snapshot: Snapshot<T>,
    pub phase: PollPhase,
}

/// Mathematical image of a session: the snapshot records as a sequence.
#[verifier::ext_equal]
pub struct SessionView<T> {
    pub resource: PollResource,
    pub key: i32,
    pub interval_ms: u32,
    pub records: Seq<T>,
    pub params: PageParams,
    pub phase: PollPhase,
}

impl<T> View for PollingSession<T> {
    type V = SessionView<T>;

    open spec fn view(&self) -> SessionView<T> {
        SessionView {
            resource: self.resource,
            key: self.key,
            interval_ms: self.interval_ms,
            records: self.snapshot.records@,
            params: self.snapshot.params,
            phase: self.phase,
        }
    }
}

/// Mathematical image of a fetch outcome.
pub enum OutcomeView<T> {
    Success { records: Seq<T>, params: PageParams },
    ServerError,
    Disconnected,
}

impl<T> View for FetchOutcome<T> {
    type V = OutcomeView<T>;

    open spec fn view(&self) -> OutcomeView<T> {
        match self {
            FetchOutcome::Success { snapshot } => OutcomeView::Success {
                records: snapshot.records@,
                params: snapshot.params,
            },
            FetchOutcome::ServerError { .. } => OutcomeView::ServerError,
            FetchOutcome::Disconnected => OutcomeView::Disconnected,
        }
    }
}

/// What a transition did to the notification queue.
pub enum QueueEffect {
    NoEffect,
    Pushed { text: Seq<char>, style: NotificationStyle },
}

/// Relates the queue before and after a transition to the effect the
/// transition claims: either untouched, or exactly one appended entry with
/// the given text and style.
pub open spec fn queue_effect_holds(
    q0: NotificationQueue,
    q1: NotificationQueue,
    eff: QueueEffect,
) -> bool {
    match eff {
        QueueEffect::NoEffect => q1 == q0,
        QueueEffect::Pushed { text, style } => {
            &&& q1.next_id == q0.next_id + 1
            &&& q1.entries@.len() == q0.entries@.len() + 1
            &&& q1.entries@.drop_last() == q0.entries@
            &&& q1.entries@.last().id == q0.next_id
            &&& q1.entries@.last().text@ == text
            &&& q1.entries@.last().style == style
        },
    }
}

/// How many fetches a session has outstanding: one while in flight, else
/// none. By construction this never exceeds one.
pub open spec fn fetches_in_flight<T>(v: SessionView<T>) -> nat {
    if v.phase is InFlight {
        1nat
    } else {
        0nat
    }
}

/// The notification text for a server-reported failure of each resource.
pub open spec fn fetch_failed_text(r: PollResource) -> Seq<char> {
    match r {
        PollResource::ChatMessages => texts::fetch_messages_failed_text(),
        PollResource::ChatMembers => texts::fetch_messages_failed_text(),
        PollResource::ChatList => texts::fetch_chats_failed_text(),
        PollResource::BotList => texts::fetch_chats_failed_text(),
    }
}

/// The timer tick transition: only an armed session starts a fetch; a tick
/// reaching an in-flight or canceled session does nothing.
pub open spec fn step_timer<T>(v: SessionView<T>) -> (SessionView<T>, PollAction) {
    match v.phase {
        PollPhase::Armed => (
            SessionView { phase: PollPhase::InFlight, ..v },
            PollAction::StartFetch { resource: v.resource, key: v.key, params: v.params },
        ),
        PollPhase::InFlight => (v, PollAction::NoAction),
        PollPhase::Canceled => (v, PollAction::NoAction),
    }
}

/// The settled-fetch transition. A canceled session absorbs the event
/// without any state change. Otherwise: a success replaces the snapshot in
/// full, a server-reported failure or a transport failure leaves the snapshot
/// untouched and reports exactly one notification, and in every case the
/// timer is re-armed for the next cycle.
pub open spec fn step_settled<T>(v: SessionView<T>, o: OutcomeView<T>) -> (
    SessionView<T>,
    PollAction,
    QueueEffect,
) {
    match v.phase {
        PollPhase::Canceled => (v, PollAction::NoAction, QueueEffect::NoEffect),
        _ => match o {
            OutcomeView::Success { records, params } => (
                SessionView { records, params, phase: PollPhase::Armed, ..v },
                PollAction::ArmTimer { delay_ms: v.interval_ms },
                QueueEffect::NoEffect,
            ),
            OutcomeView::ServerError => (
                SessionView { phase: PollPhase::Armed, ..v },
                PollAction::ArmTimer { delay_ms: v.interval_ms },
                QueueEffect::Pushed {
                    text: fetch_failed_text(v.resource),
                    style: NotificationStyle::Error,
                },
            ),
            OutcomeView::Disconnected => (
                SessionView { phase: PollPhase::Armed, ..v },
                PollAction::ArmTimer { delay_ms: v.interval_ms },
                QueueEffect::Pushed {
                    text: texts::server_down_text(),
                    style: NotificationStyle::Error,
                },
            ),
        },
    }
}

/// The cancel transition: the phase becomes terminal, everything else stays.
pub open spec fn step_cancel<T>(v: SessionView<T>) -> SessionView<T> {
    SessionView { phase: PollPhase::Canceled, ..v }
}

impl<T> PollingSession<T> {
    /// Starts a session: the snapshot begins empty (the first paint shows
    /// placeholder state) and the first fetch happens only after an initial
    /// delay of one full interval.
    pub fn start(resource: PollResource, key: i32, interval_ms: u32, params: PageParams) -> (r: (
        PollingSession<T>,
        PollAction,
    ))
        ensures
            r.0@.resource == resource,
            r.0@.key == key,
            r.0@.interval_ms == interval_ms,
            r.0@.params == params,
            r.0@.records == Seq::<T>::empty(),
            r.0@.phase is Armed,
            r.1 == (PollAction::ArmTimer { delay_ms: interval_ms }),
    {
        let session = PollingSession {
            resource,
            key,
            interval_ms,
            snapshot: Snapshot { records: Vec::new(), params },
            phase: PollPhase::Armed,
        };
        (session, PollAction::ArmTimer { delay_ms: interval_ms })
    }

    /// Handles a timer tick.
    pub fn on_timer(&mut self) -> (act: PollAction)
        ensures
            final(self)@ == step_timer(old(self)@).0,
            act == step_timer(old(self)@).1,
    {
        match self.phase {
            PollPhase::Armed => {
                self.phase = PollPhase::InFlight;
                let act = PollAction::StartFetch {
                    resource: self.resource,
                    key: self.key,
                    params: self.snapshot.params,
                };
                proof {
                    assert(final(self)@ =~= step_timer(old(self)@).0);
                }
                act
            },
            _ => PollAction::NoAction,
        }
    }

    /// Handles the settled fetch, feeding any failure into the notification
    /// queue. Only called while a fetch is outstanding or after cancellation:
    /// an armed session has nothing to settle.
    pub fn on_fetch_settled(&mut self, outcome: FetchOutcome<T>, queue: &mut NotificationQueue)
        -> (act: PollAction)
        requires
            !(old(self)@.phase is Armed),
            old(queue).wf(),
            old(queue).next_id < u64::MAX,
        ensures
            final(queue).wf(),
            final(queue).next_id <= old(queue).next_id + 1,
            final(self)@ == step_settled(old(self)@, outcome@).0,
            act == step_settled(old(self)@, outcome@).1,
            queue_effect_holds(*old(queue), *final(queue), step_settled(old(self)@, outcome@).2),
    {
        match self.phase {
            PollPhase::Canceled => PollAction::NoAction,
            _ => {
                match outcome {
                    FetchOutcome::Success { snapshot } => {
                        reconcile::replace(&mut self.snapshot, snapshot);
                        self.phase = PollPhase::Armed;
                        proof {
                            assert(final(self)@ =~= step_settled(old(self)@, outcome@).0);
                        }
                    },
                    FetchOutcome::ServerError { error: _ } => {
                        let text = match self.resource {
                            PollResource::ChatMessages => texts::fetch_messages_failed_message(),
                            PollResource::ChatMembers => texts::fetch_messages_failed_message(),
                            PollResource::ChatList => texts::fetch_chats_failed_message(),
                            PollResource::BotList => texts::fetch_chats_failed_message(),
                        };
                        queue.enqueue(text, NotificationStyle::Error);
                        self.phase = PollPhase::Armed;
                        proof {
                            assert(final(self)@ =~= step_settled(old(self)@, outcome@).0);
                            assert(queue.entries@.drop_last() =~= old(queue).entries@);
                        }
                    },
                    FetchOutcome::Disconnected => {
                        let text = texts::server_down_message();
                        queue.enqueue(text, NotificationStyle::Error);
                        self.phase = PollPhase::Armed;
                        proof {
                            assert(final(self)@ =~= step_settled(old(self)@, outcome@).0);
                            assert(queue.entries@.drop_last() =~= old(queue).entries@);
                        }
                    },
                }
                PollAction::ArmTimer { delay_ms: self.interval_ms }
            },
        }
    }

    /// Cancels the session on view teardown. No later event mutates any
    /// state of a canceled session.
    pub fn cancel(&mut self)
        ensures
            final(self)@ == step_cancel(old(self)@),
    {
        self.phase = PollPhase::Canceled;
        proof {
            assert(final(self)@ =~= step_cancel(old(self)@));
        }
    }
}

/// Turns the transport result of a list fetch into the session's outcome:
/// `ok = true` yields the fresh snapshot with the parameters it was fetched
/// for, `ok = false` yields the server-reported failure, and a transport
/// error yields the disconnected outcome. A success envelope always carries
/// its payload.
pub fn classify_fetch<T>(r: Result<Response<Vec<T>>, ApiCallError>, params: PageParams) -> (o:
    FetchOutcome<T>)
    requires
        r matches Ok(resp) ==> resp.ok ==> resp.data is Some,
    ensures
        match r {
            Ok(resp) => {
                if resp.ok {
                    o matches FetchOutcome::Success { snapshot } && snapshot.records
                        == resp.data->Some_0 && snapshot.params == params
                } else {
                    o matches FetchOutcome::ServerError { error } && error == resp.error
                }
            },
            Err(_) => o is Disconnected,
        },
{
    match r {
        Ok(resp) => {
            if resp.ok {
                match resp.data {
                    Some(records) => FetchOutcome::Success {
                        snapshot: Snapshot { records, params },
                    },
                    None => {
                        proof {
                            assert(false);
                        }
                        FetchOutcome::Disconnected
                    },
                }
            } else {
                FetchOutcome::ServerError { error: resp.error }
            }
        },
        Err(_) => FetchOutcome::Disconnected,
    }
}

/// A fetch is started only by a timer tick reaching an armed session — one
/// with no fetch outstanding — and starting it is what puts the session in
/// flight; a settling fetch never starts another. So a session never has two
/// fetches in flight at once.
pub proof fn lemma_at_most_one_fetch_in_flight<T>(v: SessionView<T>, o: OutcomeView<T>)
    ensures
        fetches_in_flight(v) <= 1,
        step_timer(v).1 is StartFetch <==> fetches_in_flight(v) == 0 && v.phase is Armed,
        step_timer(v).1 is StartFetch ==> fetches_in_flight(step_timer(v).0) == 1,
        !(step_timer(v).1 is StartFetch) ==> step_timer(v).0 == v,
        !(step_settled(v, o).1 is StartFetch),
        fetches_in_flight(step_settled(v, o).0) == 0,
{
}

/// Once canceled, a session absorbs every remaining event — the timer tick
/// and the settled in-flight fetch — with zero state mutation, no
/// notification, and no further action.
pub proof fn lemma_canceled_session_is_inert<T>(v: SessionView<T>, o: OutcomeView<T>)
    requires
        v.phase is Canceled,
    ensures
        step_timer(v) == (v, PollAction::NoAction),
        step_settled(v, o) == (v, PollAction::NoAction, QueueEffect::NoEffect),
        step_cancel(v) == v,
{
    assert(step_cancel(v) =~= v);
}

/// A fetch that settles without success leaves the previous snapshot — its
/// records and its query parameters — exactly as it was, while reporting
/// exactly one error notification; a successful fetch replaces the snapshot
/// in full and reports nothing.
pub proof fn lemma_failure_keeps_snapshot<T>(v: SessionView<T>, o: OutcomeView<T>)
    requires
        v.phase is InFlight,
    ensures
        !(o is Success) ==> step_settled(v, o).0.records == v.records && step_settled(
            v,
            o,
        ).0.params == v.params,
        !(o is Success) ==> (step_settled(v, o).2 matches QueueEffect::Pushed { style, .. }
            && style == NotificationStyle::Error),
        o matches OutcomeView::Success { records, params } ==> step_settled(v, o).0.records
            == records && step_settled(v, o).0.params == params && step_settled(v, o).2
            is NoEffect,
{
}

/// Unless it was canceled, a session re-arms its timer after every settled
/// fetch — success or failure — with its fixed interval, keeping the poll
/// loop alive without ever overlapping fetches.
pub proof fn lemma_rearm_after_settle<T>(v: SessionView<T>, o: OutcomeView<T>)
    requires
        v.phase is InFlight,
    ensures
        step_settled(v, o).1 == (PollAction::ArmTimer { delay_ms: v.interval_ms }),
        step_settled(v, o).0.phase is Armed,
{
}

} // verus!
