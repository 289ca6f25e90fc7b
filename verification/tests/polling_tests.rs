use bitum_frontend::api::{ApiCallError, ApiError, Response};
use bitum_frontend::notify::{NotificationQueue, NotificationStyle};
use bitum_frontend::polling::{
    classify_fetch, FetchOutcome, PageParams, PollAction, PollResource, PollingSession, Snapshot,
};

fn page() -> PageParams {
    PageParams { limit: 40, offset: 0 }
}

fn started(resource: PollResource, key: i32) -> PollingSession<String> {
    let (mut session, first) = PollingSession::start(resource, key, 5000, page());
    assert_eq!(first, PollAction::ArmTimer { delay_ms: 5000 });
    let tick = session.on_timer();
    assert_eq!(
        tick,
        PollAction::StartFetch { resource, key, params: page() }
    );
    session
}

#[test]
fn first_fetch_waits_one_full_interval() {
    let (session, first) = PollingSession::<String>::start(PollResource::ChatList, 0, 7500, page());
    assert_eq!(first, PollAction::ArmTimer { delay_ms: 7500 });
    assert!(session.snapshot.records.is_empty());
}

#[test]
fn success_replaces_snapshot_in_full() {
    let mut queue = NotificationQueue::new();
    let mut session = started(PollResource::ChatMessages, 5);
    session.snapshot = Snapshot { records: vec!["placeholder".to_string()], params: page() };
    let fresh = Snapshot { records: vec!["m1".to_string(), "m2".to_string()], params: page() };
    let act = session.on_fetch_settled(FetchOutcome::Success { snapshot: fresh }, &mut queue);
    assert_eq!(act, PollAction::ArmTimer { delay_ms: 5000 });
    assert_eq!(session.snapshot.records, vec!["m1".to_string(), "m2".to_string()]);
    assert_eq!(queue.render().len(), 0);
}

#[test]
fn messages_poll_replaces_placeholder_with_the_fetched_page() {
    // A messages poll on chat id 5 answers ok with one record: the view's
    // message list becomes exactly that one-element sequence.
    let mut queue = NotificationQueue::new();
    let mut session = started(PollResource::ChatMessages, 5);
    let response: Result<Response<Vec<String>>, ApiCallError> = Ok(Response {
        ok: true,
        error: None,
        data: Some(vec!["{id:1}".to_string()]),
    });
    let outcome = classify_fetch(response, page());
    session.on_fetch_settled(outcome, &mut queue);
    assert_eq!(session.snapshot.records, vec!["{id:1}".to_string()]);
    assert_eq!(queue.render().len(), 0);
}

#[test]
fn server_reported_failure_keeps_snapshot_and_reports_once() {
    let mut queue = NotificationQueue::new();
    let mut session = started(PollResource::ChatMessages, 5);
    session.snapshot = Snapshot { records: vec!["stale".to_string()], params: page() };
    let response: Result<Response<Vec<String>>, ApiCallError> = Ok(Response {
        ok: false,
        error: Some(ApiError { code: 500, message: "boom".to_string() }),
        data: None,
    });
    let outcome = classify_fetch(response, page());
    let act = session.on_fetch_settled(outcome, &mut queue);
    // The previous snapshot is byte-for-byte unchanged.
    assert_eq!(session.snapshot.records, vec!["stale".to_string()]);
    // Exactly one new notification entry appeared.
    let visible = queue.render();
    assert_eq!(visible.len(), 1);
    assert_eq!(visible[0].text, "Не удалось получить сообщения");
    assert_eq!(visible[0].style, NotificationStyle::Error);
    // The timer is re-armed, so the next tick is the retry mechanism.
    assert_eq!(act, PollAction::ArmTimer { delay_ms: 5000 });
}

#[test]
fn transport_failure_keeps_snapshot_and_reports_the_server_down_text() {
    let mut queue = NotificationQueue::new();
    let mut session = started(PollResource::ChatList, 0);
    session.snapshot = Snapshot { records: vec!["stale".to_string()], params: page() };
    let response: Result<Response<Vec<String>>, ApiCallError> =
        Err(ApiCallError { message: "connection refused".to_string() });
    let outcome = classify_fetch(response, page());
    session.on_fetch_settled(outcome, &mut queue);
    assert_eq!(session.snapshot.records, vec!["stale".to_string()]);
    let visible = queue.render();
    assert_eq!(visible.len(), 1);
    assert_eq!(visible[0].text, "Сервер не отвечает");
}

#[test]
fn list_failure_texts_follow_the_resource() {
    let mut queue = NotificationQueue::new();
    let mut chats = started(PollResource::ChatList, 0);
    chats.on_fetch_settled(FetchOutcome::<String>::ServerError { error: None }, &mut queue);
    let mut members = started(PollResource::ChatMembers, 5);
    members.on_fetch_settled(FetchOutcome::<String>::ServerError { error: None }, &mut queue);
    let mut bots = started(PollResource::BotList, 0);
    bots.on_fetch_settled(FetchOutcome::<String>::ServerError { error: None }, &mut queue);
    let visible = queue.render();
    assert_eq!(visible[0].text, "Не удалось получить список чатов");
    assert_eq!(visible[1].text, "Не удалось получить сообщения");
    assert_eq!(visible[2].text, "Не удалось получить список чатов");
}

#[test]
fn at_most_one_fetch_in_flight_per_session() {
    let mut queue = NotificationQueue::new();
    let mut session = started(PollResource::ChatMessages, 5);
    // One fetch is in flight; further ticks must not start another.
    assert_eq!(session.on_timer(), PollAction::NoAction);
    assert_eq!(session.on_timer(), PollAction::NoAction);
    // Only after the fetch settles does the re-armed timer start the next.
    session.on_fetch_settled(
        FetchOutcome::Success { snapshot: Snapshot { records: Vec::<String>::new(), params: page() } },
        &mut queue,
    );
    let tick = session.on_timer();
    assert_eq!(
        tick,
        PollAction::StartFetch { resource: PollResource::ChatMessages, key: 5, params: page() }
    );
}

#[test]
fn cancel_before_inflight_resolution_means_zero_state_mutation() {
    // A fake delayed transport: the fetch is issued, the session is canceled
    // while it is still unresolved, and only then does the result arrive.
    let mut queue = NotificationQueue::new();
    let mut session = started(PollResource::ChatMessages, 5);
    session.snapshot = Snapshot { records: vec!["kept".to_string()], params: page() };
    session.cancel();
    let late = FetchOutcome::Success {
        snapshot: Snapshot { records: vec!["late".to_string()], params: page() },
    };
    let act = session.on_fetch_settled(late, &mut queue);
    assert_eq!(act, PollAction::NoAction);
    assert_eq!(session.snapshot.records, vec!["kept".to_string()]);
    assert_eq!(queue.render().len(), 0);
    // A late failure mutates nothing either: no notification appears.
    let mut canceled_failing = started(PollResource::ChatList, 0);
    canceled_failing.cancel();
    let act = canceled_failing.on_fetch_settled(FetchOutcome::<String>::Disconnected, &mut queue);
    assert_eq!(act, PollAction::NoAction);
    assert_eq!(queue.render().len(), 0);
    // And a canceled session never re-arms or refetches.
    assert_eq!(session.on_timer(), PollAction::NoAction);
}

#[test]
fn classify_fetch_maps_the_envelope_exactly() {
    let ok: Result<Response<Vec<u8>>, ApiCallError> =
        Ok(Response { ok: true, error: None, data: Some(vec![1, 2, 3]) });
    match classify_fetch(ok, page()) {
        FetchOutcome::Success { snapshot } => {
            assert_eq!(snapshot.records, vec![1, 2, 3]);
            assert_eq!(snapshot.params.limit, 40);
        }
        _ => panic!("expected a success outcome"),
    }
    let failed: Result<Response<Vec<u8>>, ApiCallError> = Ok(Response {
        ok: false,
        error: Some(ApiError { code: 404, message: "missing".to_string() }),
        data: None,
    });
    match classify_fetch(failed, page()) {
        FetchOutcome::ServerError { error } => {
            assert_eq!(error.unwrap().code, 404);
        }
        _ => panic!("expected a server error outcome"),
    }
    let down: Result<Response<Vec<u8>>, ApiCallError> =
        Err(ApiCallError { message: "timeout".to_string() });
    assert!(matches!(classify_fetch(down, page()), FetchOutcome::Disconnected));
}

#[test]
fn reconciler_always_replaces_wholesale() {
    let mut slot = Snapshot { records: vec!["old-1".to_string(), "old-2".to_string()], params: page() };
    let fresh = Snapshot {
        records: vec!["new-1".to_string()],
        params: PageParams { limit: 10, offset: 20 },
    };
    bitum_frontend::reconcile::replace(&mut slot, fresh);
    // The result is exactly the new snapshot; nothing of the old one is kept.
    assert_eq!(slot.records, vec!["new-1".to_string()]);
    assert_eq!(slot.params.limit, 10);
    assert_eq!(slot.params.offset, 20);
}

#[test]
fn independently_keyed_sessions_settle_in_any_order() {
    // Messages and members of the same chat are independent resources: both
    // may be in flight at once, and each settles into its own snapshot.
    let mut queue = NotificationQueue::new();
    let mut messages = started(PollResource::ChatMessages, 5);
    let mut members = started(PollResource::ChatMembers, 5);
    let members_act = members.on_fetch_settled(
        FetchOutcome::Success {
            snapshot: Snapshot { records: vec!["bob".to_string()], params: page() },
        },
        &mut queue,
    );
    let messages_act = messages.on_fetch_settled(
        FetchOutcome::Success {
            snapshot: Snapshot { records: vec!["hi".to_string()], params: page() },
        },
        &mut queue,
    );
    assert_eq!(members_act, PollAction::ArmTimer { delay_ms: 5000 });
    assert_eq!(messages_act, PollAction::ArmTimer { delay_ms: 5000 });
    assert_eq!(members.snapshot.records, vec!["bob".to_string()]);
    assert_eq!(messages.snapshot.records, vec!["hi".to_string()]);
    assert_eq!(queue.render().len(), 0);
}
