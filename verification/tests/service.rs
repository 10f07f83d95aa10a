use studio_coord::messages::Message;
use studio_coord::messages::OutputLevel;
use studio_coord::messages::RobloxEvent;
use studio_coord::messages::RobloxMessage;
use studio_coord::messages::StartMessage;
use studio_coord::messages::StopMessage;
use studio_coord::messages::SvcError;
use studio_coord::bus::PublishOutcome;
use studio_coord::service::Svc;

fn run_script(script: &str, oneshot: bool) -> RobloxEvent {
    RobloxEvent::RunScript { script: script.to_string(), oneshot }
}

#[test]
fn heartbeat_within_ttl_keeps_instance_live() {
    let mut svc = Svc::new();
    let id = "A".to_string();
    assert_eq!(svc.create_server(id.clone()), Some(0));
    // Six beats, each within the window: the instance must survive them all,
    // and every timer armed before the latest beat must be a no-op.
    for beat in 0..6u64 {
        assert_eq!(svc.heartbeat(&id), Ok(beat + 1));
        assert!(svc.contains(&id));
        // The timer armed before this beat is superseded: firing it evicts
        // nothing.
        assert_eq!(svc.timer_fire(&id, beat), Ok(false));
        assert!(svc.contains(&id));
    }
    // No eviction happened, so no stop notice was published.
    assert_eq!(svc.recv(), None);
}

#[test]
fn eviction_after_ttl_publishes_exactly_one_stop() {
    let mut svc = Svc::new();
    let id = "A".to_string();
    assert_eq!(svc.create_server(id.clone()), Some(0));
    // No heartbeat arrives: the timer armed at creation still matches.
    assert_eq!(svc.timer_fire(&id, 0), Ok(true));
    assert!(!svc.contains(&id));
    assert_eq!(svc.recv(), Some(Message::Stop { server: "A".to_string() }));
    assert_eq!(svc.recv(), None);
}

#[test]
fn enqueue_on_unknown_id_creates_instance() {
    let mut svc = Svc::new();
    let id = "X".to_string();
    assert!(!svc.contains(&id));
    assert_eq!(svc.queue_event(id.clone(), run_script("a", false)), Some(0));
    assert!(svc.contains(&id));
    assert_eq!(svc.drain(&id), Ok(vec![run_script("a", false)]));
}

#[test]
fn drain_is_read_and_clear() {
    let mut svc = Svc::new();
    let id = "B".to_string();
    assert_eq!(svc.create_server(id.clone()), Some(0));
    assert_eq!(svc.queue_event(id.clone(), run_script("first", false)), None);
    assert_eq!(svc.queue_event(id.clone(), run_script("second", true)), None);
    assert_eq!(
        svc.drain(&id),
        Ok(vec![run_script("first", false), run_script("second", true)])
    );
    // Nothing was enqueued in between: the second drain must be empty.
    assert_eq!(svc.drain(&id), Ok(vec![]));
}

#[test]
fn all_enqueues_reflected_exactly_once() {
    let mut svc = Svc::new();
    let id = "N".to_string();
    let n = 5usize;
    for k in 0..n {
        svc.queue_event(id.clone(), run_script(&format!("job{}", k), false));
    }
    let drained = svc.drain(&id).unwrap();
    assert_eq!(drained.len(), n);
    for k in 0..n {
        let expected = run_script(&format!("job{}", k), false);
        assert_eq!(
            drained.iter().filter(|e| **e == expected).count(),
            1,
            "event {} must appear exactly once",
            k
        );
    }
}

#[test]
fn ping_on_known_id_refreshes_liveness() {
    let mut svc = Svc::new();
    assert_eq!(svc.create_server("A".to_string()), Some(0));
    assert_eq!(svc.ping(Some("A".to_string())), Ok(1));
    assert_eq!(svc.ping(Some("A".to_string())), Ok(2));
    assert!(svc.contains(&"A".to_string()));
}

#[test]
fn events_endpoint_drains_and_clears() {
    let mut svc = Svc::new();
    assert_eq!(
        svc.queue_event("A".to_string(), RobloxEvent::Deregister { no_exit: true }),
        Some(0)
    );
    assert_eq!(
        svc.events_handler(Some("A".to_string())),
        Ok(vec![RobloxEvent::Deregister { no_exit: true }])
    );
    assert_eq!(svc.events_handler(Some("A".to_string())), Ok(vec![]));
}

#[test]
fn heartbeat_on_unknown_id_fails() {
    let mut svc = Svc::new();
    assert_eq!(svc.heartbeat(&"ghost".to_string()), Err(SvcError::UnknownInstance));
}

#[test]
fn drain_on_unknown_id_fails() {
    let mut svc = Svc::new();
    assert_eq!(svc.drain(&"ghost".to_string()), Err(SvcError::UnknownInstance));
    // Unlike drain, enqueue auto-creates: afterwards the drain succeeds.
    svc.queue_event("ghost".to_string(), run_script("a", true));
    assert_eq!(svc.drain(&"ghost".to_string()), Ok(vec![run_script("a", true)]));
}

#[test]
fn missing_parameter_is_a_distinct_error() {
    let mut svc = Svc::new();
    assert_eq!(svc.ping(None), Err(SvcError::MissingParameter));
    assert_eq!(svc.events_handler(None), Err(SvcError::MissingParameter));
    // With the parameter present the unknown id keeps its own error.
    assert_eq!(svc.ping(Some("ghost".to_string())), Err(SvcError::UnknownInstance));
    assert_eq!(
        svc.events_handler(Some("ghost".to_string())),
        Err(SvcError::UnknownInstance)
    );
}

#[test]
fn bus_backpressure_suspends_at_capacity_and_resumes_in_order() {
    let mut svc = Svc::new();
    // Fill every slot while the consumer never drains.
    for k in 0..100u32 {
        let r = svc.stop_handler(StopMessage { server: k.to_string() });
        assert_eq!(r, Ok(PublishOutcome::Delivered));
    }
    // The 101st publish must suspend its producer, not fail and not drop.
    let r = svc.stop_handler(StopMessage { server: "100".to_string() });
    assert_eq!(r, Ok(PublishOutcome::Suspended));
    // One drain frees a slot: the suspended publish completes, and all 101
    // messages come out in publish order.
    for k in 0..101u32 {
        assert_eq!(svc.recv(), Some(Message::Stop { server: k.to_string() }));
    }
    assert_eq!(svc.recv(), None);
}

#[test]
fn heartbeat_just_before_ttl_prevents_eviction() {
    let mut svc = Svc::new();
    let id = "A".to_string();
    assert_eq!(svc.create_server(id.clone()), Some(0));
    // The heartbeat lands just before the timer armed at creation fires.
    assert_eq!(svc.heartbeat(&id), Ok(1));
    // The old timer fires a moment later: it lost the race and must not
    // evict, and no stop notice appears.
    assert_eq!(svc.timer_fire(&id, 0), Ok(false));
    assert!(svc.contains(&id));
    assert_eq!(svc.recv(), None);
    // A full window then elapses without another heartbeat: now the fresh
    // timer evicts.
    assert_eq!(svc.timer_fire(&id, 1), Ok(true));
    assert!(!svc.contains(&id));
    assert_eq!(svc.recv(), Some(Message::Stop { server: "A".to_string() }));
}

#[test]
fn start_handler_registers_and_announces() {
    let mut svc = Svc::new();
    let r = svc.start_handler(StartMessage { server: "S".to_string() });
    assert_eq!(r, Ok((Some(0), PublishOutcome::Delivered)));
    assert!(svc.contains(&"S".to_string()));
    assert_eq!(svc.recv(), Some(Message::Start { server: "S".to_string() }));
    // Registering the same id again is an idempotent lookup: no second
    // instance and no fresh timer, but the start is announced again.
    let r = svc.start_handler(StartMessage { server: "S".to_string() });
    assert_eq!(r, Ok((None, PublishOutcome::Delivered)));
    assert_eq!(svc.recv(), Some(Message::Start { server: "S".to_string() }));
}

#[test]
fn stop_handler_announces_without_touching_registry() {
    let mut svc = Svc::new();
    assert_eq!(svc.create_server("A".to_string()), Some(0));
    let r = svc.stop_handler(StopMessage { server: "A".to_string() });
    assert_eq!(r, Ok(PublishOutcome::Delivered));
    // The explicit stop only notifies; the instance stays until its timer
    // evicts it.
    assert!(svc.contains(&"A".to_string()));
    assert_eq!(svc.recv(), Some(Message::Stop { server: "A".to_string() }));
}

#[test]
fn messages_handler_delivers_telemetry_batch() {
    let mut svc = Svc::new();
    let batch = vec![
        RobloxMessage::Output {
            level: OutputLevel::Info,
            body: "ready".to_string(),
            server: "A".to_string(),
        },
        RobloxMessage::Output {
            level: OutputLevel::ScriptError,
            body: "boom".to_string(),
            server: "A".to_string(),
        },
    ];
    let r = svc.messages_handler(batch.clone());
    assert_eq!(r, Ok(PublishOutcome::Delivered));
    assert_eq!(svc.recv(), Some(Message::Messages(batch)));
}

#[test]
fn bus_keeps_publish_order_across_message_kinds() {
    let mut svc = Svc::new();
    svc.start_handler(StartMessage { server: "A".to_string() }).unwrap();
    svc.messages_handler(vec![RobloxMessage::Output {
        level: OutputLevel::Print,
        body: "hi".to_string(),
        server: "A".to_string(),
    }])
    .unwrap();
    svc.stop_handler(StopMessage { server: "A".to_string() }).unwrap();
    assert!(matches!(svc.recv(), Some(Message::Start { .. })));
    assert!(matches!(svc.recv(), Some(Message::Messages(_))));
    assert!(matches!(svc.recv(), Some(Message::Stop { .. })));
    assert_eq!(svc.recv(), None);
}

#[test]
fn closed_bus_surfaces_dispatch_failure() {
    let mut svc = Svc::new();
    assert_eq!(svc.create_server("A".to_string()), Some(0));
    svc.close_bus();
    assert_eq!(
        svc.stop_handler(StopMessage { server: "A".to_string() }),
        Err(SvcError::DispatchFailure)
    );
    assert_eq!(
        svc.messages_handler(vec![]),
        Err(SvcError::DispatchFailure)
    );
    // Registration still happens before the announcement fails.
    assert_eq!(
        svc.start_handler(StartMessage { server: "B".to_string() }),
        Err(SvcError::DispatchFailure)
    );
    assert!(svc.contains(&"B".to_string()));
    // A timer that cannot publish its stop notice does not evict.
    assert_eq!(svc.timer_fire(&"A".to_string(), 0), Err(SvcError::DispatchFailure));
    assert!(svc.contains(&"A".to_string()));
}

#[test]
fn status_reports_running() {
    let svc = Svc::new();
    assert!(svc.status_handler().run);
}

#[test]
fn stop_records_shutdown_request() {
    let mut svc = Svc::new();
    assert!(svc.running);
    svc.stop();
    assert!(!svc.running);
}
