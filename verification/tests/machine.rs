use engine_bridge::config::ConfigSnapshot;
use engine_bridge::machine::{
    Directive, NotifyKind, PollOutcome, SessionEnd, SpawnOutcome, Step, WorkLoop, WriteOutcome,
};
use engine_bridge::model::{
    EngineDescriptor, GoMode, ProtocolProfile, Work, WorkRequest,
};

fn ready_snapshot() -> ConfigSnapshot {
    ConfigSnapshot {
        host: Some(String::from("https://example.org")),
        token: Some(String::from("tok-1")),
        provider_secret: Some(String::from("sec-1")),
        engine_count: 1,
    }
}

fn sample_request() -> WorkRequest {
    WorkRequest {
        id: String::from("abc123"),
        work: Work {
            session_id: String::from("sess-1"),
            threads: 2,
            hash: 16,
            multi_pv: 1,
            variant: String::from("standard"),
            initial_fen: String::from("8/8/8/8/8/8/8/8 w - - 0 1"),
            moves: vec![String::from("e2e4")],
            go: GoMode::MoveTime(500),
        },
        engine: EngineDescriptor {
            id: String::from("engine-1"),
            name: String::from("example"),
            client_secret: String::from("cs"),
            user_id: String::from("u1"),
            max_threads: 8,
            max_hash: 512,
            default_depth: 25,
            variants: vec![String::from("standard")],
            provider_data: None,
        },
    }
}

fn expect_sleep(step: &Step) -> u64 {
    match step.directive {
        Directive::Sleep(secs) => secs,
        _ => panic!("expected a sleep directive"),
    }
}

#[test]
fn config_gaps_report_in_order_and_wait() {
    let mut w = WorkLoop::new(ProtocolProfile::classic());

    let empty = ConfigSnapshot { host: None, token: None, provider_secret: None, engine_count: 0 };
    let step = w.on_config(&empty);
    let n = step.notice.as_ref().unwrap();
    assert_eq!(n.kind, NotifyKind::Status);
    assert_eq!(n.message, "Waiting for login");
    assert_eq!(expect_sleep(&step), 5);

    let mut snap = ready_snapshot();
    snap.provider_secret = None;
    let step = w.on_config(&snap);
    let n = step.notice.as_ref().unwrap();
    assert_eq!(n.kind, NotifyKind::Error);
    assert_eq!(n.message, "Missing provider secret");
    assert_eq!(expect_sleep(&step), 5);

    let mut snap = ready_snapshot();
    snap.host = None;
    let step = w.on_config(&snap);
    let n = step.notice.as_ref().unwrap();
    assert_eq!(n.kind, NotifyKind::Error);
    assert_eq!(n.message, "Missing engine host setting");
    assert_eq!(expect_sleep(&step), 5);

    let mut snap = ready_snapshot();
    snap.engine_count = 0;
    let step = w.on_config(&snap);
    let n = step.notice.as_ref().unwrap();
    assert_eq!(n.kind, NotifyKind::Status);
    assert_eq!(n.message, "Waiting for engine to be added");
    assert_eq!(expect_sleep(&step), 5);
}

#[test]
fn ready_config_starts_a_poll() {
    let mut w = WorkLoop::new(ProtocolProfile::classic());
    let step = w.on_config(&ready_snapshot());
    let n = step.notice.as_ref().unwrap();
    assert_eq!(n.kind, NotifyKind::Status);
    assert_eq!(n.message, "Waiting for moves");
    match &step.directive {
        Directive::Poll { url, authorization, body } => {
            assert_eq!(url, "https://example.org/api/external-engine/work");
            assert_eq!(authorization, "Bearer tok-1");
            assert_eq!(body, "{\"providerSecret\":\"sec-1\"}");
        },
        _ => panic!("expected a poll directive"),
    }
}

#[test]
fn poll_failures_back_off_and_a_success_resets() {
    let mut w = WorkLoop::new(ProtocolProfile::classic());
    let mut delays = Vec::new();
    for _ in 0..6 {
        w.on_config(&ready_snapshot());
        let step = w.on_poll(PollOutcome::HttpFailure);
        delays.push(expect_sleep(&step));
    }
    assert_eq!(delays, vec![1, 2, 4, 8, 10, 10]);

    w.on_config(&ready_snapshot());
    let step = w.on_poll(PollOutcome::Delivered(sample_request()));
    let n = step.notice.as_ref().unwrap();
    assert_eq!(n.kind, NotifyKind::Status);
    assert_eq!(n.message, "Analyzing");
    assert_eq!(n.request.as_ref().unwrap().id, "abc123");
    match &step.directive {
        Directive::Lookup { engine_id } => assert_eq!(engine_id, "engine-1"),
        _ => panic!("expected a lookup directive"),
    }

    // The request is skipped; the next failure starts the schedule over.
    let step = w.on_lookup(None);
    assert_eq!(expect_sleep(&step), 5);
    w.on_config(&ready_snapshot());
    let step = w.on_poll(PollOutcome::HttpFailure);
    assert_eq!(expect_sleep(&step), 1);
}

#[test]
fn malformed_body_is_reported_and_keeps_backoff() {
    let mut w = WorkLoop::new(ProtocolProfile::classic());
    w.on_config(&ready_snapshot());
    w.on_poll(PollOutcome::HttpFailure);
    w.on_config(&ready_snapshot());
    let step = w.on_poll(PollOutcome::MalformedBody);
    let n = step.notice.as_ref().unwrap();
    assert_eq!(n.kind, NotifyKind::Error);
    assert_eq!(n.message, "Malformed work response");
    assert!(matches!(step.directive, Directive::FetchConfig));
    // One failure had doubled the delay to 2; the malformed body left it alone.
    w.on_config(&ready_snapshot());
    let step = w.on_poll(PollOutcome::HttpFailure);
    assert_eq!(expect_sleep(&step), 2);
}

#[test]
fn unknown_engine_id_skips_the_request_and_repolls() {
    let mut w = WorkLoop::new(ProtocolProfile::classic());
    w.on_config(&ready_snapshot());
    w.on_poll(PollOutcome::Delivered(sample_request()));
    let step = w.on_lookup(None);
    let n = step.notice.as_ref().unwrap();
    assert_eq!(n.kind, NotifyKind::Error);
    assert_eq!(n.message, "Missing binary filepath");
    assert_eq!(expect_sleep(&step), 5);
    // The loop polls again as if nothing had happened.
    let step = w.on_config(&ready_snapshot());
    assert!(matches!(step.directive, Directive::Poll { .. }));
}

#[test]
fn spawn_failure_reports_the_attempted_path() {
    let mut w = WorkLoop::new(ProtocolProfile::classic());
    w.on_config(&ready_snapshot());
    w.on_poll(PollOutcome::Delivered(sample_request()));
    let step = w.on_lookup(Some(String::from("/engines/example")));
    match &step.directive {
        Directive::Spawn { binary_path } => assert_eq!(binary_path, "/engines/example"),
        _ => panic!("expected a spawn directive"),
    }
    let step = w.on_spawn(SpawnOutcome::Failed(String::from("no such file")));
    let n = step.notice.as_ref().unwrap();
    assert_eq!(n.kind, NotifyKind::Error);
    assert_eq!(n.message, "Failed to start engine: no such file for /engines/example");
    assert_eq!(expect_sleep(&step), 5);
}

#[test]
fn full_session_walkthrough() {
    let mut w = WorkLoop::new(ProtocolProfile::classic());
    w.on_config(&ready_snapshot());
    w.on_poll(PollOutcome::Delivered(sample_request()));
    w.on_lookup(Some(String::from("/engines/example")));

    let step = w.on_spawn(SpawnOutcome::Started);
    let commands = match step.directive {
        Directive::Configure { commands } => commands,
        _ => panic!("expected a configure directive"),
    };
    assert_eq!(
        commands,
        vec![
            String::from("setoption name UCI_AnalyseMode value true"),
            String::from("setoption name UCI_Chess960 value true"),
            String::from("setoption name Threads value 2"),
            String::from("setoption name Hash value 16"),
            String::from("setoption name MultiPV value 1"),
            String::from("position fen 8/8/8/8/8/8/8/8 w - - 0 1 moves e2e4"),
            String::from("go movetime 500"),
        ]
    );

    let step = w.on_configured(WriteOutcome::Written);
    match &step.directive {
        Directive::StreamAndRead { url, authorization } => {
            assert_eq!(url, "https://example.org/api/external-engine/work/abc123");
            assert_eq!(authorization, "Bearer tok-1");
        },
        _ => panic!("expected a stream directive"),
    }

    let line = w.on_line("info depth 1 score cp 10");
    assert_eq!(line.decision.forward, Some(String::from("info depth 1 score cp 10\n")));
    assert!(!line.decision.stop);
    let n = line.notice.as_ref().unwrap();
    assert_eq!(n.kind, NotifyKind::Progress);
    assert_eq!(n.message, "info depth 1 score cp 10");

    let line = w.on_line("bestmove e2e4");
    assert_eq!(line.decision.forward, None);
    assert!(line.decision.stop);

    let step = w.on_session_end(SessionEnd::BestMoveSeen);
    let n = step.notice.as_ref().unwrap();
    assert_eq!(n.kind, NotifyKind::Status);
    assert_eq!(n.message, "Best move found");
    assert!(matches!(step.directive, Directive::FetchConfig));

    // The loop is ready for the next iteration.
    let step = w.on_config(&ready_snapshot());
    assert!(matches!(step.directive, Directive::Poll { .. }));
}

#[test]
fn send_failure_drains_without_forwarding() {
    let mut w = WorkLoop::new(ProtocolProfile::classic());
    w.on_config(&ready_snapshot());
    w.on_poll(PollOutcome::Delivered(sample_request()));
    w.on_lookup(Some(String::from("/engines/example")));
    w.on_spawn(SpawnOutcome::Started);
    w.on_configured(WriteOutcome::Written);

    let line = w.on_line("info depth 1 score cp 10");
    assert!(line.decision.forward.is_some());
    w.on_send_failed();
    let line = w.on_line("info depth 2 score cp 12");
    assert_eq!(line.decision.forward, None);
    assert!(!line.decision.stop);
    let line = w.on_line("bestmove e2e4");
    assert!(line.decision.stop);
}

#[test]
fn write_failure_aborts_the_session_and_resumes_polling() {
    let mut w = WorkLoop::new(ProtocolProfile::classic());
    w.on_config(&ready_snapshot());
    w.on_poll(PollOutcome::Delivered(sample_request()));
    w.on_lookup(Some(String::from("/engines/example")));
    w.on_spawn(SpawnOutcome::Started);
    let step = w.on_configured(WriteOutcome::Failed(String::from("broken pipe")));
    let n = step.notice.as_ref().unwrap();
    assert_eq!(n.kind, NotifyKind::Error);
    assert_eq!(n.message, "Engine write failed: broken pipe");
    assert!(matches!(step.directive, Directive::FetchConfig));
    let step = w.on_config(&ready_snapshot());
    assert!(matches!(step.directive, Directive::Poll { .. }));
}

#[test]
fn read_failure_is_reported_and_never_fatal() {
    let mut w = WorkLoop::new(ProtocolProfile::classic());
    w.on_config(&ready_snapshot());
    w.on_poll(PollOutcome::Delivered(sample_request()));
    w.on_lookup(Some(String::from("/engines/example")));
    w.on_spawn(SpawnOutcome::Started);
    w.on_configured(WriteOutcome::Written);
    let step = w.on_session_end(SessionEnd::ReadFailed(String::from("broken pipe")));
    let n = step.notice.as_ref().unwrap();
    assert_eq!(n.kind, NotifyKind::Error);
    assert_eq!(n.message, "Engine read failed: broken pipe");
    assert!(matches!(step.directive, Directive::FetchConfig));
    let step = w.on_config(&ready_snapshot());
    assert!(matches!(step.directive, Directive::Poll { .. }));
}

#[test]
fn stdout_eof_ends_the_session_quietly() {
    let mut w = WorkLoop::new(ProtocolProfile::classic());
    w.on_config(&ready_snapshot());
    w.on_poll(PollOutcome::Delivered(sample_request()));
    w.on_lookup(Some(String::from("/engines/example")));
    w.on_spawn(SpawnOutcome::Started);
    w.on_configured(WriteOutcome::Written);
    let step = w.on_session_end(SessionEnd::StdoutClosed);
    assert!(step.notice.is_none());
    assert!(matches!(step.directive, Directive::FetchConfig));
}
