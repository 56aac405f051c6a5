use engine_bridge::model::ProtocolProfile;
use engine_bridge::streamer::{classify_line, run_reader_session, LineClass, ReaderState};

fn transcript() -> Vec<String> {
    vec![
        String::from("info depth 1 score cp 10"),
        String::from("info depth 2 score cp 12"),
        String::from("bestmove e2e4"),
    ]
}

#[test]
fn session_forwards_info_lines_and_stops_on_bestmove() {
    let out = run_reader_session(&transcript(), 100, ProtocolProfile::classic());
    assert_eq!(
        out.forwarded,
        vec![
            String::from("info depth 1 score cp 10\n"),
            String::from("info depth 2 score cp 12\n"),
        ]
    );
    assert_eq!(out.lines_read, 3);
}

#[test]
fn session_closed_consumer_still_reads_to_bestmove() {
    let out = run_reader_session(&transcript(), 1, ProtocolProfile::classic());
    assert_eq!(out.forwarded, vec![String::from("info depth 1 score cp 10\n")]);
    assert_eq!(out.lines_read, 3);
}

#[test]
fn session_ignores_other_lines() {
    let lines = vec![
        String::from("id name example"),
        String::from("readyok"),
        String::from("info depth 1 score cp 3"),
        String::from("bestmove d2d4"),
    ];
    let out = run_reader_session(&lines, 100, ProtocolProfile::classic());
    assert_eq!(out.forwarded, vec![String::from("info depth 1 score cp 3\n")]);
    assert_eq!(out.lines_read, 4);
}

#[test]
fn session_without_bestmove_reads_everything() {
    let lines = vec![String::from("info a"), String::from("info b")];
    let out = run_reader_session(&lines, 100, ProtocolProfile::classic());
    assert_eq!(out.forwarded, vec![String::from("info a\n"), String::from("info b\n")]);
    assert_eq!(out.lines_read, 2);
}

#[test]
fn session_forward_bestmove_profile_sends_it() {
    let profile = ProtocolProfile { send_variant: false, forward_bestmove: true };
    let out = run_reader_session(&transcript(), 100, profile);
    assert_eq!(
        out.forwarded,
        vec![
            String::from("info depth 1 score cp 10\n"),
            String::from("info depth 2 score cp 12\n"),
            String::from("bestmove e2e4\n"),
        ]
    );
    assert_eq!(out.lines_read, 3);
}

#[test]
fn reader_state_send_failure_stops_forwarding_only() {
    let profile = ProtocolProfile::classic();
    let mut reader = ReaderState::new();

    let d1 = reader.on_line("info depth 1 score cp 10", profile);
    assert_eq!(d1.forward, Some(String::from("info depth 1 score cp 10\n")));
    assert!(!d1.stop);

    // The consumer goes away after the first line.
    reader.on_send_failed();

    let d2 = reader.on_line("info depth 2 score cp 12", profile);
    assert_eq!(d2.forward, None);
    assert!(!d2.stop);

    let d3 = reader.on_line("bestmove e2e4", profile);
    assert_eq!(d3.forward, None);
    assert!(d3.stop);
}

#[test]
fn classify_line_by_prefix() {
    assert_eq!(classify_line("info depth 1"), LineClass::Info);
    assert_eq!(classify_line("informative"), LineClass::Info);
    assert_eq!(classify_line("bestmove e2e4"), LineClass::BestMove);
    assert_eq!(classify_line("bestmove"), LineClass::BestMove);
    assert_eq!(classify_line("readyok"), LineClass::Other);
    assert_eq!(classify_line(""), LineClass::Other);
    assert_eq!(classify_line("inf"), LineClass::Other);
}
