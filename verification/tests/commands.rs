use engine_bridge::commands::engine_commands;
use engine_bridge::model::{
    EngineDescriptor, GoMode, ProtocolProfile, Work, WorkRequest,
};

const START_FEN: &str = "rnbqkbnr/pppppppp/8/8/8/8/PPPPPPPP/RNBQKBNR w KQkq - 0 1";

fn sample_request(go: GoMode) -> WorkRequest {
    WorkRequest {
        id: String::from("abc123"),
        work: Work {
            session_id: String::from("sess-1"),
            threads: 4,
            hash: 128,
            multi_pv: 1,
            variant: String::from("chess960"),
            initial_fen: String::from(START_FEN),
            moves: vec![String::from("e2e4"), String::from("e7e5")],
            go,
        },
        engine: EngineDescriptor {
            id: String::from("engine-1"),
            name: String::from("example"),
            client_secret: String::from("cs"),
            user_id: String::from("u1"),
            max_threads: 8,
            max_hash: 1024,
            default_depth: 25,
            variants: vec![String::from("standard")],
            provider_data: None,
        },
    }
}

#[test]
fn commands_exact_order_and_text() {
    let req = sample_request(GoMode::MoveTime(500));
    let cmds = engine_commands(&req, ProtocolProfile::classic());
    let expected = vec![
        String::from("setoption name UCI_AnalyseMode value true"),
        String::from("setoption name UCI_Chess960 value true"),
        String::from("setoption name Threads value 4"),
        String::from("setoption name Hash value 128"),
        String::from("setoption name MultiPV value 1"),
        format!("position fen {} moves e2e4 e7e5", START_FEN),
        String::from("go movetime 500"),
    ];
    assert_eq!(cmds, expected);
}

#[test]
fn commands_movetime_ends_with_go_movetime() {
    let req = sample_request(GoMode::MoveTime(500));
    let cmds = engine_commands(&req, ProtocolProfile::classic());
    assert_eq!(cmds.last().unwrap(), "go movetime 500");
}

#[test]
fn commands_infinite_ends_with_go_infinite() {
    let req = sample_request(GoMode::Infinite);
    let cmds = engine_commands(&req, ProtocolProfile::classic());
    assert_eq!(cmds.last().unwrap(), "go infinite");
}

#[test]
fn commands_default_ends_with_go_depth() {
    let req = sample_request(GoMode::DefaultDepth);
    let cmds = engine_commands(&req, ProtocolProfile::classic());
    assert_eq!(cmds.last().unwrap(), "go depth 25");
}

#[test]
fn commands_variant_profile_adds_sixth_option() {
    let req = sample_request(GoMode::Infinite);
    let profile = ProtocolProfile { send_variant: true, forward_bestmove: false };
    let cmds = engine_commands(&req, profile);
    assert_eq!(cmds.len(), 8);
    assert_eq!(cmds[5], "setoption name Variant value chess960");
    assert_eq!(cmds[6], format!("position fen {} moves e2e4 e7e5", START_FEN));
    assert_eq!(cmds[7], "go infinite");
}

#[test]
fn commands_empty_moves_keep_moves_keyword() {
    let mut req = sample_request(GoMode::Infinite);
    req.work.moves = Vec::new();
    let cmds = engine_commands(&req, ProtocolProfile::classic());
    assert_eq!(cmds[5], format!("position fen {} moves ", START_FEN));
}

#[test]
fn commands_identical_requests_give_identical_bytes() {
    let a = engine_commands(&sample_request(GoMode::MoveTime(500)), ProtocolProfile::classic());
    let b = engine_commands(&sample_request(GoMode::MoveTime(500)), ProtocolProfile::classic());
    assert_eq!(a, b);
}

#[test]
fn commands_large_numbers_render_in_decimal() {
    let mut req = sample_request(GoMode::MoveTime(4294967295));
    req.work.threads = 0;
    req.work.hash = 4096;
    req.work.multi_pv = 500;
    let cmds = engine_commands(&req, ProtocolProfile::classic());
    assert_eq!(cmds[2], "setoption name Threads value 0");
    assert_eq!(cmds[3], "setoption name Hash value 4096");
    assert_eq!(cmds[4], "setoption name MultiPV value 500");
    assert_eq!(cmds[6], "go movetime 4294967295");
}

#[test]
fn request_snapshot_is_equal_content() {
    let req = sample_request(GoMode::MoveTime(500));
    let copy = req.snapshot();
    assert_eq!(copy.id, req.id);
    assert_eq!(copy.work.moves, req.work.moves);
    assert_eq!(copy.engine.id, req.engine.id);
    let a = engine_commands(&req, ProtocolProfile::classic());
    let b = engine_commands(&copy, ProtocolProfile::classic());
    assert_eq!(a, b);
}
