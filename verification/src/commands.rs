//! Translation of one analysis request into the line commands that drive
//! the engine subprocess.
//!
//! The dialogue is fixed: two `setoption` lines enabling analysis mode and
//! Chess960 support, three `setoption` lines carrying the request's thread,
//! hash and multi-PV numbers, optionally a `setoption` line carrying the
//! variant (profile-dependent), then the `position` line and finally the
//! `go` line chosen by the request's mode.

use vstd::prelude::*;

use crate::model::{
    EngineDescriptorView, GoMode, ProtocolProfile, WorkRequest, WorkRequestView, WorkView,
};
use crate::strutil::{decimal_digits, join_spaces, join_with_spaces, u32_to_decimal};

verus! {

pub open spec fn analyse_mode_cmd() -> Seq<char> {
    "setoption name UCI_AnalyseMode value true"@
}

pub open spec fn chess960_cmd() -> Seq<char> {
    "setoption name UCI_Chess960 value true"@
}

pub open spec fn threads_cmd(threads: u32) -> Seq<char> {
    "setoption name Threads value "@ + decimal_digits(threads as nat)
}

pub open spec fn hash_cmd(hash: u32) -> Seq<char> {
    "setoption name Hash value "@ + decimal_digits(hash as nat)
}

pub open spec fn multi_pv_cmd(multi_pv: u32) -> Seq<char> {
    "setoption name MultiPV value "@ + decimal_digits(multi_pv as nat)
}

pub open spec fn variant_cmd(variant: Seq<char>) -> Seq<char> {
    "setoption name Variant value "@ + variant
}

/// The `position` line: the initial position and the moves played after it,
/// joined with single spaces; the `moves` keyword stands even for an empty
/// move list.
pub open spec fn position_cmd(fen: Seq<char>, moves: Seq<Seq<char>>) -> Seq<char> {
    "position fen "@ + fen + " moves "@ + join_spaces(moves)
}

/// The `go` line selected by the request's mode: a fixed time in
/// milliseconds, an open-ended search, or the engine's default depth.
pub open spec fn go_cmd(go: GoMode, default_depth: u32) -> Seq<char> {
    match go {
        GoMode::MoveTime(ms) => "go movetime "@ + decimal_digits(ms as nat),
        GoMode::Infinite => "go infinite"@,
        GoMode::DefaultDepth => "go depth "@ + decimal_digits(default_depth as nat),
    }
}

/// The whole dialogue for one request, in emission order.
pub open spec fn command_seq(w: WorkView, e: EngineDescriptorView, p: ProtocolProfile) -> Seq<
    Seq<char>,
> {
    let options = seq![
        analyse_mode_cmd(),
        chess960_cmd(),
        threads_cmd(w.threads),
        hash_cmd(w.hash),
        multi_pv_cmd(w.multi_pv),
    ];
    let options = if p.send_variant {
        options.push(variant_cmd(w.variant))
    } else {
        options
    };
    options + seq![position_cmd(w.initial_fen, w.moves), go_cmd(w.go, e.default_depth)]
}

/// Builds the engine dialogue for `req`, one command per element, in the
/// exact order and with the exact text that [`command_seq`] states.
pub fn engine_commands(req: &WorkRequest, profile: ProtocolProfile) -> (cmds: Vec<String>)
    ensures
        cmds.deep_view() == command_seq(req.work@, req.engine@, profile),
{
    let mut cmds: Vec<String> = Vec::new();
    cmds.push(String::from_str("setoption name UCI_AnalyseMode value true"));
    cmds.push(String::from_str("setoption name UCI_Chess960 value true"));

    let mut threads_line = String::from_str("setoption name Threads value ");
    threads_line.append(u32_to_decimal(req.work.threads).as_str());
    cmds.push(threads_line);

    let mut hash_line = String::from_str("setoption name Hash value ");
    hash_line.append(u32_to_decimal(req.work.hash).as_str());
    cmds.push(hash_line);

    let mut multi_pv_line = String::from_str("setoption name MultiPV value ");
    multi_pv_line.append(u32_to_decimal(req.work.multi_pv).as_str());
    cmds.push(multi_pv_line);

    if profile.send_variant {
        let mut variant_line = String::from_str("setoption name Variant value ");
        variant_line.append(req.work.variant.as_str());
        cmds.push(variant_line);
    }

    let mut position_line = String::from_str("position fen ");
    position_line.append(req.work.initial_fen.as_str());
    position_line.append(" moves ");
    position_line.append(join_with_spaces(&req.work.moves).as_str());
    cmds.push(position_line);

    let go_line = match req.work.go {
        GoMode::MoveTime(ms) => {
            let mut line = String::from_str("go movetime ");
            line.append(u32_to_decimal(ms).as_str());
            line
        },
        GoMode::Infinite => String::from_str("go infinite"),
        GoMode::DefaultDepth => {
            let mut line = String::from_str("go depth ");
            line.append(u32_to_decimal(req.engine.default_depth).as_str());
            line
        },
    };
    cmds.push(go_line);

    proof {
        assert(cmds.deep_view() =~~= command_seq(req.work@, req.engine@, profile));
    }
    cmds
}

/// Law: the dialogue always ends with the `go` line that the request's mode
/// selects — `go movetime {t}` for a fixed analysis time, `go infinite` for
/// an open-ended analysis, and otherwise `go depth {d}` with the engine's
/// default depth.
pub proof fn lemma_go_command_last(w: WorkView, e: EngineDescriptorView, p: ProtocolProfile)
    ensures
        command_seq(w, e, p).last() == go_cmd(w.go, e.default_depth),
{
}

/// Law: whatever the option values, the configuration commands stand in one
/// fixed order — analysis mode, Chess960, threads, hash, multi-PV, then the
/// variant line exactly when the profile asks for it, then the position and
/// the `go` line.
pub proof fn lemma_command_order(w: WorkView, e: EngineDescriptorView, p: ProtocolProfile)
    ensures
        command_seq(w, e, p).len() == if p.send_variant {
            8int
        } else {
            7int
        },
        command_seq(w, e, p)[0] == analyse_mode_cmd(),
        command_seq(w, e, p)[1] == chess960_cmd(),
        command_seq(w, e, p)[2] == threads_cmd(w.threads),
        command_seq(w, e, p)[3] == hash_cmd(w.hash),
        command_seq(w, e, p)[4] == multi_pv_cmd(w.multi_pv),
        p.send_variant ==> command_seq(w, e, p)[5] == variant_cmd(w.variant),
        command_seq(w, e, p)[command_seq(w, e, p).len() - 2] == position_cmd(
            w.initial_fen,
            w.moves,
        ),
        command_seq(w, e, p)[command_seq(w, e, p).len() - 1] == go_cmd(w.go, e.default_depth),
{
}

/// Law: the dialogue is a function of the request content and the profile
/// alone. Two requests with identical content under the same profile yield
/// the same command sequence — so running the pipeline twice over one
/// request emits byte-identical commands both times.
pub proof fn lemma_commands_deterministic(
    a: WorkRequestView,
    b: WorkRequestView,
    p: ProtocolProfile,
)
    requires
        a == b,
    ensures
        command_seq(a.work, a.engine, p) == command_seq(b.work, b.engine, p),
{
}

} // verus!
