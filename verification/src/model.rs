//! The data handed around by the work loop: one analysis request as the
//! remote service describes it, and the protocol profile that selects the
//! optional parts of the engine dialogue.

use vstd::prelude::*;

verus! {

/// How the `go` command of an analysis request is chosen: a fixed analysis
/// time in milliseconds, an open-ended analysis, or the engine's default
/// search depth.
#[derive(Clone, Copy, PartialEq, Eq, Structural, Debug)]
pub enum GoMode {
    MoveTime(u32),
    Infinite,
    DefaultDepth,
}

/// The position to analyse and the engine options to apply, as one work
/// item of the remote service describes them.
pub struct Work {
    pub session_id: String,
    pub threads: u32,
    pub hash: u32,
    pub multi_pv: u32,
    pub variant: String,
    pub initial_fen: String,
    /// Moves played after `initial_fen`, oldest first; may be empty.
    pub moves: Vec<String>,
    pub go: GoMode,
}

/// Mathematical image of a [`Work`] value.
pub struct WorkView {
    pub session_id: Seq<char>,
    pub threads: u32,
    pub hash: u32,
    pub multi_pv: u32,
    pub variant: Seq<char>,
    pub initial_fen: Seq<char>,
    pub moves: Seq<Seq<char>>,
    pub go: GoMode,
}

impl View for Work {
    type V = WorkView;

    open spec fn view(&self) -> WorkView {
        WorkView {
            session_id: self.session_id@,
            threads: self.threads,
            hash: self.hash,
            multi_pv: self.multi_pv,
            variant: self.variant@,
            initial_fen: self.initial_fen@,
            moves: self.moves.deep_view(),
            go: self.go,
        }
    }
}

impl Work {
    /// A field-for-field copy.
    pub fn snapshot(&self) -> (r: Self)
        ensures
            r@ == self@,
    {
        let mut moves: Vec<String> = Vec::new();
        let mut i: usize = 0;
        while i < self.moves.len()
            invariant
                i <= self.moves.len(),
                moves@ =~= self.moves@.take(i as int),
            decreases self.moves.len() - i,
        {
            moves.push(self.moves[i].clone());
            proof {
                assert(moves@ =~= self.moves@.take(i + 1));
            }
            i = i + 1;
        }
        proof {
            assert(moves@ =~= self.moves@);
            assert(moves.deep_view() =~= self.moves.deep_view());
        }
        Work {
            session_id: self.session_id.clone(),
            threads: self.threads,
            hash: self.hash,
            multi_pv: self.multi_pv,
            variant: self.variant.clone(),
            initial_fen: self.initial_fen.clone(),
            moves,
            go: self.go,
        }
    }
}

/// What the remote service says about the engine that is to perform the
/// work. The secrets (`client_secret`, `user_id`) are opaque pass-through
/// fields; the core never interprets them.
pub struct EngineDescriptor {
    pub id: String,
    pub name: String,
    pub client_secret: String,
    pub user_id: String,
    pub max_threads: u32,
    pub max_hash: u32,
    pub default_depth: u32,
    pub variants: Vec<String>,
    pub provider_data: Option<String>,
}

/// Mathematical image of an [`EngineDescriptor`] value.
pub struct EngineDescriptorView {
    pub id: Seq<char>,
    pub name: Seq<char>,
    pub client_secret: Seq<char>,
    pub user_id: Seq<char>,
    pub max_threads: u32,
    pub max_hash: u32,
    pub default_depth: u32,
    pub variants: Seq<Seq<char>>,
    pub provider_data: Option<Seq<char>>,
}

impl View for EngineDescriptor {
    type V = EngineDescriptorView;

    open spec fn view(&self) -> EngineDescriptorView {
        EngineDescriptorView {
            id: self.id@,
            name: self.name@,
            client_secret: self.client_secret@,
            user_id: self.user_id@,
            max_threads: self.max_threads,
            max_hash: self.max_hash,
            default_depth: self.default_depth,
            variants: self.variants.deep_view(),
            provider_data: self.provider_data.deep_view(),
        }
    }
}

impl EngineDescriptor {
    /// A field-for-field copy.
    pub fn snapshot(&self) -> (r: Self)
        ensures
            r@ == self@,
    {
        let mut variants: Vec<String> = Vec::new();
        let mut i: usize = 0;
        while i < self.variants.len()
            invariant
                i <= self.variants.len(),
                variants@ =~= self.variants@.take(i as int),
            decreases self.variants.len() - i,
        {
            variants.push(self.variants[i].clone());
            proof {
                assert(variants@ =~= self.variants@.take(i + 1));
            }
            i = i + 1;
        }
        proof {
            assert(variants@ =~= self.variants@);
            assert(variants.deep_view() =~= self.variants.deep_view());
        }
        let provider_data = match &self.provider_data {
            Some(s) => Some(s.clone()),
            None => None,
        };
        EngineDescriptor {
            id: self.id.clone(),
            name: self.name.clone(),
            client_secret: self.client_secret.clone(),
            user_id: self.user_id.clone(),
            max_threads: self.max_threads,
            max_hash: self.max_hash,
            default_depth: self.default_depth,
            variants,
            provider_data,
        }
    }
}

/// One unit of analysis work delivered by a successful poll: consumed once,
/// never persisted.
pub struct WorkRequest {
    pub id: String,
    pub work: Work,
    pub engine: EngineDescriptor,
}

/// Mathematical image of a [`WorkRequest`] value.
pub struct WorkRequestView {
    pub id: Seq<char>,
    pub work: WorkView,
    pub engine: EngineDescriptorView,
}

impl View for WorkRequest {
    type V = WorkRequestView;

    open spec fn view(&self) -> WorkRequestView {
        WorkRequestView { id: self.id@, work: self.work@, engine: self.engine@ }
    }
}

impl DeepView for WorkRequest {
    type V = WorkRequestView;

    open spec fn deep_view(&self) -> WorkRequestView {
        self.view()
    }
}

impl WorkRequest {
    /// A field-for-field copy.
    pub fn snapshot(&self) -> (r: Self)
        ensures
            r@ == self@,
    {
        WorkRequest { id: self.id.clone(), work: self.work.snapshot(), engine: self.engine.snapshot() }
    }
}

/// The go mode the wire fields encode: a present `movetime` wins, then an
/// `infinite` flag, and otherwise the engine's default depth is searched.
pub open spec fn go_mode_spec(movetime: Option<u32>, infinite: bool) -> GoMode {
    match movetime {
        Some(ms) => GoMode::MoveTime(ms),
        None => if infinite {
            GoMode::Infinite
        } else {
            GoMode::DefaultDepth
        },
    }
}

/// Decodes the wire fields of a work item into its go mode, as
/// [`go_mode_spec`] states.
pub fn go_mode_from(movetime: Option<u32>, infinite: bool) -> (g: GoMode)
    ensures
        g == go_mode_spec(movetime, infinite),
{
    match movetime {
        Some(ms) => GoMode::MoveTime(ms),
        None => if infinite {
            GoMode::Infinite
        } else {
            GoMode::DefaultDepth
        },
    }
}

/// The two dialogue details on which historical protocol revisions
/// disagree, fixed once per process as configuration rather than guessed:
/// whether a `setoption name Variant ...` line is sent, and whether the
/// final `bestmove` line is forwarded upstream before the session ends.
#[derive(Clone, Copy, PartialEq, Eq, Structural, Debug)]
pub struct ProtocolProfile {
    pub send_variant: bool,
    pub forward_bestmove: bool,
}

impl ProtocolProfile {
    /// The dialogue of the reference protocol revision: no variant option,
    /// `bestmove` used only as a stop signal.
    pub fn classic() -> (p: Self)
        ensures
            !p.send_variant,
            !p.forward_bestmove,
    {
        ProtocolProfile { send_variant: false, forward_bestmove: false }
    }
}

} // verus!
