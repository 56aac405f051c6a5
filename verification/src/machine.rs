//! The work loop itself, as a state machine over external events.
//!
//! The embedding program performs the outside work — fetching the
//! configuration snapshot, the HTTP calls, spawning the engine, piping its
//! stdin and stdout, sleeping — and reports each result here. Every method
//! answers with the exact next thing to do (a [`Directive`]), the
//! notification to surface to the observer, and moves the machine to the
//! next state. No event ever moves the machine to a terminal state: every
//! failure leads back to waiting or polling.
//!
//! One iteration: a fresh [`ConfigSnapshot`] is handed to
//! [`WorkLoop::on_config`]; a ready snapshot starts a poll, anything else
//! waits. A delivered work request is resolved to a binary, spawned,
//! configured with the exact command sequence of
//! [`crate::commands::command_seq`], and its output is streamed until the
//! session ends; then the loop begins a fresh iteration.

use vstd::prelude::*;

use crate::backoff::{next_backoff, BackoffController, MIN_BACKOFF_SECS};
use crate::commands::{command_seq, engine_commands};
use crate::config::{
    waiting_is_error, waiting_is_error_spec, waiting_message, waiting_message_spec, ConfigSnapshot,
    PollCredentials, WAITING_RETRY_SECS,
};
use crate::model::{ProtocolProfile, WorkRequest, WorkRequestView};
use crate::streamer::{classify_spec, line_forward_spec, LineDecision, ReaderState};
use crate::strutil::{decimal_digits, u32_to_decimal};
use crate::wire::{
    bearer_header, bearer_header_spec, poll_body, poll_body_spec, poll_url, poll_url_spec,
    stream_url, stream_url_spec,
};

verus! {

/// Fixed delay, in seconds, before a fresh iteration after a failed engine
/// lookup or spawn.
pub const SESSION_RETRY_SECS: u64 = 5;

/// What kind of notification the observer receives.
#[derive(Clone, Copy, PartialEq, Eq, Structural, Debug)]
pub enum NotifyKind {
    /// A state-transition status, part of normal operation.
    Status,
    /// One line of engine output, surfaced for diagnostics.
    Progress,
    /// A soft failure; the loop goes on.
    Error,
}

/// One notification to the observer: a kind, a human-readable message, and,
/// where one is at hand, a snapshot of the work request concerned.
pub struct Notification {
    pub kind: NotifyKind,
    pub message: String,
    pub request: Option<WorkRequest>,
}

/// Mathematical image of a [`Notification`] value.
pub struct NotificationView {
    pub kind: NotifyKind,
    pub message: Seq<char>,
    pub request: Option<WorkRequestView>,
}

impl View for Notification {
    type V = NotificationView;

    open spec fn view(&self) -> NotificationView {
        NotificationView {
            kind: self.kind,
            message: self.message@,
            request: self.request.deep_view(),
        }
    }
}

impl DeepView for Notification {
    type V = NotificationView;

    open spec fn deep_view(&self) -> NotificationView {
        self.view()
    }
}

/// The next piece of outside work the embedding program is to perform.
pub enum Directive {
    /// Sleep this many seconds, then begin a fresh iteration: fetch a
    /// configuration snapshot and hand it to [`WorkLoop::on_config`].
    Sleep(u64),
    /// Begin a fresh iteration at once.
    FetchConfig,
    /// POST `body` to `url` with the `Authorization` header value
    /// `authorization`; hand the outcome to [`WorkLoop::on_poll`].
    Poll { url: String, authorization: String, body: String },
    /// Look up the binary path registered for this engine id; hand the
    /// result to [`WorkLoop::on_lookup`].
    Lookup { engine_id: String },
    /// Spawn this binary with piped stdin and stdout; hand the outcome to
    /// [`WorkLoop::on_spawn`].
    Spawn { binary_path: String },
    /// Write these lines to the child's stdin, in order, each followed by a
    /// newline, then flush; hand the outcome to [`WorkLoop::on_configured`].
    Configure { commands: Vec<String> },
    /// Open the streaming POST to `url` with the `Authorization` header
    /// value `authorization`, its body fed from the session channel; then
    /// read the child's stdout line by line into [`WorkLoop::on_line`].
    StreamAndRead { url: String, authorization: String },
}

/// One step's answer: the notification to surface, if any, and the next
/// outside work to perform.
pub struct Step {
    pub notice: Option<Notification>,
    pub directive: Directive,
}

/// How a poll ended, as the embedding program saw it.
pub enum PollOutcome {
    /// Status 200 and a body parseable as a work request.
    Delivered(WorkRequest),
    /// Any other status, or no response at all.
    HttpFailure,
    /// Status 200 but an unparseable body.
    MalformedBody,
}

/// How spawning the engine binary ended; a failure carries the error text.
pub enum SpawnOutcome {
    Started,
    Failed(String),
}

/// How writing the command lines ended; a failure carries the error text.
pub enum WriteOutcome {
    Written,
    Failed(String),
}

/// Why the reading of the engine's stdout ended.
pub enum SessionEnd {
    /// A `bestmove` line was read.
    BestMoveSeen,
    /// The stdout stream ended without one.
    StdoutClosed,
    /// Reading failed; carries the error text.
    ReadFailed(String),
}

/// Where the loop stands between two events.
pub enum LoopState {
    /// Before an iteration: the next event is a configuration snapshot.
    WaitingForConfig,
    /// A poll is in flight with these credentials.
    Polling { creds: PollCredentials },
    /// Sleeping out a backoff delay after a poll failure.
    Backoff,
    /// A work request is at hand; its engine id is being looked up.
    HasWork { creds: PollCredentials, request: WorkRequest },
    /// The resolved binary is being spawned.
    Spawning { creds: PollCredentials, request: WorkRequest, binary_path: String },
    /// The engine is up; the command lines are being written.
    Configuring { creds: PollCredentials, request: WorkRequest },
    /// The engine is analyzing; stdout lines are being read.
    Analyzing { creds: PollCredentials, request: WorkRequest, reader: ReaderState },
}

/// The decision core of the work loop.
pub struct WorkLoop {
    profile: ProtocolProfile,
    backoff: BackoffController,
    state: LoopState,
}

impl WorkLoop {
    /// The protocol profile the loop was started with; never changes.
    pub closed spec fn profile(&self) -> ProtocolProfile {
        self.profile
    }

    /// The delay the next poll failure will impose.
    pub closed spec fn backoff_delay(&self) -> u64 {
        self.backoff.delay()
    }

    /// Where the loop stands.
    pub closed spec fn state(&self) -> LoopState {
        self.state
    }

    /// The backoff delay stays within its schedule's bounds.
    pub closed spec fn well_formed(&self) -> bool {
        self.backoff.well_formed()
    }

    /// A fresh loop: waiting for its first configuration snapshot, backoff
    /// at the minimum.
    pub fn new(profile: ProtocolProfile) -> (w: Self)
        ensures
            w.well_formed(),
            w.profile() == profile,
            w.backoff_delay() == MIN_BACKOFF_SECS,
            w.state() is WaitingForConfig,
    {
        WorkLoop {
            profile,
            backoff: BackoffController::new(),
            state: LoopState::WaitingForConfig,
        }
    }

    /// Begins an iteration with a fresh configuration snapshot. A ready
    /// snapshot starts a poll with its credentials and announces it;
    /// anything else reports the first gap and waits a fixed delay, leaving
    /// the backoff schedule untouched.
    pub fn on_config(&mut self, snap: &ConfigSnapshot) -> (r: Step)
        requires
            old(self).well_formed(),
            old(self).state() is WaitingForConfig || old(self).state() is Backoff,
        ensures
            final(self).well_formed(),
            final(self).profile() == old(self).profile(),
            final(self).backoff_delay() == old(self).backoff_delay(),
            snap@.ready() ==> (final(self).state() matches LoopState::Polling { creds } && {
                &&& Some(creds@.host) == snap@.host
                &&& Some(creds@.token) == snap@.token
                &&& Some(creds@.provider_secret) == snap@.provider_secret
                &&& (r.directive matches Directive::Poll { url, authorization, body }
                    && url@ == poll_url_spec(creds@.host)
                    && authorization@ == bearer_header_spec(creds@.token)
                    && body@ == poll_body_spec(creds@.provider_secret))
                &&& r.notice.deep_view() == Some(NotificationView {
                    kind: NotifyKind::Status,
                    message: "Waiting for moves"@,
                    request: None::<WorkRequestView>,
                })
            }),
            !snap@.ready() ==> {
                &&& final(self).state() is WaitingForConfig
                &&& r.directive == Directive::Sleep(WAITING_RETRY_SECS)
                &&& r.notice.deep_view() == Some(NotificationView {
                    kind: if waiting_is_error_spec(snap@.waiting_reason()) {
                        NotifyKind::Error
                    } else {
                        NotifyKind::Status
                    },
                    message: waiting_message_spec(snap@.waiting_reason()),
                    request: None::<WorkRequestView>,
                })
            },
    {
        match snap.readiness() {
            Ok(creds) => {
                let url = poll_url(creds.host.as_str());
                let authorization = bearer_header(creds.token.as_str());
                let body = poll_body(creds.provider_secret.as_str());
                self.state = LoopState::Polling { creds };
                Step {
                    notice: Some(
                        Notification {
                            kind: NotifyKind::Status,
                            message: String::from_str("Waiting for moves"),
                            request: None,
                        },
                    ),
                    directive: Directive::Poll { url, authorization, body },
                }
            },
            Err(reason) => {
                self.state = LoopState::WaitingForConfig;
                let kind = if waiting_is_error(reason) {
                    NotifyKind::Error
                } else {
                    NotifyKind::Status
                };
                Step {
                    notice: Some(
                        Notification { kind, message: waiting_message(reason), request: None },
                    ),
                    directive: Directive::Sleep(WAITING_RETRY_SECS),
                }
            },
        }
    }

    /// Takes the outcome of the poll. Delivered work resets the backoff,
    /// announces the analysis and asks for the engine lookup; an HTTP
    /// failure reports the current backoff delay, imposes it and doubles
    /// it; a malformed body on a success status is reported and the loop
    /// goes straight on to a fresh iteration, the backoff untouched.
    pub fn on_poll(&mut self, outcome: PollOutcome) -> (r: Step)
        requires
            old(self).well_formed(),
            old(self).state() is Polling,
        ensures
            final(self).well_formed(),
            final(self).profile() == old(self).profile(),
            (outcome matches PollOutcome::Delivered(req) ==> {
                &&& final(self).backoff_delay() == MIN_BACKOFF_SECS
                &&& (old(self).state() matches LoopState::Polling { creds } ==> final(self).state()
                    == (LoopState::HasWork { creds, request: req }))
                &&& (r.directive matches Directive::Lookup { engine_id } && engine_id@
                    == req.engine.id@)
                &&& r.notice.deep_view() == Some(NotificationView {
                    kind: NotifyKind::Status,
                    message: "Analyzing"@,
                    request: Some(req@),
                })
            }),
            (outcome is HttpFailure ==> {
                &&& final(self).backoff_delay() == next_backoff(old(self).backoff_delay())
                &&& final(self).state() is Backoff
                &&& r.directive == Directive::Sleep(old(self).backoff_delay())
                &&& r.notice.deep_view() == Some(NotificationView {
                    kind: NotifyKind::Status,
                    message: "Backing off "@ + decimal_digits(old(self).backoff_delay() as nat)
                        + "s"@,
                    request: None::<WorkRequestView>,
                })
            }),
            (outcome is MalformedBody ==> {
                &&& final(self).backoff_delay() == old(self).backoff_delay()
                &&& final(self).state() is WaitingForConfig
                &&& r.directive == Directive::FetchConfig
                &&& r.notice.deep_view() == Some(NotificationView {
                    kind: NotifyKind::Error,
                    message: "Malformed work response"@,
                    request: None::<WorkRequestView>,
                })
            }),
    {
        let mut taken = LoopState::WaitingForConfig;
        core::mem::swap(&mut self.state, &mut taken);
        match taken {
            LoopState::Polling { creds } => match outcome {
                PollOutcome::Delivered(req) => {
                    self.backoff.on_success();
                    let engine_id = req.engine.id.clone();
                    let snap = req.snapshot();
                    self.state = LoopState::HasWork { creds, request: req };
                    Step {
                        notice: Some(
                            Notification {
                                kind: NotifyKind::Status,
                                message: String::from_str("Analyzing"),
                                request: Some(snap),
                            },
                        ),
                        directive: Directive::Lookup { engine_id },
                    }
                },
                PollOutcome::HttpFailure => {
                    let d = self.backoff.on_failure();
                    self.state = LoopState::Backoff;
                    let mut msg = String::from_str("Backing off ");
                    msg.append(u32_to_decimal(d as u32).as_str());
                    msg.append("s");
                    Step {
                        notice: Some(
                            Notification { kind: NotifyKind::Status, message: msg, request: None },
                        ),
                        directive: Directive::Sleep(d),
                    }
                },
                PollOutcome::MalformedBody => {
                    self.state = LoopState::WaitingForConfig;
                    Step {
                        notice: Some(
                            Notification {
                                kind: NotifyKind::Error,
                                message: String::from_str("Malformed work response"),
                                request: None,
                            },
                        ),
                        directive: Directive::FetchConfig,
                    }
                },
            },
            _ => unreached(),
        }
    }

    /// Takes the result of the engine-registry lookup. A missing entry is
    /// reported and the loop waits a fixed delay before a fresh iteration —
    /// the request is skipped, never fatal. A found path is handed back to
    /// be spawned.
    pub fn on_lookup(&mut self, binary_path: Option<String>) -> (r: Step)
        requires
            old(self).well_formed(),
            old(self).state() is HasWork,
        ensures
            final(self).well_formed(),
            final(self).profile() == old(self).profile(),
            final(self).backoff_delay() == old(self).backoff_delay(),
            binary_path is None ==> {
                &&& final(self).state() is WaitingForConfig
                &&& r.directive == Directive::Sleep(SESSION_RETRY_SECS)
                &&& r.notice.deep_view() == Some(NotificationView {
                    kind: NotifyKind::Error,
                    message: "Missing binary filepath"@,
                    request: None::<WorkRequestView>,
                })
            },
            (binary_path matches Some(path) ==> (old(self).state() matches LoopState::HasWork {
                creds,
                request,
            } ==> {
                &&& final(self).state() == (LoopState::Spawning {
                    creds,
                    request,
                    binary_path: path,
                })
                &&& (r.directive matches Directive::Spawn { binary_path: p } && p@ == path@)
                &&& r.notice is None
            })),
    {
        let mut taken = LoopState::WaitingForConfig;
        core::mem::swap(&mut self.state, &mut taken);
        match taken {
            LoopState::HasWork { creds, request } => match binary_path {
                None => {
                    self.state = LoopState::WaitingForConfig;
                    Step {
                        notice: Some(
                            Notification {
                                kind: NotifyKind::Error,
                                message: String::from_str("Missing binary filepath"),
                                request: None,
                            },
                        ),
                        directive: Directive::Sleep(SESSION_RETRY_SECS),
                    }
                },
                Some(path) => {
                    let spawn_path = path.clone();
                    self.state = LoopState::Spawning { creds, request, binary_path: path };
                    Step {
                        notice: None,
                        directive: Directive::Spawn { binary_path: spawn_path },
                    }
                },
            },
            _ => unreached(),
        }
    }

    /// Takes the outcome of spawning the engine. A failure is reported with
    /// the attempted path and the loop waits a fixed delay before a fresh
    /// iteration. A running engine is handed the exact command sequence of
    /// [`command_seq`] to write.
    pub fn on_spawn(&mut self, outcome: SpawnOutcome) -> (r: Step)
        requires
            old(self).well_formed(),
            old(self).state() is Spawning,
        ensures
            final(self).well_formed(),
            final(self).profile() == old(self).profile(),
            final(self).backoff_delay() == old(self).backoff_delay(),
            (outcome matches SpawnOutcome::Failed(err) ==> (old(self).state()
                matches LoopState::Spawning { binary_path, .. } ==> {
                &&& final(self).state() is WaitingForConfig
                &&& r.directive == Directive::Sleep(SESSION_RETRY_SECS)
                &&& r.notice.deep_view() == Some(NotificationView {
                    kind: NotifyKind::Error,
                    message: "Failed to start engine: "@ + err@ + " for "@ + binary_path@,
                    request: None::<WorkRequestView>,
                })
            })),
            (outcome is Started ==> (old(self).state() matches LoopState::Spawning {
                creds,
                request,
                ..
            } ==> {
                &&& final(self).state() == (LoopState::Configuring { creds, request })
                &&& (r.directive matches Directive::Configure { commands } && commands.deep_view()
                    == command_seq(request@.work, request@.engine, old(self).profile()))
                &&& r.notice is None
            })),
    {
        let profile = self.profile;
        let mut taken = LoopState::WaitingForConfig;
        core::mem::swap(&mut self.state, &mut taken);
        match taken {
            LoopState::Spawning { creds, request, binary_path } => match outcome {
                SpawnOutcome::Failed(err) => {
                    self.state = LoopState::WaitingForConfig;
                    let mut msg = String::from_str("Failed to start engine: ");
                    msg.append(err.as_str());
                    msg.append(" for ");
                    msg.append(binary_path.as_str());
                    Step {
                        notice: Some(
                            Notification { kind: NotifyKind::Error, message: msg, request: None },
                        ),
                        directive: Directive::Sleep(SESSION_RETRY_SECS),
                    }
                },
                SpawnOutcome::Started => {
                    let commands = engine_commands(&request, profile);
                    self.state = LoopState::Configuring { creds, request };
                    Step { notice: None, directive: Directive::Configure { commands } }
                },
            },
            _ => unreached(),
        }
    }

    /// Takes the outcome of writing the command lines. A write failure
    /// aborts this session — reported, never fatal — and the loop goes
    /// straight on to a fresh iteration. A successful write opens the
    /// result stream and starts the reader.
    pub fn on_configured(&mut self, outcome: WriteOutcome) -> (r: Step)
        requires
            old(self).well_formed(),
            old(self).state() is Configuring,
        ensures
            final(self).well_formed(),
            final(self).profile() == old(self).profile(),
            final(self).backoff_delay() == old(self).backoff_delay(),
            (outcome matches WriteOutcome::Failed(err) ==> {
                &&& final(self).state() is WaitingForConfig
                &&& r.directive == Directive::FetchConfig
                &&& r.notice.deep_view() == Some(NotificationView {
                    kind: NotifyKind::Error,
                    message: "Engine write failed: "@ + err@,
                    request: None::<WorkRequestView>,
                })
            }),
            (outcome is Written ==> (old(self).state() matches LoopState::Configuring {
                creds,
                request,
            } ==> {
                &&& (final(self).state() matches LoopState::Analyzing {
                    creds: c2,
                    request: r2,
                    reader,
                } && c2 == creds && r2 == request && reader.is_forwarding()
                    && !reader.is_finished())
                &&& (r.directive matches Directive::StreamAndRead { url, authorization } && url@
                    == stream_url_spec(creds@.host, request@.id) && authorization@
                    == bearer_header_spec(creds@.token))
                &&& r.notice is None
            })),
    {
        let mut taken = LoopState::WaitingForConfig;
        core::mem::swap(&mut self.state, &mut taken);
        match taken {
            LoopState::Configuring { creds, request } => match outcome {
                WriteOutcome::Failed(err) => {
                    self.state = LoopState::WaitingForConfig;
                    let mut msg = String::from_str("Engine write failed: ");
                    msg.append(err.as_str());
                    Step {
                        notice: Some(
                            Notification { kind: NotifyKind::Error, message: msg, request: None },
                        ),
                        directive: Directive::FetchConfig,
                    }
                },
                WriteOutcome::Written => {
                    let url = stream_url(creds.host.as_str(), request.id.as_str());
                    let authorization = bearer_header(creds.token.as_str());
                    self.state = LoopState::Analyzing {
                        creds,
                        request,
                        reader: ReaderState::new(),
                    };
                    Step {
                        notice: None,
                        directive: Directive::StreamAndRead { url, authorization },
                    }
                },
            },
            _ => unreached(),
        }
    }

    /// Takes one line of the engine's stdout: surfaces it to the observer
    /// and answers with the reader's decision — what to send on the
    /// channel, and whether the session ends with this line.
    pub fn on_line(&mut self, line: &str) -> (r: LineStep)
        requires
            old(self).well_formed(),
            old(self).state() matches LoopState::Analyzing { reader, .. } && !reader.is_finished(),
        ensures
            final(self).well_formed(),
            final(self).profile() == old(self).profile(),
            final(self).backoff_delay() == old(self).backoff_delay(),
            (old(self).state() matches LoopState::Analyzing { creds, request, reader } ==> {
                &&& (final(self).state() matches LoopState::Analyzing {
                    creds: c2,
                    request: r2,
                    reader: rd2,
                } && c2 == creds && r2 == request && rd2.is_forwarding() == reader.is_forwarding()
                    && rd2.is_finished() == (classify_spec(line@) is BestMove))
                &&& r.decision.stop == (classify_spec(line@) is BestMove)
                &&& r.decision.forward.deep_view() == line_forward_spec(
                    reader.is_forwarding(),
                    old(self).profile(),
                    line@,
                )
                &&& r.notice.deep_view() == Some(NotificationView {
                    kind: NotifyKind::Progress,
                    message: line@,
                    request: None::<WorkRequestView>,
                })
            }),
    {
        let profile = self.profile;
        let mut taken = LoopState::WaitingForConfig;
        core::mem::swap(&mut self.state, &mut taken);
        match taken {
            LoopState::Analyzing { creds, request, mut reader } => {
                let decision = reader.on_line(line, profile);
                self.state = LoopState::Analyzing { creds, request, reader };
                LineStep {
                    notice: Some(
                        Notification {
                            kind: NotifyKind::Progress,
                            message: String::from_str(line),
                            request: None,
                        },
                    ),
                    decision,
                }
            },
            _ => unreached(),
        }
    }

    /// Records that a send on the session channel failed: the consumer is
    /// gone, so the reader stops forwarding but keeps draining lines.
    pub fn on_send_failed(&mut self)
        requires
            old(self).well_formed(),
            old(self).state() is Analyzing,
        ensures
            final(self).well_formed(),
            final(self).profile() == old(self).profile(),
            final(self).backoff_delay() == old(self).backoff_delay(),
            (old(self).state() matches LoopState::Analyzing { creds, request, reader }
                ==> (final(self).state() matches LoopState::Analyzing {
                creds: c2,
                request: r2,
                reader: rd2,
            } && c2 == creds && r2 == request && !rd2.is_forwarding() && rd2.is_finished()
                == reader.is_finished())),
    {
        let mut taken = LoopState::WaitingForConfig;
        core::mem::swap(&mut self.state, &mut taken);
        match taken {
            LoopState::Analyzing { creds, request, mut reader } => {
                reader.on_send_failed();
                self.state = LoopState::Analyzing { creds, request, reader };
            },
            _ => unreached(),
        }
    }

    /// Ends the session — the reader saw `bestmove`, the stdout stream
    /// closed, or reading failed — and goes on to a fresh iteration. A read
    /// failure is reported; it never ends the loop.
    pub fn on_session_end(&mut self, end: SessionEnd) -> (r: Step)
        requires
            old(self).well_formed(),
            old(self).state() is Analyzing,
        ensures
            final(self).well_formed(),
            final(self).profile() == old(self).profile(),
            final(self).backoff_delay() == old(self).backoff_delay(),
            final(self).state() is WaitingForConfig,
            r.directive == Directive::FetchConfig,
            end is BestMoveSeen ==> r.notice.deep_view() == Some(NotificationView {
                kind: NotifyKind::Status,
                message: "Best move found"@,
                request: None::<WorkRequestView>,
            }),
            end is StdoutClosed ==> r.notice is None,
            (end matches SessionEnd::ReadFailed(err) ==> r.notice.deep_view() == Some(
                NotificationView {
                    kind: NotifyKind::Error,
                    message: "Engine read failed: "@ + err@,
                    request: None::<WorkRequestView>,
                },
            )),
    {
        self.state = LoopState::WaitingForConfig;
        let notice = match end {
            SessionEnd::BestMoveSeen => Some(
                Notification {
                    kind: NotifyKind::Status,
                    message: String::from_str("Best move found"),
                    request: None,
                },
            ),
            SessionEnd::StdoutClosed => None,
            SessionEnd::ReadFailed(err) => {
                let mut msg = String::from_str("Engine read failed: ");
                msg.append(err.as_str());
                Some(Notification { kind: NotifyKind::Error, message: msg, request: None })
            },
        };
        Step { notice, directive: Directive::FetchConfig }
    }
}

/// The answer to one stdout line: the notification to surface and the
/// reader's decision for the line.
pub struct LineStep {
    pub notice: Option<Notification>,
    pub decision: LineDecision,
}

} // verus!
