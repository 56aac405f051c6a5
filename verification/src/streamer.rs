//! The reader half of the result streamer: it walks the engine's stdout
//! line by line, decides which lines are forwarded to the upload channel,
//! and detects the end of the session.
//!
//! Lines beginning with `info` are forwarded with a newline appended, in
//! the order read, for as long as the channel's consumer accepts them. A
//! failed send means the consumer has gone away; the reader then stops
//! forwarding but keeps draining lines until the session ends. A line
//! beginning with `bestmove` ends the session; whether that line itself is
//! forwarded first is a profile choice.

use vstd::prelude::*;

use crate::model::ProtocolProfile;
use crate::strutil::str_starts_with;

verus! {

/// What kind of line the engine produced.
#[derive(Clone, Copy, PartialEq, Eq, Structural, Debug)]
pub enum LineClass {
    /// Begins with `info`: analysis progress, forwarded upstream.
    Info,
    /// Begins with `bestmove`: the analysis is finished.
    BestMove,
    /// Anything else: surfaced to the observer only.
    Other,
}

/// The class of one stdout line.
pub open spec fn classify_spec(line: Seq<char>) -> LineClass {
    if "info"@.is_prefix_of(line) {
        LineClass::Info
    } else if "bestmove"@.is_prefix_of(line) {
        LineClass::BestMove
    } else {
        LineClass::Other
    }
}

/// Classifies one stdout line, as [`classify_spec`] states.
pub fn classify_line(line: &str) -> (c: LineClass)
    ensures
        c == classify_spec(line@),
{
    if str_starts_with(line, "info") {
        LineClass::Info
    } else if str_starts_with(line, "bestmove") {
        LineClass::BestMove
    } else {
        LineClass::Other
    }
}

/// What to forward for one line, given whether the reader was still
/// forwarding when the line arrived: an `info` line with a newline
/// appended; under a profile that forwards it, the `bestmove` line the same
/// way; nothing otherwise.
pub open spec fn line_forward_spec(
    forwarding: bool,
    profile: ProtocolProfile,
    line: Seq<char>,
) -> Option<Seq<char>> {
    match classify_spec(line) {
        LineClass::Info => if forwarding {
            Some(line + "\n"@)
        } else {
            None
        },
        LineClass::BestMove => if forwarding && profile.forward_bestmove {
            Some(line + "\n"@)
        } else {
            None
        },
        LineClass::Other => None,
    }
}

/// The reader's decision for one line: what to hand to the channel, and
/// whether the session is over.
pub struct LineDecision {
    /// The text to send on the channel, newline included, if any.
    pub forward: Option<String>,
    /// The session ends with this line.
    pub stop: bool,
}

/// The state the reader carries across lines of one session.
pub struct ReaderState {
    forwarding: bool,
    finished: bool,
}

impl ReaderState {
    /// The consumer has not refused a send yet; `info` lines are still
    /// forwarded.
    pub closed spec fn is_forwarding(&self) -> bool {
        self.forwarding
    }

    /// A `bestmove` line has been seen; the session is over.
    pub closed spec fn is_finished(&self) -> bool {
        self.finished
    }

    /// A fresh session: forwarding, not finished.
    pub fn new() -> (s: Self)
        ensures
            s.is_forwarding(),
            !s.is_finished(),
    {
        ReaderState { forwarding: true, finished: false }
    }

    /// Decides what to do with one stdout line, as [`line_forward_spec`]
    /// states; a `bestmove` line finishes the session.
    pub fn on_line(&mut self, line: &str, profile: ProtocolProfile) -> (d: LineDecision)
        requires
            !old(self).is_finished(),
        ensures
            final(self).is_forwarding() == old(self).is_forwarding(),
            final(self).is_finished() == (classify_spec(line@) is BestMove),
            d.stop == (classify_spec(line@) is BestMove),
            d.forward.deep_view() == line_forward_spec(old(self).is_forwarding(), profile, line@),
    {
        match classify_line(line) {
            LineClass::Info => {
                if self.forwarding {
                    let mut text = String::from_str(line);
                    text.append("\n");
                    LineDecision { forward: Some(text), stop: false }
                } else {
                    LineDecision { forward: None, stop: false }
                }
            },
            LineClass::BestMove => {
                self.finished = true;
                if self.forwarding && profile.forward_bestmove {
                    let mut text = String::from_str(line);
                    text.append("\n");
                    LineDecision { forward: Some(text), stop: true }
                } else {
                    LineDecision { forward: None, stop: true }
                }
            },
            LineClass::Other => LineDecision { forward: None, stop: false },
        }
    }

    /// Records that a send on the channel failed: the consumer is gone, so
    /// no further line is forwarded. The session itself goes on.
    pub fn on_send_failed(&mut self)
        ensures
            !final(self).is_forwarding(),
            final(self).is_finished() == old(self).is_finished(),
    {
        self.forwarding = false;
    }
}

/// How many of the `lines` one session reads: up to and including the
/// first `bestmove` line, or all of them when none occurs (the stream
/// ended).
pub open spec fn session_lines_read(lines: Seq<Seq<char>>) -> nat
    decreases lines.len(),
{
    if lines.len() == 0 {
        0
    } else if classify_spec(lines[0]) is BestMove {
        1
    } else {
        1 + session_lines_read(lines.drop_first())
    }
}

/// The lines one session hands to the channel, in reading order, given a
/// consumer that accepts the first `accepts` sends and refuses the rest:
/// each `info` line read before the first `bestmove`, newline-terminated,
/// while sends are still accepted — and, under a profile that forwards it,
/// the `bestmove` line itself.
pub open spec fn session_forwarded(
    lines: Seq<Seq<char>>,
    accepts: nat,
    profile: ProtocolProfile,
) -> Seq<Seq<char>>
    decreases lines.len(),
{
    if lines.len() == 0 {
        Seq::empty()
    } else {
        let line = lines[0];
        let rest = lines.drop_first();
        match classify_spec(line) {
            LineClass::Info => if accepts > 0 {
                seq![line + "\n"@] + session_forwarded(rest, (accepts - 1) as nat, profile)
            } else {
                session_forwarded(rest, 0, profile)
            },
            LineClass::BestMove => if accepts > 0 && profile.forward_bestmove {
                seq![line + "\n"@]
            } else {
                Seq::empty()
            },
            LineClass::Other => session_forwarded(rest, accepts, profile),
        }
    }
}

/// The `info` lines standing before the first `bestmove` line, in order,
/// each with a newline appended.
pub open spec fn info_lines_before_stop(lines: Seq<Seq<char>>) -> Seq<Seq<char>>
    decreases lines.len(),
{
    if lines.len() == 0 {
        Seq::empty()
    } else {
        match classify_spec(lines[0]) {
            LineClass::Info => seq![lines[0] + "\n"@] + info_lines_before_stop(
                lines.drop_first(),
            ),
            LineClass::BestMove => Seq::empty(),
            LineClass::Other => info_lines_before_stop(lines.drop_first()),
        }
    }
}

/// Law: a consumer that accepts at least one send per line never refuses
/// any, so the session forwards exactly the `info` lines standing before
/// the first `bestmove` — in reading order, newline-terminated, and
/// nothing else — under a profile that keeps `bestmove` as a stop signal.
pub proof fn lemma_session_forwards_every_info(
    lines: Seq<Seq<char>>,
    accepts: nat,
    profile: ProtocolProfile,
)
    requires
        accepts >= lines.len(),
        !profile.forward_bestmove,
    ensures
        session_forwarded(lines, accepts, profile) == info_lines_before_stop(lines),
    decreases lines.len(),
{
    if lines.len() > 0 {
        match classify_spec(lines[0]) {
            LineClass::Info => {
                lemma_session_forwards_every_info(
                    lines.drop_first(),
                    (accepts - 1) as nat,
                    profile,
                );
            },
            LineClass::BestMove => {
            },
            LineClass::Other => {
                lemma_session_forwards_every_info(lines.drop_first(), accepts, profile);
            },
        }
    }
}

/// Law: once the consumer is gone, nothing more is forwarded, whatever
/// lines the engine still produces.
pub proof fn lemma_session_closed_consumer_forwards_nothing(
    lines: Seq<Seq<char>>,
    profile: ProtocolProfile,
)
    ensures
        session_forwarded(lines, 0, profile) == Seq::<Seq<char>>::empty(),
    decreases lines.len(),
{
    if lines.len() > 0 {
        match classify_spec(lines[0]) {
            LineClass::Info => {
                lemma_session_closed_consumer_forwards_nothing(lines.drop_first(), profile);
            },
            LineClass::BestMove => {
            },
            LineClass::Other => {
                lemma_session_closed_consumer_forwards_nothing(lines.drop_first(), profile);
            },
        }
    }
}

/// Law: the session never hands the consumer more lines than it accepts.
pub proof fn lemma_session_respects_consumer(
    lines: Seq<Seq<char>>,
    accepts: nat,
    profile: ProtocolProfile,
)
    ensures
        session_forwarded(lines, accepts, profile).len() <= accepts,
    decreases lines.len(),
{
    if lines.len() > 0 {
        match classify_spec(lines[0]) {
            LineClass::Info => {
                if accepts > 0 {
                    lemma_session_respects_consumer(
                        lines.drop_first(),
                        (accepts - 1) as nat,
                        profile,
                    );
                } else {
                    lemma_session_respects_consumer(lines.drop_first(), 0, profile);
                }
            },
            LineClass::BestMove => {
            },
            LineClass::Other => {
                lemma_session_respects_consumer(lines.drop_first(), accepts, profile);
            },
        }
    }
}

/// What one replayed session produced.
pub struct SessionOutcome {
    /// The lines handed to the channel, in order, newlines included.
    pub forwarded: Vec<String>,
    /// How many stdout lines were read before the session ended.
    pub lines_read: usize,
}

/// Law: replaying the reader over a transcript of stdout `lines`, against a
/// consumer that accepts the first `accepts` sends and then is closed,
/// forwards exactly [`session_forwarded`] — the `info` lines in reading
/// order, newline-terminated, none after the consumer is gone — and reads
/// exactly [`session_lines_read`] lines, stopping right after the first
/// `bestmove` however the consumer behaved.
pub fn run_reader_session(
    lines: &Vec<String>,
    accepts: usize,
    profile: ProtocolProfile,
) -> (o: SessionOutcome)
    ensures
        o.forwarded.deep_view() == session_forwarded(lines.deep_view(), accepts as nat, profile),
        o.lines_read as nat == session_lines_read(lines.deep_view()),
{
    let ghost all = lines.deep_view();
    let mut reader = ReaderState::new();
    let mut forwarded: Vec<String> = Vec::new();
    let mut left: usize = accepts;
    let mut i: usize = 0;
    let mut stopped = false;
    proof {
        assert(all.skip(0) =~= all);
        assert(forwarded.deep_view() =~= Seq::<Seq<char>>::empty());
        assert(Seq::<Seq<char>>::empty() + session_forwarded(all, accepts as nat, profile)
            =~= session_forwarded(all, accepts as nat, profile));
    }
    while i < lines.len() && !stopped
        invariant
            all == lines.deep_view(),
            all.len() == lines.len(),
            forall|j: int| 0 <= j < all.len() ==> all[j] == lines@[j]@,
            i <= lines.len(),
            !stopped ==> !reader.is_finished(),
            !reader.is_forwarding() ==> left == 0,
            session_forwarded(all, accepts as nat, profile) == forwarded.deep_view() + (
            if stopped {
                Seq::<Seq<char>>::empty()
            } else {
                session_forwarded(all.skip(i as int), left as nat, profile)
            }),
            session_lines_read(all) == (if stopped {
                i as int
            } else {
                i + session_lines_read(all.skip(i as int))
            }),
        decreases lines.len() - i,
    {
        let line = &lines[i];
        let ghost suffix = all.skip(i as int);
        let ghost prev_left = left as nat;
        let ghost prev_forwarding = reader.is_forwarding();
        let ghost prev_out = forwarded.deep_view();
        proof {
            assert(suffix[0] == all[i as int]);
            assert(suffix.drop_first() =~= all.skip(i + 1));
        }
        let d = reader.on_line(line.as_str(), profile);
        match d.forward {
            Some(text) => {
                if left > 0 {
                    left = left - 1;
                    forwarded.push(text);
                } else {
                    reader.on_send_failed();
                }
            },
            None => {},
        }
        if d.stop {
            stopped = true;
        }
        proof {
            let tail = all.skip(i + 1);
            match classify_spec(line@) {
                LineClass::Info => {
                    if prev_forwarding && prev_left > 0 {
                        assert(forwarded.deep_view() =~= prev_out + seq![line@ + "\n"@]);
                        assert(session_forwarded(suffix, prev_left, profile) == seq![
                            line@ + "\n"@,
                        ] + session_forwarded(tail, left as nat, profile));
                        assert(prev_out + (seq![line@ + "\n"@] + session_forwarded(
                            tail,
                            left as nat,
                            profile,
                        )) =~= forwarded.deep_view() + session_forwarded(
                            tail,
                            left as nat,
                            profile,
                        ));
                    } else {
                        assert(left == 0);
                        assert(session_forwarded(suffix, prev_left, profile)
                            == session_forwarded(tail, left as nat, profile));
                    }
                },
                LineClass::BestMove => {
                    if prev_forwarding && profile.forward_bestmove && prev_left > 0 {
                        assert(forwarded.deep_view() =~= prev_out + seq![line@ + "\n"@]);
                        assert(session_forwarded(suffix, prev_left, profile) == seq![
                            line@ + "\n"@,
                        ]);
                        assert(prev_out + seq![line@ + "\n"@] =~= forwarded.deep_view()
                            + Seq::<Seq<char>>::empty());
                    } else {
                        assert(session_forwarded(suffix, prev_left, profile)
                            =~= Seq::<Seq<char>>::empty());
                        assert(forwarded.deep_view() + Seq::<Seq<char>>::empty()
                            =~= prev_out + session_forwarded(suffix, prev_left, profile));
                    }
                },
                LineClass::Other => {
                    assert(session_forwarded(suffix, prev_left, profile) == session_forwarded(
                        tail,
                        left as nat,
                        profile,
                    ));
                },
            }
        }
        i = i + 1;
    }
    proof {
        if !stopped {
            assert(all.skip(all.len() as int) =~= Seq::<Seq<char>>::empty());
            assert(session_forwarded(Seq::<Seq<char>>::empty(), left as nat, profile)
                == Seq::<Seq<char>>::empty());
            assert(session_lines_read(Seq::<Seq<char>>::empty()) == 0);
        }
        assert(forwarded.deep_view() + Seq::<Seq<char>>::empty() =~= forwarded.deep_view());
    }
    SessionOutcome { forwarded, lines_read: i }
}

} // verus!
