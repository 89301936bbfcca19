//! Classification of worker output.
//!
//! One relay runs per spawned worker generation. It consumes the worker's
//! combined output stream chunk by chunk: each standard-output line
//! becomes an info event, each standard-error line an error event, and
//! the termination notice becomes a single warning event after which the
//! relay stops. The functions here decide, for each chunk, what the relay
//! emits; the unverified shell performs the waiting and the delivery.

use vstd::prelude::*;

use crate::events::LogEvent;
use crate::events::LogLevel;
use crate::numfmt::dec_signed;
use crate::numfmt::format_i32;

verus! {

/// One chunk received from the worker's combined output stream.
#[derive(Clone, Debug)]
pub enum OutputChunk {
    /// A line from the worker's standard output.
    Stdout(String),
    /// A line from the worker's standard error.
    Stderr(String),
    /// The worker terminated, with its exit code if one was reported.
    Terminated(Option<i32>),
    /// Any other stream notification; the relay ignores it.
    Other,
}

/// What the relay does with one chunk.
#[derive(Debug)]
pub enum RelayStep {
    /// Deliver this event and keep consuming the stream.
    Emit(LogEvent),
    /// Deliver this event, clear this generation's worker slot, and stop.
    Finish(LogEvent),
    /// Nothing to deliver.
    Skip,
}

/// The exit code reported for a termination, zero when none was.
pub open spec fn exit_code_of(code: Option<i32>) -> int {
    match code {
        Some(c) => c as int,
        None => 0,
    }
}

/// The message of the one warning event a worker exit produces.
pub open spec fn termination_message(code: int) -> Seq<char> {
    "worker stopped with code "@ + dec_signed(code)
}

/// A line with one trailing newline removed.
pub open spec fn line_text(s: Seq<char>) -> Seq<char> {
    if s.len() > 0 && s[s.len() - 1] == '\n' {
        s.drop_last()
    } else {
        s
    }
}

/// The message text of a received line: the line without its newline.
pub fn line_message(s: &str) -> (t: String)
    ensures
        t@ == line_text(s@),
{
    let n = s.unicode_len();
    if n > 0 && s.get_char(n - 1) == '\n' {
        let stripped = s.substring_char(0, n - 1);
        proof {
            assert(stripped@ =~= line_text(s@));
        }
        stripped.to_owned()
    } else {
        s.to_owned()
    }
}

/// The message a worker exit is reported with.
pub fn termination_event_message(code: i32) -> (m: String)
    ensures
        m@ == termination_message(code as int),
{
    let mut m = String::from_str("worker stopped with code ");
    m.append(format_i32(code).as_str());
    m
}

/// Decide what the relay emits for one chunk.
pub fn relay_step(chunk: &OutputChunk) -> (step: RelayStep)
    ensures
        chunk matches OutputChunk::Stdout(l) ==> step matches RelayStep::Emit(e)
            && e.is_event(LogLevel::Info, line_text(l@)),
        chunk matches OutputChunk::Stderr(l) ==> step matches RelayStep::Emit(e)
            && e.is_event(LogLevel::Error, line_text(l@)),
        chunk matches OutputChunk::Terminated(c) ==> step matches RelayStep::Finish(e)
            && e.is_event(LogLevel::Warning, termination_message(exit_code_of(*c))),
        chunk is Other ==> step is Skip,
{
    match chunk {
        OutputChunk::Stdout(l) => RelayStep::Emit(
            LogEvent::new(LogLevel::Info, line_message(l.as_str())),
        ),
        OutputChunk::Stderr(l) => RelayStep::Emit(
            LogEvent::new(LogLevel::Error, line_message(l.as_str())),
        ),
        OutputChunk::Terminated(code) => {
            let c: i32 = match code {
                Some(v) => *v,
                None => 0,
            };
            RelayStep::Finish(LogEvent::new(LogLevel::Warning, termination_event_message(c)))
        },
        OutputChunk::Other => RelayStep::Skip,
    }
}

/// The events one relay generation delivers for a chunk stream, in
/// order, up to and including the termination notice.
pub open spec fn relay_log(chunks: Seq<OutputChunk>) -> Seq<(LogLevel, Seq<char>)>
    decreases chunks.len(),
{
    if chunks.len() == 0 {
        Seq::empty()
    } else {
        match chunks[0] {
            OutputChunk::Stdout(l) => seq![(LogLevel::Info, line_text(l@))] + relay_log(
                chunks.drop_first(),
            ),
            OutputChunk::Stderr(l) => seq![(LogLevel::Error, line_text(l@))] + relay_log(
                chunks.drop_first(),
            ),
            OutputChunk::Terminated(c) => seq![
                (LogLevel::Warning, termination_message(exit_code_of(c))),
            ],
            OutputChunk::Other => relay_log(chunks.drop_first()),
        }
    }
}

/// Whether the stream contains a termination notice that stops the relay.
pub open spec fn relay_stops(chunks: Seq<OutputChunk>) -> bool
    decreases chunks.len(),
{
    if chunks.len() == 0 {
        false
    } else if chunks[0] is Terminated {
        true
    } else {
        relay_stops(chunks.drop_first())
    }
}

/// How many warning entries a relay log holds.
pub open spec fn warning_count(log: Seq<(LogLevel, Seq<char>)>) -> nat
    decreases log.len(),
{
    if log.len() == 0 {
        0
    } else {
        (if log[0].0 == LogLevel::Warning {
            1nat
        } else {
            0nat
        }) + warning_count(log.drop_first())
    }
}

/// A worker termination produces exactly one warning event: the relay's
/// log for a stream holds one warning entry when the stream holds a
/// termination notice, and none at all otherwise.
pub proof fn lemma_one_warning_per_termination(chunks: Seq<OutputChunk>)
    ensures
        warning_count(relay_log(chunks)) == (if relay_stops(chunks) {
            1nat
        } else {
            0nat
        }),
    decreases chunks.len(),
{
    if chunks.len() > 0 {
        let rest = relay_log(chunks.drop_first());
        lemma_one_warning_per_termination(chunks.drop_first());
        match chunks[0] {
            OutputChunk::Stdout(l) => {
                let head = (LogLevel::Info, line_text(l@));
                let cat = seq![head] + rest;
                assert(cat[0] == head);
                assert(cat.drop_first() =~= rest);
                assert(warning_count(cat) == warning_count(rest));
            },
            OutputChunk::Stderr(l) => {
                let head = (LogLevel::Error, line_text(l@));
                let cat = seq![head] + rest;
                assert(cat[0] == head);
                assert(cat.drop_first() =~= rest);
                assert(warning_count(cat) == warning_count(rest));
            },
            OutputChunk::Terminated(c) => {
                let single = seq![(LogLevel::Warning, termination_message(exit_code_of(c)))];
                assert(single.drop_first() =~= Seq::<(LogLevel, Seq<char>)>::empty());
                assert(warning_count(single.drop_first()) == 0);
                assert(warning_count(single) == 1);
            },
            OutputChunk::Other => {},
        }
    }
}

/// The events carry exactly these levels and messages, in this order.
pub open spec fn events_match(events: Seq<LogEvent>, expected: Seq<(LogLevel, Seq<char>)>) -> bool {
    &&& events.len() == expected.len()
    &&& forall|i: int|
        0 <= i < events.len() ==> (#[trigger] events[i]).is_event(expected[i].0, expected[i].1)
}

/// Run one relay generation over a whole chunk stream: the events it
/// would deliver, in order, and whether it observed termination.
pub fn relay_collect(chunks: &Vec<OutputChunk>) -> (r: (Vec<LogEvent>, bool))
    ensures
        events_match(r.0@, relay_log(chunks@)),
        r.1 == relay_stops(chunks@),
{
    let r = relay_collect_from(chunks, 0);
    proof {
        assert(chunks@.skip(0) =~= chunks@);
    }
    r
}

fn relay_collect_from(chunks: &Vec<OutputChunk>, i: usize) -> (r: (Vec<LogEvent>, bool))
    requires
        i <= chunks.len(),
    ensures
        events_match(r.0@, relay_log(chunks@.skip(i as int))),
        r.1 == relay_stops(chunks@.skip(i as int)),
    decreases chunks.len() - i,
{
    if i == chunks.len() {
        proof {
            assert(chunks@.skip(i as int) =~= Seq::<OutputChunk>::empty());
        }
        (Vec::new(), false)
    } else {
        proof {
            assert(chunks@.skip(i as int).drop_first() =~= chunks@.skip(i as int + 1));
            assert(chunks@.skip(i as int)[0] == chunks@[i as int]);
        }
        let step = relay_step(&chunks[i]);
        match step {
            RelayStep::Emit(e) => {
                let (mut events, stopped) = relay_collect_from(chunks, i + 1);
                events.insert(0, e);
                (events, stopped)
            },
            RelayStep::Finish(e) => {
                let mut events: Vec<LogEvent> = Vec::new();
                events.push(e);
                (events, true)
            },
            RelayStep::Skip => relay_collect_from(chunks, i + 1),
        }
    }
}

} // verus!
