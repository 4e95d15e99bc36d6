//! The ingestion loop as a state machine.
//!
//! The caller pulls one packet at a time from the capture, applies it to the
//! state accumulator, and reports what happened as an [`Event`]. The machine
//! answers with an [`Action`]: which records to append, whether to report a
//! decode fault, and whether to clear the cursor's fault flags and pull again.
//! The caller keeps pulling while [`Ingest::is_running`] holds.
use vstd::prelude::*;

verus! {

/// Consecutive decode faults tolerated before a run stops with a partial
/// result; a cursor that cannot get past a corrupt region would otherwise
/// be retried forever.
pub const DEFAULT_FAULT_LIMIT: u32 = 64;

/// What a run writes, and how long it keeps retrying after decode faults.
#[derive(Clone, Copy, Debug, PartialEq, Eq, Structural)]
pub struct RunConfig {
    /// Append every decoded packet to the raw channel.
    pub parse_raw: bool,
    /// Append a state snapshot at every tick boundary.
    pub parse_state: bool,
    /// Consecutive decode faults that are retried; one more ends the run.
    pub fault_limit: u32,
}

impl RunConfig {
    /// The configuration for the two command-line switches: raw packets are
    /// written on request, state snapshots unless switched off.
    pub fn new(parse_raw: bool, dont_parse_gamestate: bool) -> (r: RunConfig)
        ensures
            r.parse_raw == parse_raw,
            r.parse_state == !dont_parse_gamestate,
            r.fault_limit == DEFAULT_FAULT_LIMIT,
    {
        RunConfig { parse_raw, parse_state: !dont_parse_gamestate, fault_limit: DEFAULT_FAULT_LIMIT }
    }
}

/// The result of one pull from the packet cursor.
#[derive(Clone, Copy, Debug, PartialEq, Eq, Structural)]
pub enum Event {
    /// A packet was decoded and applied; `tick` is the accumulator's tick
    /// after applying it.
    Decoded { tick: u32 },
    /// A packet was decoded, and the accumulator rejected it. Its raw record
    /// is still written; the run then aborts.
    Rejected,
    /// A packet could not be decoded.
    Fault,
    /// The stream ended cleanly.
    EndOfStream,
}

/// Where a run stands.
#[derive(Clone, Copy, Debug, PartialEq, Eq, Structural)]
pub enum Phase {
    /// Packets are still being pulled.
    Running,
    /// The stream ended cleanly.
    Done,
    /// Too many decode faults came in a row: the run stopped, and what was
    /// written so far is a partial result.
    Partial,
    /// The accumulator rejected a packet: the run is aborted.
    Failed,
}

/// What the caller does after reporting an event.
#[derive(Clone, Copy, Debug, PartialEq, Eq, Structural)]
pub struct Action {
    /// Append the packet just decoded to the raw channel.
    pub write_raw: bool,
    /// Append the accumulator's current state to the state channel, and
    /// advance the progress count by one.
    pub write_state: bool,
    /// Print a diagnostic line for the decode fault.
    pub report_fault: bool,
    /// Clear the cursor's fault flags before the next pull.
    pub reset_cursor: bool,
}

/// The loop's state between two pulls.
#[derive(Clone, Copy, Debug, PartialEq, Eq, Structural)]
pub struct Ingest {
    pub config: RunConfig,
    pub phase: Phase,
    /// The tick seen after the last applied packet; zero before the first.
    pub last_tick: u32,
    /// Decode faults since the last packet that decoded.
    pub consecutive_faults: u32,
}

pub open spec fn idle() -> Action {
    Action { write_raw: false, write_state: false, report_fault: false, reset_cursor: false }
}

/// The state in which a run starts.
pub open spec fn start(config: RunConfig) -> Ingest {
    Ingest { config, phase: Phase::Running, last_tick: 0, consecutive_faults: 0 }
}

/// One transition: the next state and the action for event `e`. Once the run
/// has left `Running`, events change nothing and ask for nothing.
pub open spec fn next(s: Ingest, e: Event) -> (Ingest, Action) {
    if s.phase != Phase::Running {
        (s, idle())
    } else {
        match e {
            Event::Decoded { tick } => (
                Ingest { last_tick: tick, consecutive_faults: 0, ..s },
                Action {
                    write_raw: s.config.parse_raw,
                    write_state: s.config.parse_state && tick != s.last_tick,
                    report_fault: false,
                    reset_cursor: false,
                },
            ),
            Event::Rejected => (
                Ingest { phase: Phase::Failed, ..s },
                Action { write_raw: s.config.parse_raw, ..idle() },
            ),
            Event::EndOfStream => (Ingest { phase: Phase::Done, ..s }, idle()),
            Event::Fault => if s.consecutive_faults < s.config.fault_limit {
                (
                    Ingest { consecutive_faults: (s.consecutive_faults + 1) as u32, ..s },
                    Action { report_fault: true, reset_cursor: true, ..idle() },
                )
            } else {
                (Ingest { phase: Phase::Partial, ..s }, Action { report_fault: true, ..idle() })
            },
        }
    }
}

/// The state after the events `evs`, from the start.
pub open spec fn run(config: RunConfig, evs: Seq<Event>) -> Ingest
    decreases evs.len(),
{
    if evs.len() == 0 {
        start(config)
    } else {
        next(run(config, evs.drop_last()), evs.last()).0
    }
}

/// The action for each of the events `evs`, from the start.
pub open spec fn actions(config: RunConfig, evs: Seq<Event>) -> Seq<Action>
    decreases evs.len(),
{
    if evs.len() == 0 {
        seq![]
    } else {
        actions(config, evs.drop_last()).push(next(run(config, evs.drop_last()), evs.last()).1)
    }
}

/// The tick of each state record written over the events `evs`, in order.
pub open spec fn state_ticks(config: RunConfig, evs: Seq<Event>) -> Seq<u32>
    decreases evs.len(),
{
    if evs.len() == 0 {
        seq![]
    } else {
        let earlier = state_ticks(config, evs.drop_last());
        if next(run(config, evs.drop_last()), evs.last()).1.write_state {
            earlier.push(run(config, evs).last_tick)
        } else {
            earlier
        }
    }
}

/// How many raw records are written over the events `evs`.
pub open spec fn raw_count(config: RunConfig, evs: Seq<Event>) -> nat
    decreases evs.len(),
{
    if evs.len() == 0 {
        0
    } else {
        raw_count(config, evs.drop_last()) + if next(run(config, evs.drop_last()), evs.last()).1.write_raw {
            1nat
        } else {
            0nat
        }
    }
}

/// How many of the events `evs` are packets that decoded, whether or not the
/// accumulator took them.
pub open spec fn decoded_count(evs: Seq<Event>) -> nat
    decreases evs.len(),
{
    if evs.len() == 0 {
        0
    } else {
        decoded_count(evs.drop_last()) + if evs.last() is Decoded || evs.last() is Rejected {
            1nat
        } else {
            0nat
        }
    }
}

/// Every event was pulled while the run was still going, as the caller's
/// loop does.
pub open spec fn pulled_while_running(config: RunConfig, evs: Seq<Event>) -> bool {
    forall|i: int| 0 <= i < evs.len() ==> (#[trigger] run(config, evs.take(i))).phase == Phase::Running
}

/// Every event of `evs` is a packet that decoded and was applied.
pub open spec fn all_applied(evs: Seq<Event>) -> bool {
    forall|i: int| 0 <= i < evs.len() ==> #[trigger] evs[i] is Decoded
}

/// A capture with one corrupt packet: the packets `before`, a decode fault,
/// the packets `after`, and the end of the stream.
pub open spec fn one_fault_capture(before: Seq<Event>, after: Seq<Event>) -> Seq<Event> {
    before.push(Event::Fault) + after.push(Event::EndOfStream)
}

/// Tick `t` is reached by the events `evs`: some applied packet left the
/// accumulator there, and it is past the start.
pub open spec fn reached(evs: Seq<Event>, t: u32) -> bool {
    t != 0 && exists|i: int| 0 <= i < evs.len() && evs[i] == (Event::Decoded { tick: t })
}

/// The accumulator's ticks never go backwards over the events `evs`.
pub open spec fn ticks_ordered(evs: Seq<Event>) -> bool {
    forall|i: int, j: int|
        0 <= i < j < evs.len() && #[trigger] evs[i] is Decoded && #[trigger] evs[j] is Decoded
            ==> evs[i]->tick <= evs[j]->tick
}

/// Every tick of the events `evs` is at least `bound`.
pub open spec fn ticks_at_least(evs: Seq<Event>, bound: u32) -> bool {
    forall|i: int| 0 <= i < evs.len() && #[trigger] evs[i] is Decoded ==> evs[i]->tick >= bound
}

/// Every tick of the events `evs` is at most `bound`.
pub open spec fn ticks_at_most(evs: Seq<Event>, bound: u32) -> bool {
    forall|i: int| 0 <= i < evs.len() && #[trigger] evs[i] is Decoded ==> evs[i]->tick <= bound
}

impl Ingest {
    /// A run that has pulled nothing yet.
    pub fn new(config: RunConfig) -> (r: Ingest)
        ensures
            r == start(config),
    {
        Ingest { config, phase: Phase::Running, last_tick: 0, consecutive_faults: 0 }
    }

    /// Whether the caller should pull another packet.
    pub fn is_running(&self) -> (r: bool)
        ensures
            r == (self.phase == Phase::Running),
    {
        match self.phase {
            Phase::Running => true,
            _ => false,
        }
    }

    /// Takes in the result of one pull and says what to do about it.
    pub fn on_event(&mut self, e: Event) -> (a: Action)
        ensures
            (*final(self), a) == next(*old(self), e),
    {
        if !self.is_running() {
            return Action { write_raw: false, write_state: false, report_fault: false, reset_cursor: false };
        }
        match e {
            Event::Decoded { tick } => {
                let boundary = tick != self.last_tick;
                self.last_tick = tick;
                self.consecutive_faults = 0;
                Action {
                    write_raw: self.config.parse_raw,
                    write_state: self.config.parse_state && boundary,
                    report_fault: false,
                    reset_cursor: false,
                }
            },
            Event::Rejected => {
                self.phase = Phase::Failed;
                Action {
                    write_raw: self.config.parse_raw,
                    write_state: false,
                    report_fault: false,
                    reset_cursor: false,
                }
            },
            Event::EndOfStream => {
                self.phase = Phase::Done;
                Action { write_raw: false, write_state: false, report_fault: false, reset_cursor: false }
            },
            Event::Fault => {
                if self.consecutive_faults < self.config.fault_limit {
                    self.consecutive_faults = self.consecutive_faults + 1;
                    Action { write_raw: false, write_state: false, report_fault: true, reset_cursor: true }
                } else {
                    self.phase = Phase::Partial;
                    Action { write_raw: false, write_state: false, report_fault: true, reset_cursor: false }
                }
            },
        }
    }
}

/// Runs a fresh machine over recorded events, and returns its final state
/// and the action for each event.
pub fn replay(config: RunConfig, events: &Vec<Event>) -> (r: (Ingest, Vec<Action>))
    ensures
        r.0 == run(config, events@),
        r.1@ == actions(config, events@),
{
    let mut st = Ingest::new(config);
    let mut acts: Vec<Action> = Vec::new();
    let mut i: usize = 0;
    while i < events.len()
        invariant
            i <= events@.len(),
            st == run(config, events@.take(i as int)),
            acts@ == actions(config, events@.take(i as int)),
        decreases events@.len() - i,
    {
        let ghost before = events@.take(i as int);
        assert(events@.take(i as int + 1).drop_last() =~= before);
        let a = st.on_event(events[i]);
        acts.push(a);
        i = i + 1;
    }
    assert(events@.take(i as int) =~= events@);
    (st, acts)
}

} // verus!
