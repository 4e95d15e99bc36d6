//! What holds of every run of the ingestion machine.
use vstd::prelude::*;
use crate::ingest::{
    Action, Event, Phase, RunConfig, actions, all_applied, decoded_count, next, one_fault_capture,
    pulled_while_running, raw_count, reached, run, state_ticks, ticks_at_least, ticks_at_most, ticks_ordered,
};

verus! {

proof fn lemma_prefix_ordered(evs: Seq<Event>)
    requires
        evs.len() > 0,
        ticks_ordered(evs),
    ensures
        ticks_ordered(evs.drop_last()),
{
    let p = evs.drop_last();
    assert forall|i: int, j: int|
        0 <= i < j < p.len() && #[trigger] p[i] is Decoded && #[trigger] p[j] is Decoded
            implies p[i]->tick <= p[j]->tick by {
        assert(p[i] == evs[i] && p[j] == evs[j]);
    }
}

/// The tick held between pulls never exceeds a bound on every tick seen.
proof fn lemma_last_tick_at_most(config: RunConfig, evs: Seq<Event>, bound: u32)
    requires
        ticks_at_most(evs, bound),
    ensures
        run(config, evs).last_tick <= bound,
    decreases evs.len(),
{
    if evs.len() > 0 {
        let p = evs.drop_last();
        assert forall|i: int| 0 <= i < p.len() && #[trigger] p[i] is Decoded implies p[i]->tick
            <= bound by {
            assert(p[i] == evs[i]);
        }
        lemma_last_tick_at_most(config, p, bound);
        assert(evs.last() == evs[evs.len() - 1]);
    }
}

/// Over ordered ticks, the state records carry strictly increasing ticks,
/// each at most the tick held between pulls.
proof fn lemma_state_ticks_shape(config: RunConfig, evs: Seq<Event>)
    requires
        ticks_ordered(evs),
    ensures
        forall|i: int, j: int|
            0 <= i < j < state_ticks(config, evs).len() ==> state_ticks(config, evs)[i]
                < state_ticks(config, evs)[j],
        forall|k: int|
            0 <= k < state_ticks(config, evs).len() ==> #[trigger] state_ticks(config, evs)[k]
                <= run(config, evs).last_tick,
    decreases evs.len(),
{
    if evs.len() > 0 {
        let p = evs.drop_last();
        let e = evs.last();
        lemma_prefix_ordered(evs);
        lemma_state_ticks_shape(config, p);
        lemma_config_kept(config, p);
        let before = run(config, p);
        if before.phase == Phase::Running && e is Decoded {
            let t = e->tick;
            assert(ticks_at_most(p, t)) by {
                assert forall|i: int| 0 <= i < p.len() && #[trigger] p[i] is Decoded implies p[i]->tick
                    <= t by {
                    assert(p[i] == evs[i]);
                    assert(evs[evs.len() - 1] == e);
                }
            }
            lemma_last_tick_at_most(config, p, t);
            let s0 = state_ticks(config, p);
            let s = state_ticks(config, evs);
            assert(run(config, evs).last_tick == t);
            if next(before, e).1.write_state {
                assert(t != before.last_tick);
                assert(s == s0.push(t));
                assert(s[s.len() - 1] == t);
                assert forall|k: int| 0 <= k < s0.len() implies s[k] == #[trigger] s0[k] && s0[k] < t by {}
            } else {
                assert(s == s0);
            }
        } else {
            assert(state_ticks(config, evs) == state_ticks(config, p));
            assert(run(config, evs).last_tick == before.last_tick);
        }
    }
}

/// The state records carry strictly increasing ticks, none repeated, as long
/// as the accumulator's ticks never go backwards.
pub proof fn lemma_state_ticks_increasing(config: RunConfig, evs: Seq<Event>)
    requires
        ticks_ordered(evs),
    ensures
        forall|i: int, j: int|
            0 <= i < j < state_ticks(config, evs).len() ==> state_ticks(config, evs)[i]
                < state_ticks(config, evs)[j],
{
    lemma_state_ticks_shape(config, evs);
}

/// The state records never carry a tick below a bound on every tick seen.
proof fn lemma_state_ticks_at_least(config: RunConfig, evs: Seq<Event>, first: u32)
    requires
        ticks_at_least(evs, first),
    ensures
        forall|k: int|
            0 <= k < state_ticks(config, evs).len() ==> #[trigger] state_ticks(config, evs)[k] >= first,
    decreases evs.len(),
{
    if evs.len() > 0 {
        let p = evs.drop_last();
        assert forall|i: int| 0 <= i < p.len() && #[trigger] p[i] is Decoded implies p[i]->tick
            >= first by {
            assert(p[i] == evs[i]);
        }
        lemma_state_ticks_at_least(config, p, first);
        assert(evs.last() == evs[evs.len() - 1]);
        let s0 = state_ticks(config, p);
        let s = state_ticks(config, evs);
        if next(run(config, p), evs.last()).1.write_state {
            assert(s == s0.push(run(config, evs).last_tick));
            assert forall|k: int| 0 <= k < s.len() implies #[trigger] s[k] >= first by {
                if k < s0.len() {
                    assert(s[k] == s0[k]);
                }
            }
        }
    }
}

/// A capture whose ticks all lie from `first` to `last` gets at most one
/// state record per tick of that span; with the header's tick count as the
/// span, at most that many.
pub proof fn lemma_state_records_bounded(config: RunConfig, evs: Seq<Event>, first: u32, last: u32)
    requires
        ticks_ordered(evs),
        ticks_at_least(evs, first),
        ticks_at_most(evs, last),
        first <= last,
    ensures
        state_ticks(config, evs).len() <= last - first + 1,
{
    lemma_state_ticks_shape(config, evs);
    lemma_state_ticks_at_least(config, evs, first);
    lemma_last_tick_at_most(config, evs, last);
    let s = state_ticks(config, evs);
    if s.len() > 0 {
        assert forall|k: int| 0 <= k < s.len() implies s[k] >= first + k by {
            lemma_increasing_from(s, first, k);
        }
        assert(s[s.len() - 1] >= first + s.len() - 1);
    }
}

proof fn lemma_increasing_from(s: Seq<u32>, first: u32, k: int)
    requires
        0 <= k < s.len(),
        forall|i: int, j: int| 0 <= i < j < s.len() ==> s[i] < s[j],
        forall|i: int| 0 <= i < s.len() ==> #[trigger] s[i] >= first,
    ensures
        s[k] >= first + k,
    decreases k,
{
    if k > 0 {
        lemma_increasing_from(s, first, k - 1);
        assert(s[k - 1] < s[k]);
    }
}

/// With the state channel on, a tick has a state record exactly when the
/// capture reaches it; with strictly increasing ticks this is one record per
/// distinct tick reached.
pub proof fn lemma_state_records_are_ticks_reached(config: RunConfig, evs: Seq<Event>)
    requires
        config.parse_state,
        ticks_ordered(evs),
        pulled_while_running(config, evs),
    ensures
        forall|t: u32| state_ticks(config, evs).contains(t) <==> reached(evs, t),
        run(config, evs).last_tick == 0 || state_ticks(config, evs).contains(run(config, evs).last_tick),
    decreases evs.len(),
{
    if evs.len() > 0 {
        let p = evs.drop_last();
        let e = evs.last();
        assert forall|i: int| 0 <= i < p.len() implies (#[trigger] run(config, p.take(i))).phase
            == Phase::Running by {
            assert(p.take(i) =~= evs.take(i));
            assert(run(config, evs.take(i)).phase == Phase::Running);
        }
        lemma_prefix_ordered(evs);
        lemma_state_records_are_ticks_reached(config, p);
        lemma_config_kept(config, p);
        assert(evs.take(evs.len() - 1) =~= p);
        let before = run(config, p);
        assert(before.phase == Phase::Running);
        assert(e == evs[evs.len() - 1]);
        let s0 = state_ticks(config, p);
        let s = state_ticks(config, evs);
        assert forall|t: u32| reached(evs, t) <==> (reached(p, t) || (t != 0 && e == (Event::Decoded { tick: t }))) by {
            if reached(evs, t) {
                let i = choose|i: int| 0 <= i < evs.len() && evs[i] == (Event::Decoded { tick: t });
                if i < p.len() {
                    assert(p[i] == evs[i]);
                }
            }
            if reached(p, t) {
                let i = choose|i: int| 0 <= i < p.len() && p[i] == (Event::Decoded { tick: t });
                assert(evs[i] == p[i]);
            }
        }
        if e is Decoded {
            let t = e->tick;
            assert(ticks_at_most(p, t)) by {
                assert forall|i: int| 0 <= i < p.len() && #[trigger] p[i] is Decoded implies p[i]->tick
                    <= t by {
                    assert(p[i] == evs[i]);
                }
            }
            lemma_last_tick_at_most(config, p, t);
            if t != before.last_tick {
                assert(s == s0.push(t));
                assert(s[s.len() - 1] == t);
                assert forall|x: u32| s.contains(x) <==> (s0.contains(x) || x == t) by {
                    if s.contains(x) {
                        let k = choose|k: int| 0 <= k < s.len() && s[k] == x;
                        if k < s0.len() {
                            assert(s0[k] == s[k]);
                        }
                    }
                    if s0.contains(x) {
                        let k = choose|k: int| 0 <= k < s0.len() && s0[k] == x;
                        assert(s[k] == s0[k]);
                    }
                }
            } else {
                assert(s == s0);
            }
        } else {
            assert(s == s0);
        }
    }
}

/// When the caller stops pulling once the run is over, the raw channel
/// holds one record per decoded packet when it is enabled, and none when it
/// is not; a decode fault adds no record.
pub proof fn lemma_raw_records_match_decoded(config: RunConfig, evs: Seq<Event>)
    requires
        pulled_while_running(config, evs),
    ensures
        raw_count(config, evs) == if config.parse_raw {
            decoded_count(evs)
        } else {
            0
        },
    decreases evs.len(),
{
    if evs.len() > 0 {
        let p = evs.drop_last();
        assert forall|i: int| 0 <= i < p.len() implies (#[trigger] run(config, p.take(i))).phase
            == Phase::Running by {
            assert(p.take(i) =~= evs.take(i));
            assert(run(config, evs.take(i)).phase == Phase::Running);
        }
        lemma_raw_records_match_decoded(config, p);
        lemma_config_kept(config, p);
        assert(evs.take(evs.len() - 1) =~= p);
        assert(run(config, evs.take(evs.len() - 1)).phase == Phase::Running);
    }
}

/// With the raw channel switched off, no raw record is ever written.
pub proof fn lemma_raw_disabled_writes_nothing(config: RunConfig, evs: Seq<Event>)
    requires
        !config.parse_raw,
    ensures
        raw_count(config, evs) == 0,
    decreases evs.len(),
{
    if evs.len() > 0 {
        lemma_raw_disabled_writes_nothing(config, evs.drop_last());
        lemma_config_kept(config, evs.drop_last());
    }
}

/// With the state channel switched off, no state record is written, and the
/// run goes exactly as it would with the channel on: the same phases, the
/// same ticks, the same raw records.
pub proof fn lemma_state_disabled(config: RunConfig, evs: Seq<Event>)
    requires
        !config.parse_state,
    ensures
        state_ticks(config, evs).len() == 0,
        run(config, evs).phase == run(RunConfig { parse_state: true, ..config }, evs).phase,
        run(config, evs).last_tick == run(RunConfig { parse_state: true, ..config }, evs).last_tick,
        raw_count(config, evs) == raw_count(RunConfig { parse_state: true, ..config }, evs),
    decreases evs.len(),
{
    if evs.len() > 0 {
        let on = RunConfig { parse_state: true, ..config };
        let p = evs.drop_last();
        lemma_state_disabled(config, p);
        lemma_runs_agree(config, on, p);
    }
}

proof fn lemma_config_kept(config: RunConfig, evs: Seq<Event>)
    ensures
        run(config, evs).config == config,
    decreases evs.len(),
{
    if evs.len() > 0 {
        lemma_config_kept(config, evs.drop_last());
    }
}

proof fn lemma_runs_agree(a: RunConfig, b: RunConfig, evs: Seq<Event>)
    requires
        a.fault_limit == b.fault_limit,
    ensures
        run(a, evs).consecutive_faults == run(b, evs).consecutive_faults,
        run(a, evs).phase == run(b, evs).phase,
        run(a, evs).last_tick == run(b, evs).last_tick,
        run(a, evs).config == a,
        run(b, evs).config == b,
    decreases evs.len(),
{
    if evs.len() > 0 {
        lemma_runs_agree(a, b, evs.drop_last());
    }
}

/// Applied packets keep a run going with no fault pending, and each adds a
/// raw record when that channel is on.
proof fn lemma_applied_run(config: RunConfig, evs: Seq<Event>)
    requires
        all_applied(evs),
    ensures
        run(config, evs).phase == Phase::Running,
        run(config, evs).consecutive_faults == 0,
        run(config, evs).config == config,
        raw_count(config, evs) == if config.parse_raw {
            evs.len()
        } else {
            0
        },
    decreases evs.len(),
{
    if evs.len() > 0 {
        let p = evs.drop_last();
        assert forall|i: int| 0 <= i < p.len() implies #[trigger] p[i] is Decoded by {
            assert(p[i] == evs[i]);
        }
        lemma_applied_run(config, p);
        assert(evs.last() == evs[evs.len() - 1]);
    }
}

proof fn lemma_after_fault(config: RunConfig, before: Seq<Event>, after: Seq<Event>, k: int)
    requires
        all_applied(before),
        all_applied(after),
        config.fault_limit >= 1,
        0 <= k <= after.len(),
    ensures
        run(config, before.push(Event::Fault) + after.take(k)).phase == Phase::Running,
        run(config, before.push(Event::Fault) + after.take(k)).config == config,
        raw_count(config, before.push(Event::Fault) + after.take(k)) == if config.parse_raw {
            before.len() + k
        } else {
            0
        },
    decreases k,
{
    let q = before.push(Event::Fault) + after.take(k);
    if k == 0 {
        lemma_applied_run(config, before);
        assert(q =~= before.push(Event::Fault));
        assert(q.drop_last() =~= before);
    } else {
        lemma_after_fault(config, before, after, k - 1);
        assert(q.drop_last() =~= before.push(Event::Fault) + after.take(k - 1));
        assert(q.last() == after[k - 1]);
    }
}

/// A capture with one corrupt packet between packets that decode is
/// recovered from: the run ends `Done`, the raw channel holds a record for
/// every packet but the corrupt one, and the fault itself is reported and
/// retried with nothing written for it.
pub proof fn lemma_one_fault_recovered(config: RunConfig, before: Seq<Event>, after: Seq<Event>)
    requires
        all_applied(before),
        all_applied(after),
        config.fault_limit >= 1,
    ensures
        run(config, one_fault_capture(before, after)).phase == Phase::Done,
        raw_count(config, one_fault_capture(before, after)) == if config.parse_raw {
            before.len() + after.len()
        } else {
            0
        },
        next(run(config, before), Event::Fault).1 == (Action {
            write_raw: false,
            write_state: false,
            report_fault: true,
            reset_cursor: true,
        }),
{
    let evs = one_fault_capture(before, after);
    lemma_applied_run(config, before);
    lemma_after_fault(config, before, after, after.len() as int);
    assert(after.take(after.len() as int) =~= after);
    assert(evs.drop_last() =~= before.push(Event::Fault) + after.take(after.len() as int));
    assert(evs.last() == Event::EndOfStream);
}

/// Replaying the same events under the same configuration asks for the same
/// actions and ends in the same state: a run depends on nothing else.
pub proof fn lemma_replay_identical(config: RunConfig, evs1: Seq<Event>, evs2: Seq<Event>)
    requires
        evs1 == evs2,
    ensures
        actions(config, evs1) == actions(config, evs2),
        run(config, evs1) == run(config, evs2),
{
}

} // verus!
