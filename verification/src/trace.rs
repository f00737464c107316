//! Runs of the bridge over sequences of events, and what holds of whole
//! iterations of the loop.

use vstd::prelude::*;
use crate::acceleration::{
    advance_spec, lemma_advance_keeps_velocity, lemma_sustained_from_rest, ramp, sustained,
};
use crate::bridge::{Action, BridgeState, Event, Link, Phase, POST_SEND_DELAY_MS};
use crate::decoder::{decode_spec, Direction};
use crate::report::report_spec;

verus! {

/// The state that `events` lead to from `state`, taken one after the other,
/// or `None` if one of them is no outcome of the action pending at its turn.
pub open spec fn run(state: BridgeState, events: Seq<Event>) -> Option<BridgeState>
    decreases events.len(),
{
    if events.len() == 0 {
        Some(state)
    } else {
        match run(state, events.drop_last()) {
            Some(before) => before.step(events.last()),
            None => None,
        }
    }
}

/// The actions that the bridge asks for in answer to `events`, one for each
/// event up to the first that it does not take.
pub open spec fn requests(state: BridgeState, events: Seq<Event>) -> Seq<Action>
    decreases events.len(),
{
    if events.len() == 0 {
        Seq::empty()
    } else {
        let earlier = requests(state, events.drop_last());
        match run(state, events) {
            Some(after) => earlier.push(after.pending()),
            None => earlier,
        }
    }
}

/// The events of `rounds` iterations without a peer: the answer to the
/// query, then the end of the sleep.
pub open spec fn idle_events(rounds: nat) -> Seq<Event>
    decreases rounds,
{
    if rounds == 0 {
        Seq::empty()
    } else {
        idle_events((rounds - 1) as nat).push(Event::Connection(false)).push(Event::Done)
    }
}

/// The actions of `rounds` iterations without a peer: the sleep, then the
/// next query.
pub open spec fn idle_requests(rounds: nat, response_time: u32) -> Seq<Action>
    decreases rounds,
{
    if rounds == 0 {
        Seq::empty()
    } else {
        idle_requests((rounds - 1) as nat, response_time).push(Action::Sleep(response_time)).push(
            Action::QueryConnection,
        )
    }
}

/// The events of a sampling sequence in which the data line shows `levels`:
/// the end of a pulse, then the level read, for each position.
pub open spec fn shift_events(levels: Seq<bool>) -> Seq<Event>
    decreases levels.len(),
{
    if levels.len() == 0 {
        Seq::empty()
    } else {
        shift_events(levels.drop_last()).push(Event::Done).push(Event::Level(levels.last()))
    }
}

/// The actions of a sampling sequence of `positions` positions, after the
/// latch pulse: a read of the data line, then a clock pulse, for each.
pub open spec fn shift_requests(positions: nat) -> Seq<Action>
    decreases positions,
{
    if positions == 0 {
        Seq::empty()
    } else {
        shift_requests((positions - 1) as nat).push(Action::ReadData).push(Action::PulseClock)
    }
}

/// The events of one iteration with a peer, in which the data line shows
/// `levels`: the answer to the query, the sampling sequence, and the ends of
/// the last clock pulse, of the hand-over, of the wait after it and of the
/// sleep.
pub open spec fn active_events(levels: Seq<bool>) -> Seq<Event> {
    seq![Event::Connection(true)] + shift_events(levels) + seq![
        Event::Done,
        Event::Done,
        Event::Done,
        Event::Done,
    ]
}

/// The state at the end of an iteration with a peer that began in `state`
/// and sampled `levels`.
pub open spec fn after_active(state: BridgeState, levels: Seq<bool>) -> BridgeState {
    let (buttons, dir_x, dir_y) = decode_spec(levels);
    BridgeState {
        link: Link::Active,
        phase: Phase::Query,
        levels,
        buttons,
        x: advance_spec(state.x, dir_x),
        y: advance_spec(state.y, dir_y),
        response_time: state.response_time,
    }
}

/// The actions of one iteration with a peer that began in `state` and
/// sampled `levels`, after the query: the latch pulse, a read and a clock
/// pulse for each position, the report of the new state, the wait after it,
/// the sleep, and the query of the next iteration.
pub open spec fn active_requests(state: BridgeState, levels: Seq<bool>) -> Seq<Action> {
    let after = after_active(state, levels);
    seq![Action::PulseLatch] + shift_requests(levels.len()) + seq![
        Action::Send(report_spec(after.buttons, after.x, after.y)),
        Action::Pace(POST_SEND_DELAY_MS),
        Action::Sleep(state.response_time),
        Action::QueryConnection,
    ]
}

/// One more event moves a run one step on.
pub proof fn lemma_run_push(state: BridgeState, events: Seq<Event>, event: Event)
    ensures
        run(state, events.push(event)) == match run(state, events) {
            Some(before) => before.step(event),
            None => None,
        },
        requests(state, events.push(event)) == match run(state, events.push(event)) {
            Some(after) => requests(state, events).push(after.pending()),
            None => requests(state, events),
        },
{
    assert(events.push(event).drop_last() =~= events);
}

/// A run over two sequences in a row is the run over the second from where
/// the first has led.
pub proof fn lemma_run_concat(state: BridgeState, first: Seq<Event>, second: Seq<Event>)
    ensures
        run(state, first + second) == match run(state, first) {
            Some(between) => run(between, second),
            None => None,
        },
        run(state, first) matches Some(between) ==> requests(state, first + second) == requests(
            state,
            first,
        ) + requests(between, second),
    decreases second.len(),
{
    if second.len() > 0 {
        let shorter = second.drop_last();
        lemma_run_concat(state, first, shorter);
        assert(first + second =~= (first + shorter).push(second.last()));
        lemma_run_push(state, first + shorter, second.last());
        if let Some(between) = run(state, first) {
            lemma_run_push(between, shorter, second.last());
        }
    }
}

/// While no peer is connected, any number of iterations asks for nothing but
/// sleeps and queries, and leaves the buttons and both axes as they were: at
/// the head of the next iteration the bridge is in the state in which it
/// began, with the link idle.
pub proof fn lemma_idle_rounds_hold_state(state: BridgeState, rounds: nat)
    requires
        state.phase == Phase::Query,
    ensures
        run(state, idle_events(rounds)) == Some(
            if rounds == 0 {
                state
            } else {
                BridgeState { link: Link::Idle, ..state }
            },
        ),
        requests(state, idle_events(rounds)) == idle_requests(rounds, state.response_time),
    decreases rounds,
{
    if rounds > 0 {
        let earlier = idle_events((rounds - 1) as nat);
        lemma_idle_rounds_hold_state(state, (rounds - 1) as nat);
        lemma_run_push(state, earlier, Event::Connection(false));
        lemma_run_push(state, earlier.push(Event::Connection(false)), Event::Done);
    }
}

/// No iteration without a peer asks for a report to be sent.
pub proof fn lemma_idle_rounds_send_nothing(rounds: nat, response_time: u32, k: int)
    requires
        0 <= k < idle_requests(rounds, response_time).len(),
    ensures
        !(idle_requests(rounds, response_time)[k] is Send),
    decreases rounds,
{
    if rounds > 0 {
        let earlier = idle_requests((rounds - 1) as nat, response_time);
        if k < earlier.len() {
            lemma_idle_rounds_send_nothing((rounds - 1) as nat, response_time, k);
        }
    }
}

/// A sampling sequence, begun after the latch pulse or after a clock pulse,
/// appends the levels of the data line in the order in which they are read,
/// and asks for a read and a clock pulse for each.
pub proof fn lemma_shift_collects_levels(state: BridgeState, levels: Seq<bool>)
    requires
        state.phase == Phase::Latch || state.phase == Phase::Clock,
        state.levels.len() + levels.len() <= 8,
    ensures
        run(state, shift_events(levels)) == Some(
            BridgeState {
                phase: if levels.len() == 0 {
                    state.phase
                } else {
                    Phase::Clock
                },
                levels: state.levels + levels,
                ..state
            },
        ),
        requests(state, shift_events(levels)) == shift_requests(levels.len()),
    decreases levels.len(),
{
    if levels.len() > 0 {
        let shorter = levels.drop_last();
        let earlier = shift_events(shorter);
        lemma_shift_collects_levels(state, shorter);
        lemma_run_push(state, earlier, Event::Done);
        lemma_run_push(state, earlier.push(Event::Done), Event::Level(levels.last()));
        assert((state.levels + shorter).push(levels.last()) =~= state.levels + levels);
    }
}

/// One iteration with a peer pulses the latch, reads each of the eight
/// positions before the clock pulse that follows it, and sends one report:
/// that of the buttons which the frame shows and of each axis one tick on
/// from where the iteration found it. Then it waits, sleeps, and stands at
/// the head of the next iteration.
pub proof fn lemma_active_iteration(state: BridgeState, levels: Seq<bool>)
    requires
        state.phase == Phase::Query,
        levels.len() == 8,
    ensures
        run(state, active_events(levels)) == Some(after_active(state, levels)),
        requests(state, active_events(levels)) == active_requests(state, levels),
{
    let head = seq![Event::Connection(true)];
    let tail = seq![Event::Done, Event::Done, Event::Done, Event::Done];
    let latched = BridgeState {
        link: Link::Active,
        phase: Phase::Latch,
        levels: Seq::empty(),
        ..state
    };
    let shifted = BridgeState { phase: Phase::Clock, levels, ..latched };

    lemma_run_push(state, Seq::empty(), Event::Connection(true));
    lemma_shift_collects_levels(latched, levels);
    lemma_run_concat(state, head, shift_events(levels));

    let one = Seq::<Event>::empty().push(Event::Done);
    let two = one.push(Event::Done);
    let three = two.push(Event::Done);
    lemma_run_push(shifted, Seq::empty(), Event::Done);
    lemma_run_push(shifted, one, Event::Done);
    lemma_run_push(shifted, two, Event::Done);
    lemma_run_push(shifted, three, Event::Done);
    assert(tail =~= three.push(Event::Done));
    lemma_run_concat(state, head + shift_events(levels), tail);
}

/// The first iteration after a reconnection goes on from what was held when
/// the peer went away: it ends as it would have ended, and sends what it
/// would have sent, had the iterations without a peer not been.
pub proof fn lemma_reconnection_resumes(state: BridgeState, rounds: nat, levels: Seq<bool>)
    requires
        state.phase == Phase::Query,
        levels.len() == 8,
    ensures
        run(state, idle_events(rounds) + active_events(levels)) == run(
            state,
            active_events(levels),
        ),
        requests(state, idle_events(rounds) + active_events(levels)) == idle_requests(
            rounds,
            state.response_time,
        ) + requests(state, active_events(levels)),
{
    let waited = if rounds == 0 {
        state
    } else {
        BridgeState { link: Link::Idle, ..state }
    };
    lemma_idle_rounds_hold_state(state, rounds);
    lemma_run_concat(state, idle_events(rounds), active_events(levels));
    lemma_active_iteration(state, levels);
    lemma_active_iteration(waited, levels);
}

/// The events of `iterations` iterations with a peer, each of which samples
/// `levels`.
pub open spec fn held_events(levels: Seq<bool>, iterations: nat) -> Seq<Event>
    decreases iterations,
{
    if iterations == 0 {
        Seq::empty()
    } else {
        held_events(levels, (iterations - 1) as nat) + active_events(levels)
    }
}

/// A frame held over several iterations moves each axis one tick on in every
/// iteration, in the direction that the frame shows for it. An axis that was
/// at rest and is pushed reaches the magnitude `min(4 * 2^(n - 1), 64)` in
/// iteration `n`.
pub proof fn lemma_held_frame_accelerates(state: BridgeState, levels: Seq<bool>, iterations: nat)
    requires
        state.phase == Phase::Query,
        levels.len() == 8,
        iterations >= 1,
    ensures
        run(state, held_events(levels, iterations)) == Some(
            BridgeState {
                x: sustained(state.x, decode_spec(levels).1, iterations),
                y: sustained(state.y, decode_spec(levels).2, iterations),
                ..after_active(state, levels)
            },
        ),
        state.x == 0 && decode_spec(levels).1 != Direction::Neutral ==> sustained(
            state.x,
            decode_spec(levels).1,
            iterations,
        ) == decode_spec(levels).1.sign() * ramp(iterations),
        state.y == 0 && decode_spec(levels).2 != Direction::Neutral ==> sustained(
            state.y,
            decode_spec(levels).2,
            iterations,
        ) == decode_spec(levels).2.sign() * ramp(iterations),
    decreases iterations,
{
    let (_, dir_x, dir_y) = decode_spec(levels);
    if dir_x != Direction::Neutral {
        lemma_sustained_from_rest(dir_x, iterations);
    }
    if dir_y != Direction::Neutral {
        lemma_sustained_from_rest(dir_y, iterations);
    }
    let earlier = held_events(levels, (iterations - 1) as nat);
    if iterations == 1 {
        lemma_active_iteration(state, levels);
    } else {
        lemma_held_frame_accelerates(state, levels, (iterations - 1) as nat);
        let between = run(state, earlier).unwrap();
        lemma_run_concat(state, earlier, active_events(levels));
        lemma_active_iteration(between, levels);
    }
}

/// Whatever the events, the bridge stays in a state that it can be in: each
/// axis holds rest or a speed, and no sampling sequence reads more than a
/// frame.
pub proof fn lemma_step_keeps_well_formed(state: BridgeState, event: Event)
    requires
        state.well_formed(),
    ensures
        state.step(event) matches Some(after) ==> after.well_formed(),
        BridgeState::initial(state.response_time).well_formed(),
{
    let (_, dir_x, dir_y) = decode_spec(state.levels);
    lemma_advance_keeps_velocity(state.x, dir_x);
    lemma_advance_keeps_velocity(state.y, dir_y);
}

} // verus!
