use vstd::prelude::*;
use crate::config::Config;
use crate::gate::{
    advanced, advanced_all, lemma_advanced_wf, lemma_recycled_placement, recycles, role_bias,
};
use crate::game::{command, next_state, state_wf, GameState, TickInput};

verus! {

/// One tick as the library sees it: the host's input and the height draws.
pub struct TickRecord {
    pub input: TickInput,
    pub draws: Seq<i64>,
}

/// Whether `ds` is one valid height draw for each of `n` gates.
pub open spec fn draws_ok(c: Config, ds: Seq<i64>, n: nat) -> bool {
    &&& ds.len() == n
    &&& forall|i: int| 0 <= i < ds.len() ==> c.valid_offset(#[trigger] ds[i])
}

/// Whether every tick of `ts` draws validly for `n` gates.
pub open spec fn run_ok(c: Config, ts: Seq<TickRecord>, n: nat) -> bool {
    forall|k: int| 0 <= k < ts.len() ==> draws_ok(c, #[trigger] ts[k].draws, n)
}

/// The state after the ticks of `ts`, in order.
pub open spec fn run(s: GameState, ts: Seq<TickRecord>) -> GameState
    decreases ts.len(),
{
    if ts.len() == 0 {
        s
    } else {
        next_state(run(s, ts.drop_last()), ts.last().input, ts.last().draws)
    }
}

/// A tick keeps the state usable, the configuration and the size of
/// the pool of gates.
pub proof fn lemma_tick_keeps_wf(s: GameState, input: TickInput, ds: Seq<i64>)
    requires
        state_wf(s),
        draws_ok(s.config, ds, s.gates.len()),
    ensures
        state_wf(next_state(s, input, ds)),
        next_state(s, input, ds).config == s.config,
        next_state(s, input, ds).gates.len() == s.gates.len(),
{
    let gs = advanced_all(s.config, s.gates, ds);
    assert forall|i: int| 0 <= i < gs.len() implies #[trigger] gs[i].wf() by {
        lemma_advanced_wf(s.config, s.gates[i], ds[i]);
    }
}

/// A run keeps the state usable, the configuration and the size of
/// the pool of gates.
pub proof fn lemma_run_keeps_wf(s: GameState, ts: Seq<TickRecord>)
    requires
        state_wf(s),
        run_ok(s.config, ts, s.gates.len()),
    ensures
        state_wf(run(s, ts)),
        run(s, ts).config == s.config,
        run(s, ts).gates.len() == s.gates.len(),
    decreases ts.len(),
{
    if ts.len() > 0 {
        let init = ts.drop_last();
        assert(run_ok(s.config, init, s.gates.len())) by {
            assert forall|k: int| 0 <= k < init.len() implies draws_ok(
                s.config,
                #[trigger] init[k].draws,
                s.gates.len(),
            ) by {
                assert(init[k] == ts[k]);
            }
        }
        lemma_run_keeps_wf(s, init);
        assert(draws_ok(s.config, ts[ts.len() - 1].draws, s.gates.len()));
        lemma_tick_keeps_wf(run(s, init), ts.last().input, ts.last().draws);
    }
}

/// While the run has not started, the player's vertical velocity is held at
/// zero, its gravity is switched off, nothing spins it, the gates stay where
/// they are, and it has neither died, hopped nor scored.
pub proof fn lemma_idle_holds_still(s: GameState, input: TickInput, ds: Seq<i64>, spin: i64)
    requires
        state_wf(s),
        draws_ok(s.config, ds, s.gates.len()),
        !next_state(s, input, ds).player.started,
    ensures
        command(s, input, spin).velocity_y == Some(0i64),
        command(s, input, spin).gravity_scale == 0,
        command(s, input, spin).angular_velocity.is_none(),
        next_state(s, input, ds).gates == s.gates,
        !next_state(s, input, ds).player.dead,
        next_state(s, input, ds).player.hops == 0,
        next_state(s, input, ds).player.score == 0,
{
}

/// The first jump input starts the run and makes the first hop on the same
/// tick.
pub proof fn lemma_first_jump_starts(s: GameState, input: TickInput, ds: Seq<i64>, spin: i64)
    requires
        state_wf(s),
        !s.player.started,
        input.jump,
    ensures
        s.player.hops == 0,
        next_state(s, input, ds).player.started,
        next_state(s, input, ds).player.hops == 1,
        command(s, input, spin).velocity_y == Some(s.config.jump_impulse),
{
}

/// Once the player is dead, jump input sets no velocity and counts no hop,
/// and the player stays dead, on every later tick.
pub proof fn lemma_dead_stays_dead(s: GameState, ts: Seq<TickRecord>)
    requires
        state_wf(s),
        s.player.dead,
    ensures
        run(s, ts).player.dead,
        run(s, ts).player.started,
        run(s, ts).player.hops == s.player.hops,
        forall|k: int, spin: i64|
            0 <= k < ts.len() ==> (#[trigger] command(run(s, ts.take(k)), ts[k].input, spin)).velocity_y.is_none(),
    decreases ts.len(),
{
    if ts.len() > 0 {
        lemma_dead_stays_dead(s, ts.drop_last());
        assert forall|k: int, spin: i64| 0 <= k < ts.len() implies (#[trigger] command(
            run(s, ts.take(k)),
            ts[k].input,
            spin,
        )).velocity_y.is_none() by {
            if k < ts.len() - 1 {
                assert(ts.take(k) =~= ts.drop_last().take(k));
                assert(ts[k] == ts.drop_last()[k]);
            } else {
                assert(ts.take(k) =~= ts.drop_last());
            }
        }
    }
}

/// The score never falls over any sequence of ticks.
pub proof fn lemma_score_never_drops(s: GameState, ts: Seq<TickRecord>)
    requires
        state_wf(s),
        run_ok(s.config, ts, s.gates.len()),
    ensures
        run(s, ts).player.score >= s.player.score,
    decreases ts.len(),
{
    if ts.len() > 0 {
        let init = ts.drop_last();
        assert(run_ok(s.config, init, s.gates.len())) by {
            assert forall|k: int| 0 <= k < init.len() implies draws_ok(
                s.config,
                #[trigger] init[k].draws,
                s.gates.len(),
            ) by {
                assert(init[k] == ts[k]);
            }
        }
        lemma_score_never_drops(s, init);
    }
}

/// On a started tick where a gate passes the left bound and is recycled, it reappears at the spawn edge, right
/// of the centre line, with its new height in the draw range shifted by its
/// role's bias.
pub proof fn lemma_recycled_gate(s: GameState, input: TickInput, ds: Seq<i64>, i: int)
    requires
        state_wf(s),
        draws_ok(s.config, ds, s.gates.len()),
        0 <= i < s.gates.len(),
        next_state(s, input, ds).player.started,
        recycles(s.config, s.gates[i].x as int),
    ensures
        next_state(s, input, ds).gates[i].x == s.config.spawn_x(),
        next_state(s, input, ds).gates[i].x > 0,
        s.config.offset_low + role_bias(s.config, s.gates[i].role)
            <= next_state(s, input, ds).gates[i].y,
        next_state(s, input, ds).gates[i].y
            <= s.config.offset_high + role_bias(s.config, s.gates[i].role),
{
    lemma_recycled_placement(s.config, s.gates[i], ds[i]);
    assert(next_state(s, input, ds).gates[i] == advanced(s.config, s.gates[i], ds[i]));
}

} // verus!
