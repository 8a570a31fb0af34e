use vstd::prelude::*;
use crate::chance::{draw_offsets, draw_spin, valid_draws};
use crate::config::{classic_config, Config};
use crate::gate::{advance_all, advanced_all, count_crossings, crossings, Gate, Role};
use crate::player::{active, bump_by, jump_velocity, jumped, killed, Player};

verus! {

/// What the host reports for one tick.
#[derive(Clone, Copy, Debug, PartialEq, Eq, Structural)]
pub struct TickInput {
    /// The jump key went down since the last tick.
    pub jump: bool,
    /// Collision-start events reported for the player since the last tick.
    pub collisions: u32,
    /// The player's horizontal position after the physics step.
    pub player_x: i64,
    /// The player's vertical position after the physics step.
    pub player_y: i64,
}

/// What the host writes to the player's body after a tick.
#[derive(Clone, Copy, Debug, PartialEq, Eq, Structural)]
pub struct BodyCommand {
    /// New vertical velocity, if one is set.
    pub velocity_y: Option<i64>,
    /// New angular velocity, if one is set.
    pub angular_velocity: Option<i64>,
    /// Gravity scale of the body: zero until the run starts.
    pub gravity_scale: i64,
}

/// The game as a mathematical value.
pub struct GameState {
    pub config: Config,
    pub player: Player,
    pub gates: Seq<Gate>,
}

/// The simulation root: the configuration, the single player and the fixed
/// pool of gates.
pub struct Game {
    pub config: Config,
    pub player: Player,
    pub gates: Vec<Gate>,
}

impl View for Game {
    type V = GameState;

    open spec fn view(&self) -> GameState {
        GameState { config: self.config, player: self.player, gates: self.gates@ }
    }
}

/// The state is usable: a usable configuration and player, and every gate
/// within bounds.
pub open spec fn state_wf(s: GameState) -> bool {
    &&& s.config.wf()
    &&& s.player.wf()
    &&& forall|i: int| 0 <= i < s.gates.len() ==> #[trigger] s.gates[i].wf()
}

/// The player after scoring against gates `gs`: a running player gains one
/// point per top gate at its horizontal position.
pub open spec fn scored(p: Player, gs: Seq<Gate>) -> Player {
    if active(p) {
        Player { score: bump_by(p.score, crossings(p.x, gs)), ..p }
    } else {
        p
    }
}

/// The player after its jump input and the new position of the tick.
pub open spec fn moved_player(s: GameState, input: TickInput) -> Player {
    Player { x: input.player_x, y: input.player_y, ..jumped(s.player, input.jump) }
}

/// Whether the player dies on this tick, by a collision or the roof.
pub open spec fn dies(s: GameState, input: TickInput) -> bool {
    let p = moved_player(s, input);
    active(p) && (input.collisions > 0 || p.y >= s.config.roof)
}

/// The state after one tick: jump, new position, collisions, roof, gates
/// (only once started, gate `i` with draw `ds[i]`), then scoring.
pub open spec fn next_state(s: GameState, input: TickInput, ds: Seq<i64>) -> GameState {
    let p = moved_player(s, input);
    let p = if input.collisions > 0 { killed(p) } else { p };
    let p = if p.y >= s.config.roof { killed(p) } else { p };
    let gs = if p.started { advanced_all(s.config, s.gates, ds) } else { s.gates };
    GameState { config: s.config, player: scored(p, gs), gates: gs }
}

/// What the host writes to the player's body after one tick.
pub open spec fn command(s: GameState, input: TickInput, spin: i64) -> BodyCommand {
    BodyCommand {
        velocity_y: jump_velocity(s.player, input.jump, s.config.jump_impulse),
        angular_velocity: if dies(s, input) { Some(spin) } else { None },
        gravity_scale: if jumped(s.player, input.jump).started { s.config.gravity_scale } else { 0 },
    }
}

/// Gives the player the points for the top gates at its position, if it is
/// running.
pub fn score_gates(p: &mut Player, gates: &Vec<Gate>)
    requires
        old(p).wf(),
    ensures
        final(p).wf(),
        *final(p) == scored(*old(p), gates@),
{
    if p.started && !p.dead {
        let n = count_crossings(p.x, gates);
        if n <= (i32::MAX - p.score) as u64 {
            p.score = p.score + n as i32;
        } else {
            p.score = i32::MAX;
        }
    }
}

impl Game {
    pub open spec fn wf(&self) -> bool {
        state_wf(self@)
    }

    /// A game from its parts.
    pub fn new(config: Config, player: Player, gates: Vec<Gate>) -> (g: Game)
        requires
            state_wf(GameState { config, player, gates: gates@ }),
        ensures
            g.wf(),
            g@ == (GameState { config, player, gates: gates@ }),
    {
        Game { config, player, gates }
    }

    /// The classic layout: a fresh player at `(0, 100)` and two lanes, each a
    /// bottom gate at height -50 and a top gate at height 250, at x = 200 and
    /// x = 400.
    pub fn classic() -> (g: Game)
        ensures
            g.wf(),
            g.config == classic_config(),
            g.player == (Player { score: 0, hops: 0, dead: false, started: false, x: 0, y: 100 }),
            g.gates@ == seq![
                Gate { role: Role::Bottom, x: 200, y: -50i64 },
                Gate { role: Role::Top, x: 200, y: 250 },
                Gate { role: Role::Bottom, x: 400, y: -50i64 },
                Gate { role: Role::Top, x: 400, y: 250 },
            ],
    {
        let mut gates: Vec<Gate> = Vec::new();
        gates.push(Gate::new(Role::Bottom, 200, -50));
        gates.push(Gate::new(Role::Top, 200, 250));
        gates.push(Gate::new(Role::Bottom, 400, -50));
        gates.push(Gate::new(Role::Top, 400, 250));
        let g = Game { config: Config::classic(), player: Player::new(0, 100), gates };
        assert(g.gates@ =~= seq![
            Gate { role: Role::Bottom, x: 200, y: -50i64 },
            Gate { role: Role::Top, x: 200, y: 250 },
            Gate { role: Role::Bottom, x: 400, y: -50i64 },
            Gate { role: Role::Top, x: 400, y: 250 },
        ]);
        g
    }

    /// Runs one tick with the given height draws (gate `i` takes `ds[i]`
    /// if it is recycled) and death spin, and returns what to write to the
    /// player's body.
    pub fn step(&mut self, input: TickInput, ds: &Vec<i64>, spin: i64) -> (cmd: BodyCommand)
        requires
            old(self).wf(),
            ds.len() == old(self).gates.len(),
            forall|i: int| 0 <= i < ds.len() ==> old(self).config.valid_offset(#[trigger] ds[i]),
        ensures
            final(self).wf(),
            final(self)@ == next_state(old(self)@, input, ds@),
            cmd == command(old(self)@, input, spin),
    {
        let velocity_y = self.player.jump(input.jump, self.config.jump_impulse);
        self.player.x = input.player_x;
        self.player.y = input.player_y;
        let hit = self.player.on_collisions(input.collisions, spin);
        let roofed = self.player.check_roof(self.config.roof, spin);
        let angular_velocity = if hit.is_some() { hit } else { roofed };
        if self.player.started {
            self.gates = advance_all(&self.config, &self.gates, ds);
        }
        score_gates(&mut self.player, &self.gates);
        let gravity_scale = if self.player.started { self.config.gravity_scale } else { 0 };
        BodyCommand { velocity_y, angular_velocity, gravity_scale }
    }

    /// Runs one tick with fresh random draws for recycled heights and the
    /// death spin.
    pub fn tick(&mut self, input: TickInput) -> (cmd: BodyCommand)
        requires
            old(self).wf(),
        ensures
            final(self).wf(),
            exists|ds: Seq<i64>, spin: i64|
                #![trigger next_state(old(self)@, input, ds), command(old(self)@, input, spin)]
                valid_draws(old(self).config, ds, old(self).gates.len() as nat)
                && old(self).config.valid_spin(spin)
                && final(self)@ == next_state(old(self)@, input, ds)
                && cmd == command(old(self)@, input, spin),
    {
        let ds = draw_offsets(&self.config, self.gates.len());
        let spin = draw_spin(&self.config);
        let cmd = self.step(input, &ds, spin);
        cmd
    }
}

} // verus!
