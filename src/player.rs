use vstd::prelude::*;

verus! {

/// The single player: lifecycle flags, hop count, score and the position
/// last reported by the physics engine.
#[derive(Clone, Copy, Debug, PartialEq, Eq, Structural)]
pub struct Player {
    /// Gates passed while alive.
    pub score: i32,
    /// Hops issued.
    pub hops: i32,
    /// Set once by a collision or a roof breach, never cleared.
    pub dead: bool,
    /// Set by the first jump input, never cleared.
    pub started: bool,
    /// Horizontal position.
    pub x: i64,
    /// Vertical position.
    pub y: i64,
}

/// `v + 1`, held at `i32::MAX`.
pub open spec fn bump(v: i32) -> i32 {
    if v < i32::MAX {
        (v + 1) as i32
    } else {
        v
    }
}

/// `v + n`, held at `i32::MAX`.
pub open spec fn bump_by(v: i32, n: nat) -> i32 {
    if v + n <= i32::MAX {
        (v + n) as i32
    } else {
        i32::MAX
    }
}

/// The player after the jump input of one tick.
pub open spec fn jumped(p: Player, pressed: bool) -> Player {
    if pressed {
        Player {
            started: true,
            hops: if p.dead { p.hops } else { bump(p.hops) },
            ..p
        }
    } else {
        p
    }
}

/// The vertical velocity that the jump input of one tick writes, if any: the
/// impulse on a hop, zero while the run has not started.
pub open spec fn jump_velocity(p: Player, pressed: bool, impulse: i64) -> Option<i64> {
    if pressed && !p.dead {
        Some(impulse)
    } else if !pressed && !p.started {
        Some(0)
    } else {
        None
    }
}

/// Whether the player is in the running phase.
pub open spec fn active(p: Player) -> bool {
    p.started && !p.dead
}

/// The player after a death trigger: only a running player dies.
pub open spec fn killed(p: Player) -> Player {
    if active(p) {
        Player { dead: true, ..p }
    } else {
        p
    }
}

/// The spin written by a death trigger: only on the tick the player dies.
pub open spec fn kill_spin(p: Player, spin: i64) -> Option<i64> {
    if active(p) {
        Some(spin)
    } else {
        None
    }
}

impl Player {
    /// A player that has not started: no jump yet, so it cannot have died,
    /// hopped or scored.
    pub open spec fn wf(&self) -> bool {
        &&& self.score >= 0
        &&& self.hops >= 0
        &&& !self.started ==> (!self.dead && self.hops == 0 && self.score == 0)
    }

    /// A fresh player at `(x, y)`, waiting for its first jump.
    pub fn new(x: i64, y: i64) -> (p: Player)
        ensures
            p.wf(),
            p == (Player { score: 0, hops: 0, dead: false, started: false, x, y }),
    {
        Player { score: 0, hops: 0, dead: false, started: false, x, y }
    }

    /// Handles the jump input of one tick. A press starts the run and, unless
    /// the player is dead, replaces the vertical velocity with `impulse` and
    /// counts a hop. Before the run starts the vertical velocity is held at
    /// zero. Returns the vertical velocity to write, if any.
    pub fn jump(&mut self, pressed: bool, impulse: i64) -> (v: Option<i64>)
        requires
            old(self).wf(),
        ensures
            final(self).wf(),
            *final(self) == jumped(*old(self), pressed),
            v == jump_velocity(*old(self), pressed, impulse),
    {
        if pressed {
            self.started = true;
            if !self.dead {
                if self.hops < i32::MAX {
                    self.hops = self.hops + 1;
                }
                return Some(impulse);
            }
            None
        } else if !self.started {
            Some(0)
        } else {
            None
        }
    }

    /// The one death transition: a running player dies and gets `spin` as
    /// its angular velocity; an idle or dead player is left as it is.
    /// Returns the angular velocity to write, if any.
    pub fn die(&mut self, spin: i64) -> (w: Option<i64>)
        requires
            old(self).wf(),
        ensures
            final(self).wf(),
            *final(self) == killed(*old(self)),
            w == kill_spin(*old(self), spin),
    {
        if self.started && !self.dead {
            self.dead = true;
            Some(spin)
        } else {
            None
        }
    }

    /// Handles the collision events of one tick: any event is a death
    /// trigger.
    pub fn on_collisions(&mut self, events: u32, spin: i64) -> (w: Option<i64>)
        requires
            old(self).wf(),
        ensures
            final(self).wf(),
            *final(self) == if events > 0 { killed(*old(self)) } else { *old(self) },
            w == if events > 0 { kill_spin(*old(self), spin) } else { None },
    {
        if events > 0 {
            self.die(spin)
        } else {
            None
        }
    }

    /// The roof rule: a player at or above `roof` dies.
    pub fn check_roof(&mut self, roof: i64, spin: i64) -> (w: Option<i64>)
        requires
            old(self).wf(),
        ensures
            final(self).wf(),
            *final(self) == if old(self).y >= roof { killed(*old(self)) } else { *old(self) },
            w == if old(self).y >= roof { kill_spin(*old(self), spin) } else { None },
    {
        if self.y >= roof {
            self.die(spin)
        } else {
            None
        }
    }
}

} // verus!
