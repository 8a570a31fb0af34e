use vstd::prelude::*;
use crate::config::{Config, COORD_LIMIT};

verus! {

/// Which half of a lane a gate is.
#[derive(Clone, Copy, Debug, PartialEq, Eq, Structural)]
pub enum Role {
    Top,
    Bottom,
}

/// One obstacle body of the fixed pool.
#[derive(Clone, Copy, Debug, PartialEq, Eq, Structural)]
pub struct Gate {
    /// Fixed at creation.
    pub role: Role,
    /// Horizontal position; falls by the scroll step each started tick.
    pub x: i64,
    /// Vertical position; changes only when recycled.
    pub y: i64,
}

/// The vertical bias that a role adds to a height draw.
pub open spec fn role_bias(c: Config, r: Role) -> int {
    match r {
        Role::Top => c.top_bias as int,
        Role::Bottom => c.bottom_bias as int,
    }
}

/// Whether a gate that was at `x` is recycled on the next started tick.
pub open spec fn recycles(c: Config, x: int) -> bool {
    x - c.scroll_step < c.left_bound()
}

/// A gate after one started tick with height draw `d`: moved left by the
/// scroll step, and if that takes it past the left bound, placed at the
/// spawn edge at height `d` plus its role's bias.
pub open spec fn advanced(c: Config, g: Gate, d: i64) -> Gate {
    if recycles(c, g.x as int) {
        Gate { role: g.role, x: c.spawn_x() as i64, y: (d + role_bias(c, g.role)) as i64 }
    } else {
        Gate { x: (g.x - c.scroll_step) as i64, ..g }
    }
}

/// The gates after one started tick, gate `i` with draw `ds[i]`.
pub open spec fn advanced_all(c: Config, gs: Seq<Gate>, ds: Seq<i64>) -> Seq<Gate> {
    Seq::new(gs.len(), |i: int| advanced(c, gs[i], ds[i]))
}

/// Number of top gates in `gs` at horizontal position `x`.
pub open spec fn crossings(x: i64, gs: Seq<Gate>) -> nat
    decreases gs.len(),
{
    if gs.len() == 0 {
        0
    } else {
        crossings(x, gs.drop_last()) + if gs.last().role == Role::Top && gs.last().x == x {
            1nat
        } else {
            0nat
        }
    }
}

impl Gate {
    /// Both coordinates lie within [`COORD_LIMIT`].
    pub open spec fn wf(&self) -> bool {
        -COORD_LIMIT <= self.x <= COORD_LIMIT && -COORD_LIMIT <= self.y <= COORD_LIMIT
    }

    /// A gate of role `role` at `(x, y)`.
    pub fn new(role: Role, x: i64, y: i64) -> (g: Gate)
        ensures
            g == (Gate { role, x, y }),
    {
        Gate { role, x, y }
    }

    /// The height that a recycled gate of this role takes for draw `d`.
    pub fn recycled_height(&self, c: &Config, d: i64) -> (y: i64)
        requires
            c.wf(),
            c.valid_offset(d),
        ensures
            y == d + role_bias(*c, self.role),
    {
        match self.role {
            Role::Top => d + c.top_bias,
            Role::Bottom => d + c.bottom_bias,
        }
    }

    /// Moves this gate one scroll step left and recycles it to the spawn edge
    /// at a fresh height when it passes the left bound. Returns whether it
    /// was recycled.
    pub fn advance(&mut self, c: &Config, d: i64) -> (recycled: bool)
        requires
            c.wf(),
            old(self).wf(),
            c.valid_offset(d),
        ensures
            final(self).wf(),
            *final(self) == advanced(*c, *old(self), d),
            recycled == recycles(*c, old(self).x as int),
    {
        let x = self.x - c.scroll_step;
        let left = -(c.screen_width / 2) - c.margin;
        if x < left {
            let y = self.recycled_height(c, d);
            self.x = c.screen_width / 2 + c.layout_offset;
            self.y = y;
            true
        } else {
            self.x = x;
            false
        }
    }
}

/// A recycled gate always reappears right of the centre line, at the spawn
/// edge, and its new height lies within the draw range shifted by its
/// role's bias.
pub proof fn lemma_recycled_placement(c: Config, g: Gate, d: i64)
    requires
        c.wf(),
        g.wf(),
        c.valid_offset(d),
        recycles(c, g.x as int),
    ensures
        advanced(c, g, d).x == c.spawn_x(),
        advanced(c, g, d).x > 0,
        advanced(c, g, d).role == g.role,
        c.offset_low + role_bias(c, g.role) <= advanced(c, g, d).y,
        advanced(c, g, d).y <= c.offset_high + role_bias(c, g.role),
{
}

/// One started tick keeps a gate within bounds.
pub proof fn lemma_advanced_wf(c: Config, g: Gate, d: i64)
    requires
        c.wf(),
        g.wf(),
        c.valid_offset(d),
    ensures
        advanced(c, g, d).wf(),
        advanced(c, g, d).role == g.role,
{
}

/// Moves every gate one started tick, gate `i` with draw `ds[i]`.
pub fn advance_all(c: &Config, gates: &Vec<Gate>, ds: &Vec<i64>) -> (r: Vec<Gate>)
    requires
        c.wf(),
        ds.len() == gates.len(),
        forall|i: int| 0 <= i < gates.len() ==> #[trigger] gates[i].wf(),
        forall|i: int| 0 <= i < ds.len() ==> c.valid_offset(#[trigger] ds[i]),
    ensures
        r@ == advanced_all(*c, gates@, ds@),
        forall|i: int| 0 <= i < r.len() ==> #[trigger] r[i].wf(),
{
    let mut r: Vec<Gate> = Vec::new();
    let mut i: usize = 0;
    while i < gates.len()
        invariant
            c.wf(),
            ds.len() == gates.len(),
            forall|k: int| 0 <= k < gates.len() ==> #[trigger] gates[k].wf(),
            forall|k: int| 0 <= k < ds.len() ==> c.valid_offset(#[trigger] ds[k]),
            0 <= i <= gates.len(),
            r.len() == i,
            forall|k: int| 0 <= k < i ==> #[trigger] r[k] == advanced(*c, gates[k], ds[k]),
            forall|k: int| 0 <= k < i ==> #[trigger] r[k].wf(),
        decreases gates.len() - i,
    {
        let mut g = gates[i];
        g.advance(c, ds[i]);
        r.push(g);
        i = i + 1;
    }
    assert(r@ =~= advanced_all(*c, gates@, ds@));
    r
}

/// Counts the top gates at horizontal position `x`.
pub fn count_crossings(x: i64, gates: &Vec<Gate>) -> (n: u64)
    requires
        gates.len() <= u64::MAX,
    ensures
        n == crossings(x, gates@),
{
    let mut n: u64 = 0;
    let mut i: usize = 0;
    while i < gates.len()
        invariant
            0 <= i <= gates.len(),
            gates.len() <= u64::MAX,
            n == crossings(x, gates@.take(i as int)),
            n <= i,
        decreases gates.len() - i,
    {
        proof {
            assert(gates@.take(i as int + 1).drop_last() =~= gates@.take(i as int));
        }
        if gates[i].role == Role::Top && gates[i].x == x {
            n = n + 1;
        }
        i = i + 1;
    }
    assert(gates@.take(i as int) =~= gates@);
    n
}

} // verus!
