use vstd::prelude::*;

verus! {

/// Largest magnitude of any tunable value of a [`Config`].
pub const PARAM_LIMIT: i64 = 1073741824;

/// Largest magnitude of a gate coordinate that the library keeps.
pub const COORD_LIMIT: i64 = 1099511627776;

/// How the random heights of gates recycled on the same tick are chosen.
#[derive(Clone, Copy, Debug, PartialEq, Eq, Structural)]
pub enum RecycleMode {
    /// One draw per tick, shared by every gate recycled on that tick, so the
    /// two gates of a lane keep their gap.
    Shared,
    /// One draw for each gate.
    PerGate,
}

/// The tunable constants of a run, fixed when the game is set up.
#[derive(Clone, Copy, Debug, PartialEq, Eq, Structural)]
pub struct Config {
    /// Width of the visible screen.
    pub screen_width: i64,
    /// How far past the left edge a gate may go before it is recycled.
    pub margin: i64,
    /// How far right of the screen's centre line a recycled gate reappears,
    /// beyond half the screen width.
    pub layout_offset: i64,
    /// Leftward distance that every gate travels on each started tick.
    pub scroll_step: i64,
    /// Lower bound (inclusive) of the random height draw.
    pub offset_low: i64,
    /// Upper bound (exclusive) of the random height draw.
    pub offset_high: i64,
    /// Added to the draw for a top gate.
    pub top_bias: i64,
    /// Added to the draw for a bottom gate.
    pub bottom_bias: i64,
    /// Height at or above which the player dies.
    pub roof: i64,
    /// Vertical velocity that a hop sets.
    pub jump_impulse: i64,
    /// Gravity scale of the player's body once the run has started.
    pub gravity_scale: i64,
    /// Lower bound (inclusive) of the death spin, in thousandths.
    pub spin_low: i64,
    /// Upper bound (exclusive) of the death spin, in thousandths.
    pub spin_high: i64,
    /// How recycled gates draw their heights.
    pub recycle: RecycleMode,
}

/// Whether `v` lies within the tunable range.
pub open spec fn in_param_range(v: int) -> bool {
    -PARAM_LIMIT <= v <= PARAM_LIMIT
}

/// The classic constants (see [`Config::classic`]).
pub open spec fn classic_config() -> Config {
    Config {
        screen_width: 300,
        margin: 20,
        layout_offset: 100,
        scroll_step: 1,
        offset_low: -50i64,
        offset_high: 50,
        top_bias: 175,
        bottom_bias: -100i64,
        roof: 255,
        jump_impulse: 300,
        gravity_scale: 20,
        spin_low: -5000i64,
        spin_high: 0,
        recycle: RecycleMode::Shared,
    }
}

impl Config {
    /// The configuration is usable: positive width and step, non-empty draw
    /// ranges, and every value within [`PARAM_LIMIT`].
    pub open spec fn wf(&self) -> bool {
        &&& 2 <= self.screen_width <= PARAM_LIMIT
        &&& 0 <= self.margin <= PARAM_LIMIT
        &&& 0 <= self.layout_offset <= PARAM_LIMIT
        &&& 0 < self.scroll_step <= PARAM_LIMIT
        &&& in_param_range(self.offset_low as int)
        &&& in_param_range(self.offset_high as int)
        &&& self.offset_low < self.offset_high
        &&& in_param_range(self.top_bias as int)
        &&& in_param_range(self.bottom_bias as int)
        &&& self.spin_low < self.spin_high
    }

    /// A gate whose x falls below this bound is recycled.
    pub open spec fn left_bound(&self) -> int {
        -(self.screen_width / 2) - self.margin
    }

    /// Where a recycled gate reappears.
    pub open spec fn spawn_x(&self) -> int {
        self.screen_width / 2 + self.layout_offset
    }

    /// Whether `d` is a possible height draw.
    pub open spec fn valid_offset(&self, d: i64) -> bool {
        self.offset_low <= d < self.offset_high
    }

    /// Whether `s` is a possible death spin.
    pub open spec fn valid_spin(&self, s: i64) -> bool {
        self.spin_low <= s < self.spin_high
    }

    /// The classic layout: a 300-wide screen, gates scrolling one unit per
    /// tick, heights drawn from `[-50, 50)`, a roof at 255 and a death spin in
    /// `[-5, 0)` radians per second.
    pub fn classic() -> (c: Config)
        ensures
            c.wf(),
            c == classic_config(),
    {
        Config {
            screen_width: 300,
            margin: 20,
            layout_offset: 100,
            scroll_step: 1,
            offset_low: -50,
            offset_high: 50,
            top_bias: 175,
            bottom_bias: -100,
            roof: 255,
            jump_impulse: 300,
            gravity_scale: 20,
            spin_low: -5000,
            spin_high: 0,
            recycle: RecycleMode::Shared,
        }
    }
}

} // verus!
