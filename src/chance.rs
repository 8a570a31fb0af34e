use vstd::prelude::*;
use rand::Rng;
use crate::config::{Config, RecycleMode};

verus! {

/// Relies on `rand::thread_rng` and `rand::Rng::gen_range` (rand 0.7): a value
/// drawn from `[low, high)`. `gen_range` panics when `low >= high`.
#[verifier::external_body]
fn draw_between(low: i64, high: i64) -> (r: i64)
    requires
        low < high,
    ensures
        low <= r < high,
{
    rand::thread_rng().gen_range(low, high)
}

/// Whether `ds` holds one valid height draw for each of `n` gates, all equal
/// when the configuration shares one draw per tick.
pub open spec fn valid_draws(c: Config, ds: Seq<i64>, n: nat) -> bool {
    &&& ds.len() == n
    &&& forall|i: int| 0 <= i < ds.len() ==> c.valid_offset(#[trigger] ds[i])
    &&& c.recycle == RecycleMode::Shared ==> forall|i: int|
        0 <= i < ds.len() ==> #[trigger] ds[i] == ds[0]
}

/// Fresh height draws for `n` gates: one shared draw, or one per gate, as
/// the configuration says.
pub fn draw_offsets(c: &Config, n: usize) -> (ds: Vec<i64>)
    requires
        c.wf(),
    ensures
        valid_draws(*c, ds@, n as nat),
{
    let mut ds: Vec<i64> = Vec::new();
    let shared = draw_between(c.offset_low, c.offset_high);
    let mut i: usize = 0;
    while i < n
        invariant
            c.wf(),
            c.valid_offset(shared),
            0 <= i <= n,
            ds.len() == i,
            forall|k: int| 0 <= k < i ==> c.valid_offset(#[trigger] ds[k]),
            c.recycle == RecycleMode::Shared ==> forall|k: int| 0 <= k < i ==> #[trigger] ds[k] == shared,
        decreases n - i,
    {
        let d = match c.recycle {
            RecycleMode::Shared => shared,
            RecycleMode::PerGate => draw_between(c.offset_low, c.offset_high),
        };
        ds.push(d);
        i = i + 1;
    }
    ds
}

/// A fresh death spin within the configured range.
pub fn draw_spin(c: &Config) -> (s: i64)
    requires
        c.wf(),
    ensures
        c.valid_spin(s),
{
    draw_between(c.spin_low, c.spin_high)
}

} // verus!
