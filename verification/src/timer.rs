//! A countdown that rings once.

use vstd::prelude::*;
use crate::lifecycles::{count_down, spec_count_down};

verus! {

/// A countdown. It rings in the first run that finds it below zero, and is
/// inactive from then on.
#[derive(Clone, Copy, Debug, PartialEq, Eq, Structural)]
pub struct GameTimer {
    pub time: i64,
    pub is_active: bool,
}

impl GameTimer {
    /// Whether a run makes the timer ring: it is active and below zero.
    pub open spec fn spec_rings(self) -> bool {
        self.is_active && self.time < 0
    }

    /// The timer after a run of length `delta`. An inactive timer is left
    /// as it is; an active one counts down, and is inactive once it rings.
    pub open spec fn spec_run(self, delta: u32) -> GameTimer {
        if self.is_active {
            GameTimer { time: spec_count_down(self.time, delta), is_active: self.time >= 0 }
        } else {
            self
        }
    }

    /// Runs the timer for `delta` and says whether it rings.
    pub fn run(&mut self, delta: u32) -> (rings: bool)
        ensures
            rings == old(self).spec_rings(),
            *final(self) == old(self).spec_run(delta),
    {
        if !self.is_active {
            return false;
        }
        let rings = self.time < 0;
        if rings {
            self.is_active = false;
        }
        self.time = count_down(self.time, delta);
        rings
    }
}

/// How many timers at the head of a list are run: those before the first
/// inactive one.
pub open spec fn spec_active_prefix(timers: Seq<GameTimer>) -> int
    decreases timers.len(),
{
    if timers.len() == 0 || !timers.first().is_active {
        0
    } else {
        1 + spec_active_prefix(timers.drop_first())
    }
}

/// Runs the timers of a list for `delta`, one after the other, up to the
/// first inactive one: that one and all behind it are left as they are.
/// Hands back the places of the timers that ring.
pub fn run_timer(timers: &mut Vec<GameTimer>, delta: u32) -> (rang: Vec<usize>)
    ensures
        final(timers)@.len() == old(timers)@.len(),
        forall|i: int|
            0 <= i < old(timers)@.len() ==> #[trigger] final(timers)@[i] == if i
                < spec_active_prefix(old(timers)@) {
                old(timers)@[i].spec_run(delta)
            } else {
                old(timers)@[i]
            },
        forall|i: int|
            0 <= i < old(timers)@.len() ==> (rang@.contains(i as usize) <==> i < spec_active_prefix(
                old(timers)@,
            ) && (#[trigger] old(timers)@[i]).spec_rings()),
        forall|a: int, b: int| 0 <= a < b < rang@.len() ==> rang@[a] < rang@[b],
        forall|a: int| 0 <= a < rang@.len() ==> (#[trigger] rang@[a]) < old(timers)@.len(),
{
    let ghost before = timers@;
    let mut rang: Vec<usize> = Vec::new();
    let count: usize = timers.len();
    let mut i: usize = 0;
    let mut running: bool = count > 0 && timers[0].is_active;
    assert(before.skip(0) == before);
    while running
        invariant
            i <= count,
            running == (i < count && before[i as int].is_active),
            timers@.len() == count,
            before.len() == count,
            spec_active_prefix(before) == i + spec_active_prefix(before.skip(i as int)),
            forall|j: int| 0 <= j < i ==> #[trigger] timers@[j] == before[j].spec_run(delta),
            forall|j: int| i <= j < count ==> timers@[j] == before[j],
            forall|j: int|
                0 <= j < i ==> (rang@.contains(j as usize) <==> (#[trigger] before[j]).spec_rings()),
            forall|a: int| 0 <= a < rang@.len() ==> (#[trigger] rang@[a]) < i,
            forall|a: int, b: int| 0 <= a < b < rang@.len() ==> rang@[a] < rang@[b],
        decreases count - i,
    {
        let ghost tail = before.skip(i as int);
        assert(tail.first() == before[i as int]);
        assert(tail.drop_first() == before.skip(i + 1));
        let ghost rang_before = rang@;
        let mut timer = timers[i];
        let rings = timer.run(delta);
        timers[i] = timer;
        if rings {
            rang.push(i);
            assert(rang@[rang@.len() - 1] == i);
        }
        assert forall|j: int| 0 <= j < i + 1 implies (rang@.contains(j as usize) <==> (
        #[trigger] before[j]).spec_rings()) by {
            if j < i {
                if rang_before.contains(j as usize) {
                    let a = choose|a: int| 0 <= a < rang_before.len() && rang_before[a] == j;
                    assert(rang@[a] == j);
                }
                if rang@.contains(j as usize) {
                    let a = choose|a: int| 0 <= a < rang@.len() && rang@[a] == j;
                    assert(rang_before[a] == j);
                }
            } else {
                if rang@.contains(j as usize) {
                    let a = choose|a: int| 0 <= a < rang@.len() && rang@[a] == j;
                    assert(a == rang@.len() - 1);
                }
            }
        }
        i += 1;
        running = i < count && timers[i].is_active;
    }
    proof {
        let ghost tail = before.skip(i as int);
        if i < count {
            assert(tail.first() == before[i as int]);
        }
        if i == count {
            assert(before.skip(count as int).len() == 0);
        }
        assert(spec_active_prefix(before) == i);
        assert forall|j: int| 0 <= j < count implies (rang@.contains(j as usize) <==> j
            < spec_active_prefix(before) && (#[trigger] before[j]).spec_rings()) by {
            if j >= i && rang@.contains(j as usize) {
                let a = choose|a: int| 0 <= a < rang@.len() && rang@[a] == j;
                assert(rang@[a] < i);
            }
        }
    }
    rang
}

} // verus!
