//! The round-robin driver: the permanent tail state of the process.
//!
//! The driver keeps a single counter; each iteration toggles the LED at
//! position `counter mod 4`, advances the counter by one — wrapping at the
//! top, which is benign because only the value modulo four is ever observed —
//! and blocks for a fixed interval.  The loop itself never terminates, so the
//! library exposes one verified iteration (`step`) and a bounded run (`run`);
//! whoever owns the execution context repeats `step` forever.

use vstd::arithmetic::div_mod::lemma_add_mod_noop;
use vstd::prelude::*;

use crate::clock::Delay;
use crate::led::{LedSet, LED_COUNT};
use crate::pins::flip;

verus! {

/// Milliseconds the driver blocks after each toggle.
pub const DELAY_MS: u32 = 20;

/// The counter value after one iteration: one more, wrapping at the top.
pub open spec fn next_counter(c: u64) -> u64 {
    if c == u64::MAX {
        0
    } else {
        (c + 1) as u64
    }
}

/// The counter value after `n` iterations starting from `c`.
pub open spec fn counter_after(c: u64, n: nat) -> u64
    decreases n,
{
    if n == 0 {
        c
    } else {
        next_counter(counter_after(c, (n - 1) as nat))
    }
}

/// The LED position an iteration at counter value `c` selects.
pub open spec fn select_spec(c: u64) -> int {
    c as int % (LED_COUNT as int)
}

/// How many of the first `n` iterations starting at counter value `c` select
/// position `j`.
pub open spec fn hits(c: u64, n: nat, j: int) -> nat
    decreases n,
{
    if n == 0 {
        0
    } else {
        hits(c, (n - 1) as nat, j) + (if select_spec(counter_after(c, (n - 1) as nat)) == j {
            1nat
        } else {
            0nat
        })
    }
}

/// Advancing the counter advances the selected position cyclically — also
/// across the wraparound of the counter itself, since the counter's range is
/// a multiple of four.
pub proof fn lemma_select_next(c: u64)
    ensures
        select_spec(next_counter(c)) == (select_spec(c) + 1) % (LED_COUNT as int),
{
    if c == u64::MAX {
        assert(u64::MAX as int % 4 == 3);
    } else {
        lemma_add_mod_noop(c as int, 1, LED_COUNT as int);
    }
}

/// Whether position `j` is selected by at least one of the four iterations
/// that start at counter value `c`.
pub open spec fn selected_within_cycle(c: u64, j: int) -> bool {
    exists|k: nat| k < LED_COUNT && select_spec(#[trigger] counter_after(c, k)) == j
}

/// Round-robin fairness: from any counter value, the selected position is
/// always one of the four, no position repeats within four consecutive
/// iterations, and every position is selected once among them — each LED is
/// toggled exactly once per four consecutive iterations.
pub proof fn lemma_round_robin_fairness(c: u64)
    ensures
        0 <= select_spec(c) < LED_COUNT,
        forall|k: nat|
            k < LED_COUNT ==> #[trigger] select_spec(counter_after(c, k)) == (select_spec(c)
                + k) % (LED_COUNT as int),
        forall|k1: nat, k2: nat|
            k1 < k2 < LED_COUNT ==> select_spec(#[trigger] counter_after(c, k1)) != select_spec(
                #[trigger] counter_after(c, k2),
            ),
        forall|j: int| 0 <= j < LED_COUNT ==> #[trigger] selected_within_cycle(c, j),
{
    let c0 = counter_after(c, 0);
    let c1 = counter_after(c, 1);
    let c2 = counter_after(c, 2);
    let c3 = counter_after(c, 3);
    assert(c0 == c);
    assert(c1 == next_counter(c0));
    assert(c2 == next_counter(c1));
    assert(c3 == next_counter(c2));
    lemma_select_next(c0);
    lemma_select_next(c1);
    lemma_select_next(c2);
    let s0 = select_spec(c0);
    let s1 = select_spec(c1);
    let s2 = select_spec(c2);
    let s3 = select_spec(c3);
    assert(s1 == (s0 + 1) % 4 && s2 == (s1 + 1) % 4 && s3 == (s2 + 1) % 4);
    assert(s1 == (s0 + 1) % 4 && s2 == (s0 + 2) % 4 && s3 == (s0 + 3) % 4);
    assert forall|k: nat| k < LED_COUNT implies #[trigger] select_spec(counter_after(c, k)) == (
    select_spec(c) + k) % (LED_COUNT as int) by {
        assert(k == 0 || k == 1 || k == 2 || k == 3);
    }
    assert(s0 != s1 && s0 != s2 && s0 != s3 && s1 != s2 && s1 != s3 && s2 != s3);
    assert forall|k1: nat, k2: nat| k1 < k2 < LED_COUNT implies select_spec(
        #[trigger] counter_after(c, k1),
    ) != select_spec(#[trigger] counter_after(c, k2)) by {
        assert(k1 == 0 || k1 == 1 || k1 == 2);
        assert(k2 == 1 || k2 == 2 || k2 == 3);
    }
    assert forall|j: int| 0 <= j < LED_COUNT implies #[trigger] selected_within_cycle(c, j) by {
        assert(j == s0 || j == s1 || j == s2 || j == s3);
        if j == s0 {
            assert(select_spec(counter_after(c, 0)) == j);
        } else if j == s1 {
            assert(select_spec(counter_after(c, 1)) == j);
        } else if j == s2 {
            assert(select_spec(counter_after(c, 2)) == j);
        } else {
            assert(select_spec(counter_after(c, 3)) == j);
        }
    }
}

/// Each LED position is selected exactly once in any four consecutive
/// iterations, wherever in the cycle they start.
pub proof fn lemma_selected_exactly_once(c: u64, j: int)
    requires
        0 <= j < LED_COUNT,
    ensures
        hits(c, LED_COUNT as nat, j) == 1,
{
    let c0 = counter_after(c, 0);
    let c1 = counter_after(c, 1);
    let c2 = counter_after(c, 2);
    let c3 = counter_after(c, 3);
    assert(c0 == c);
    assert(c1 == next_counter(c0));
    assert(c2 == next_counter(c1));
    assert(c3 == next_counter(c2));
    lemma_select_next(c0);
    lemma_select_next(c1);
    lemma_select_next(c2);
    let s0 = select_spec(c0);
    let s1 = select_spec(c1);
    let s2 = select_spec(c2);
    let s3 = select_spec(c3);
    assert(s1 == (s0 + 1) % 4 && s2 == (s1 + 1) % 4 && s3 == (s2 + 1) % 4);
    assert(hits(c, 0nat, j) == 0);
    assert(hits(c, 1nat, j) == (if s0 == j {
        1nat
    } else {
        0nat
    }));
    assert(hits(c, 2nat, j) == hits(c, 1nat, j) + (if s1 == j {
        1nat
    } else {
        0nat
    }));
    assert(hits(c, 3nat, j) == hits(c, 2nat, j) + (if s2 == j {
        1nat
    } else {
        0nat
    }));
    assert(hits(c, 4nat, j) == hits(c, 3nat, j) + (if s3 == j {
        1nat
    } else {
        0nat
    }));
    assert(s0 != s1 && s0 != s2 && s0 != s3 && s1 != s2 && s1 != s3 && s2 != s3);
    assert(j == s0 || j == s1 || j == s2 || j == s3);
}

/// The driver's whole state: a monotonically advancing counter, observed
/// only modulo the LED count.
pub struct Driver {
    counter: u64,
}

impl Driver {
    /// Current counter value.
    pub closed spec fn counter_spec(self) -> u64 {
        self.counter
    }

    /// The driver enters the loop with the counter at zero.
    pub fn new() -> (d: Driver)
        ensures
            d.counter_spec() == 0,
    {
        Driver { counter: 0 }
    }

    /// A driver resumed at an arbitrary counter value.  Only the value
    /// modulo the LED count is ever observed, so any starting point is
    /// sound — including one just before the wraparound.
    pub fn with_counter(counter: u64) -> (d: Driver)
        ensures
            d.counter_spec() == counter,
    {
        Driver { counter }
    }

    /// Read the counter.
    pub fn counter(&self) -> (c: u64)
        ensures
            c == self.counter_spec(),
    {
        self.counter
    }

    /// The position the next iteration will toggle: the counter modulo the
    /// LED count, always a valid position.
    pub fn selected(&self) -> (i: usize)
        ensures
            i as int == select_spec(self.counter_spec()),
            i < LED_COUNT,
    {
        (self.counter % (LED_COUNT as u64)) as usize
    }

    /// One iteration of the loop: toggle the selected LED, advance the
    /// counter, and block for the fixed interval.  Returns the span of the
    /// wait in processor cycles.
    pub fn step(&mut self, leds: &mut LedSet, delay: &mut Delay) -> (cycles: u64)
        ensures
            final(self).counter_spec() == next_counter(old(self).counter_spec()),
            final(leds).levels() == old(leds).levels().update(
                select_spec(old(self).counter_spec()),
                flip(old(leds).levels()[select_spec(old(self).counter_spec())]),
            ),
            final(leds).ids() == old(leds).ids(),
            final(delay).cycles_per_ms_spec() == old(delay).cycles_per_ms_spec(),
            final(delay).requests_spec() == old(delay).requests_spec().push(DELAY_MS),
            cycles == DELAY_MS as u64 * old(delay).cycles_per_ms_spec() as u64,
    {
        let i = self.selected();
        let r = leds.toggle_at(i);
        r.unwrap();
        if self.counter == u64::MAX {
            self.counter = 0;
        } else {
            self.counter = self.counter + 1;
        }
        delay.delay_ms(DELAY_MS)
    }

    /// A bounded run of `n` iterations.  The counter advances `n` times;
    /// each LED's final state is its initial state flipped once per
    /// iteration that selected it; the delay source records `n` requests of
    /// the fixed interval.  The device itself repeats `step` forever instead.
    pub fn run(&mut self, leds: &mut LedSet, delay: &mut Delay, n: usize)
        ensures
            final(self).counter_spec() == counter_after(old(self).counter_spec(), n as nat),
            final(leds).ids() == old(leds).ids(),
            forall|j: int|
                0 <= j < LED_COUNT ==> final(leds).levels()[j] == (if hits(
                    old(self).counter_spec(),
                    n as nat,
                    j,
                ) % 2 == 0 {
                    old(leds).levels()[j]
                } else {
                    flip(old(leds).levels()[j])
                }),
            final(delay).cycles_per_ms_spec() == old(delay).cycles_per_ms_spec(),
            final(delay).requests_spec() == old(delay).requests_spec() + Seq::new(
                n as nat,
                |i: int| DELAY_MS,
            ),
    {
        proof {
            leds.lemma_len();
        }
        let ghost c0 = self.counter_spec();
        let ghost levels0 = leds.levels();
        let ghost ids0 = leds.ids();
        let ghost cpm0 = delay.cycles_per_ms_spec();
        let ghost reqs0 = delay.requests_spec();
        let mut k: usize = 0;
        while k < n
            invariant
                k <= n,
                self.counter_spec() == counter_after(c0, k as nat),
                leds.ids() == ids0,
                forall|j: int|
                    0 <= j < LED_COUNT ==> leds.levels()[j] == (if hits(c0, k as nat, j) % 2
                        == 0 {
                        levels0[j]
                    } else {
                        flip(levels0[j])
                    }),
                delay.cycles_per_ms_spec() == cpm0,
                delay.requests_spec() == reqs0 + Seq::new(k as nat, |i: int| DELAY_MS),
            decreases n - k,
        {
            let ghost k_pre = k as nat;
            let ghost levels_pre = leds.levels();
            proof {
                leds.lemma_len();
            }
            self.step(leds, delay);
            k = k + 1;
            proof {
                leds.lemma_len();
                let sel = select_spec(counter_after(c0, k_pre));
                assert(counter_after(c0, k_pre + 1) == next_counter(counter_after(c0, k_pre)));
                assert forall|j: int| 0 <= j < LED_COUNT implies leds.levels()[j] == (if hits(
                    c0,
                    k as nat,
                    j,
                ) % 2 == 0 {
                    levels0[j]
                } else {
                    flip(levels0[j])
                }) by {
                    assert(hits(c0, k_pre + 1, j) == hits(c0, k_pre, j) + (if sel == j {
                        1nat
                    } else {
                        0nat
                    }));
                    if j == sel {
                        assert(leds.levels()[j] == flip(levels_pre[j]));
                        assert(flip(flip(levels0[j])) == levels0[j]);
                    } else {
                        assert(leds.levels()[j] == levels_pre[j]);
                    }
                }
                assert(delay.requests_spec() =~= reqs0 + Seq::new(k as nat, |i: int| DELAY_MS));
            }
        }
        proof {
            assert(delay.requests_spec() =~= reqs0 + Seq::new(n as nat, |i: int| DELAY_MS));
        }
    }
}

} // verus!
