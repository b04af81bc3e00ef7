//! The plate-chain earthquake simulator: a row of vertically constrained
//! plates joined to each other and to a static ground body, and a timer-driven
//! state machine that periodically throws a random subset of them upward with
//! impulses that grow with the quake counter.

use vstd::prelude::*;
use crate::building::pos_ok;
use crate::geometry::{spec_rect_aabb, Aabb, Vec2i};
use crate::rng::random_distinct_indices;
use crate::timer::{spec_tick, Timer};

verus! {

/// Width of one tectonic plate.
pub const PLATE_WIDTH: i64 = 50;

/// Height of one tectonic plate.
pub const PLATE_HEIGHT: i64 = 50;

/// How many plates make up the chain.
pub const PLATE_COUNT: usize = 20;

/// Horizontal centre of the leftmost plate.
pub const PLATE_START_X: i64 = -500;

/// Vertical centre of every plate.
pub const PLATE_Y: i64 = -55;

/// A tectonic plate: a rigid square restricted to vertical motion.
#[derive(Clone, Copy, PartialEq, Eq, Structural, Debug)]
pub struct Plate {
    /// centre of the plate
    pub pos: Vec2i,
}

/// A plate the simulation accepts: its centre lies within the position bound.
pub open spec fn plate_ok(p: Plate) -> bool {
    pos_ok(p.pos)
}

/// All plates of a chain are acceptable.
pub open spec fn plates_ok(ps: Seq<Plate>) -> bool {
    forall|j: int| 0 <= j < ps.len() ==> #[trigger] plate_ok(ps[j])
}

/// The box a plate covers.
pub open spec fn plate_box(p: Plate) -> Aabb {
    spec_rect_aabb(p.pos, Vec2i { x: PLATE_WIDTH, y: PLATE_HEIGHT })
}

/// The static ground body that keeps the plates at their level.
#[derive(Clone, Copy, PartialEq, Eq, Structural, Debug)]
pub struct Ground {
    /// centre of the ground slab
    pub pos: Vec2i,
    /// size of the ground slab
    pub size: Vec2i,
}

/// One end of a chain joint: the ground body or a plate of the chain.
#[derive(Clone, Copy, PartialEq, Eq, Structural, Debug)]
pub enum ChainBody {
    /// the static ground body
    Ground,
    /// the plate at this index
    Plate(usize),
}

/// A distance joint of the chain, holding its two ends between a minimum and
/// a maximum separation; the first end may be anchored away from its centre.
#[derive(Clone, Copy, PartialEq, Eq, Structural, Debug)]
pub struct PlateJoint {
    /// first body of the joint
    pub body_a: ChainBody,
    /// second body of the joint
    pub body_b: ChainBody,
    /// smallest separation the joint allows
    pub min_limit: i64,
    /// largest separation the joint allows
    pub max_limit: i64,
    /// anchor in the first body's local frame
    pub local_anchor_a: Vec2i,
}

/// The whole chain: ground, plates, and the joints that tie them together.
#[derive(Clone, Debug)]
pub struct PlateChain {
    /// the static ground body
    pub ground: Ground,
    /// the plates, left to right
    pub plates: Vec<Plate>,
    /// the joints: ground to first plate, each plate to its neighbour, and
    /// ground to last plate
    pub joints: Vec<PlateJoint>,
}

/// Where the plate at index `i` starts out.
pub open spec fn spec_plate_pos(i: int) -> Vec2i {
    Vec2i { x: (PLATE_START_X + PLATE_WIDTH * i) as i64, y: PLATE_Y }
}

/// Largest separation an end joint allows between the ground anchor and its
/// plate.
pub const END_JOINT_LIMIT: i64 = 60;

/// Builds the default chain: twenty plates in a row just below ground level,
/// each joined to its neighbour with limits of one plate extent, and the two
/// end plates held to the ground body at their horizontal offsets.
pub fn add_default_plates() -> (chain: PlateChain)
    ensures
        chain.ground == (Ground {
            pos: Vec2i { x: 0i64, y: -105i64 },
            size: Vec2i { x: 2000i64, y: 50i64 },
        }),
        chain.plates@.len() == PLATE_COUNT,
        forall|i: int|
            0 <= i < PLATE_COUNT ==> #[trigger] chain.plates@[i] == (Plate {
                pos: spec_plate_pos(i),
            }),
        plates_ok(chain.plates@),
        chain.joints@.len() == PLATE_COUNT + 1,
        chain.joints@[0] == (PlateJoint {
            body_a: ChainBody::Ground,
            body_b: ChainBody::Plate(0),
            min_limit: 0,
            max_limit: END_JOINT_LIMIT,
            local_anchor_a: Vec2i { x: PLATE_START_X, y: 0 },
        }),
        forall|i: int|
            1 <= i < PLATE_COUNT ==> #[trigger] chain.joints@[i] == (PlateJoint {
                body_a: ChainBody::Plate((i - 1) as usize),
                body_b: ChainBody::Plate(i as usize),
                min_limit: PLATE_WIDTH,
                max_limit: PLATE_HEIGHT,
                local_anchor_a: Vec2i { x: 0, y: 0 },
            }),
        chain.joints@[PLATE_COUNT as int] == (PlateJoint {
            body_a: ChainBody::Ground,
            body_b: ChainBody::Plate((PLATE_COUNT - 1) as usize),
            min_limit: 0,
            max_limit: END_JOINT_LIMIT,
            local_anchor_a: Vec2i { x: (PLATE_START_X + PLATE_WIDTH * (PLATE_COUNT - 1)) as i64, y: 0 },
        }),
{
    let ground = Ground { pos: Vec2i { x: 0, y: -105 }, size: Vec2i { x: 2000, y: 50 } };
    let mut plates: Vec<Plate> = Vec::new();
    let mut joints: Vec<PlateJoint> = Vec::new();
    let mut i: usize = 0;
    while i < PLATE_COUNT
        invariant
            i <= PLATE_COUNT,
            plates@.len() == i,
            forall|j: int|
                0 <= j < i ==> #[trigger] plates@[j] == (Plate { pos: spec_plate_pos(j) }),
            joints@.len() == i,
            i > 0 ==> joints@[0] == (PlateJoint {
                body_a: ChainBody::Ground,
                body_b: ChainBody::Plate(0),
                min_limit: 0,
                max_limit: END_JOINT_LIMIT,
                local_anchor_a: Vec2i { x: PLATE_START_X, y: 0 },
            }),
            forall|j: int|
                1 <= j < i ==> #[trigger] joints@[j] == (PlateJoint {
                    body_a: ChainBody::Plate((j - 1) as usize),
                    body_b: ChainBody::Plate(j as usize),
                    min_limit: PLATE_WIDTH,
                    max_limit: PLATE_HEIGHT,
                    local_anchor_a: Vec2i { x: 0, y: 0 },
                }),
        decreases PLATE_COUNT - i,
    {
        let x_offset: i64 = PLATE_START_X + PLATE_WIDTH * (i as i64);
        plates.push(Plate { pos: Vec2i { x: x_offset, y: PLATE_Y } });
        if i == 0 {
            joints.push(
                PlateJoint {
                    body_a: ChainBody::Ground,
                    body_b: ChainBody::Plate(0),
                    min_limit: 0,
                    max_limit: END_JOINT_LIMIT,
                    local_anchor_a: Vec2i { x: x_offset, y: 0 },
                },
            );
        } else {
            joints.push(
                PlateJoint {
                    body_a: ChainBody::Plate(i - 1),
                    body_b: ChainBody::Plate(i),
                    min_limit: PLATE_WIDTH,
                    max_limit: PLATE_HEIGHT,
                    local_anchor_a: Vec2i { x: 0, y: 0 },
                },
            );
        }
        i = i + 1;
    }
    joints.push(
        PlateJoint {
            body_a: ChainBody::Ground,
            body_b: ChainBody::Plate(PLATE_COUNT - 1),
            min_limit: 0,
            max_limit: END_JOINT_LIMIT,
            local_anchor_a: Vec2i {
                x: PLATE_START_X + PLATE_WIDTH * ((PLATE_COUNT - 1) as i64),
                y: 0,
            },
        },
    );
    PlateChain { ground, plates, joints }
}

/// Ten to the power `e`.
pub open spec fn pow10(e: nat) -> nat
    decreases e,
{
    if e == 0 {
        1
    } else {
        10 * pow10((e - 1) as nat)
    }
}

/// A power of ten is positive.
pub proof fn lemma_pow10_pos(e: nat)
    ensures
        pow10(e) >= 1,
    decreases e,
{
    if e > 0 {
        lemma_pow10_pos((e - 1) as nat);
    }
}

/// Powers of ten grow with the exponent.
pub proof fn lemma_pow10_increases(a: nat, b: nat)
    requires
        a <= b,
    ensures
        pow10(a) <= pow10(b),
    decreases b,
{
    if a < b {
        lemma_pow10_increases(a, (b - 1) as nat);
        lemma_pow10_pos((b - 1) as nat);
    }
}

/// How many times `n` can be divided by ten before dropping below ten: the
/// decimal logarithm of `n`, rounded down.
pub open spec fn log10_spec(n: nat) -> nat
    decreases n,
{
    if n < 10 {
        0
    } else {
        (1 + log10_spec(n / 10)) as nat
    }
}

/// Computes the decimal logarithm of `n`, rounded down.
pub fn log10_floor(n: u64) -> (r: u32)
    requires
        n >= 1,
    ensures
        r == log10_spec(n as nat),
        pow10(r as nat) <= n < pow10((r + 1) as nat),
        r <= 19,
{
    let mut v: u64 = n;
    let mut r: u32 = 0;
    proof {
        assert(pow10(0) == 1);
    }
    while v >= 10
        invariant
            1 <= v <= n,
            log10_spec(n as nat) == r + log10_spec(v as nat),
            pow10(r as nat) * v <= n,
            n < pow10(r as nat) * (v + 1),
            r <= 19,
        decreases v,
    {
        proof {
            let p = pow10(r as nat);
            lemma_pow10_pos(r as nat);
            assert(pow10((r + 1) as nat) == 10 * p);
            assert(10 * (v / 10) <= v && v < 10 * (v / 10) + 10);
            assert(10 * p * (v / 10) <= p * v) by (nonlinear_arith)
                requires
                    10 * (v / 10) <= v,
                    p >= 1,
            ;
            assert(p * (v + 1) <= 10 * p * (v / 10 + 1)) by (nonlinear_arith)
                requires
                    v + 1 <= 10 * (v / 10) + 10,
                    p >= 1,
            ;
            assert(10 * p <= p * v) by (nonlinear_arith)
                requires
                    v >= 10,
                    p >= 1,
            ;
            if r + 1 >= 20 {
                lemma_pow10_increases(20, (r + 1) as nat);
                assert(pow10(20) == 100_000_000_000_000_000_000) by {
                    reveal_with_fuel(pow10, 21);
                }
            }
        }
        v = v / 10;
        r = r + 1;
    }
    proof {
        let p = pow10(r as nat);
        lemma_pow10_pos(r as nat);
        assert(pow10((r + 1) as nat) == 10 * p);
        assert(p * 1 <= p * v && p * (v + 1) <= p * 10) by (nonlinear_arith)
            requires
                1 <= v <= 9,
                p >= 1,
        ;
    }
    r
}

/// Base impulse a rumble applies at the first quake.
pub const RUMBLE_BASE_IMPULSE: i64 = 3_000_000;

/// How many plates one rumble throws upward.
pub const RUMBLE_PLATE_COUNT: usize = 6;

/// The upward impulse one rumble applies to each chosen plate: the base
/// impulse scaled by the fourth power of the decimal logarithm of the quake
/// counter offset by ten, so later quakes push harder.
pub open spec fn spec_impulse_magnitude(count: u32) -> int {
    let l = log10_spec((count + 10) as nat);
    RUMBLE_BASE_IMPULSE * l * l * l * l
}

/// The decimal logarithm never drops as its argument rises.
proof fn lemma_log10_monotonic(a: nat, b: nat)
    requires
        a <= b,
    ensures
        log10_spec(a) <= log10_spec(b),
    decreases b,
{
    if a >= 10 {
        vstd::arithmetic::div_mod::lemma_div_is_ordered(a as int, b as int, 10);
        lemma_log10_monotonic(a / 10, b / 10);
    }
}

/// Later quakes push at least as hard: the impulse magnitude never drops as
/// the quake counter rises.
pub proof fn lemma_impulse_grows(c1: u32, c2: u32)
    requires
        c1 <= c2,
    ensures
        spec_impulse_magnitude(c1) <= spec_impulse_magnitude(c2),
{
    lemma_log10_monotonic((c1 + 10) as nat, (c2 + 10) as nat);
    let l1 = log10_spec((c1 + 10) as nat);
    let l2 = log10_spec((c2 + 10) as nat);
    assert(RUMBLE_BASE_IMPULSE * l1 * l1 * l1 * l1 <= RUMBLE_BASE_IMPULSE * l2 * l2 * l2 * l2)
        by (nonlinear_arith)
        requires
            0 <= l1 <= l2,
    ;
}

/// Computes the impulse magnitude for the given quake counter.
pub fn impulse_magnitude(count: u32) -> (m: i64)
    ensures
        m == spec_impulse_magnitude(count),
        0 < m <= 19_683_000_000,
{
    let l = log10_floor(count as u64 + 10);
    proof {
        if l >= 10 {
            lemma_pow10_increases(10, l as nat);
            assert(pow10(10) == 10_000_000_000) by {
                reveal_with_fuel(pow10, 11);
            }
        }
        if l == 0 {
            assert(pow10(1) == 10) by {
                reveal_with_fuel(pow10, 2);
            }
        }
    }
    let li: i64 = l as i64;
    proof {
        assert(3_000_000 <= 3_000_000 * li <= 27_000_000 && 3_000_000 <= 3_000_000 * li * li
            <= 243_000_000 && 3_000_000 <= 3_000_000 * li * li * li <= 2_187_000_000 && 3_000_000
            <= 3_000_000 * li * li * li * li <= 19_683_000_000) by (nonlinear_arith)
            requires
                1 <= li <= 9,
        ;
    }
    3_000_000 * li * li * li * li
}

/// A one-shot upward impulse for one plate; it applies to the tick it was
/// produced in and does not persist.
#[derive(Clone, Copy, PartialEq, Eq, Structural, Debug)]
pub struct Impulse {
    /// the plate the impulse acts on
    pub plate: usize,
    /// size of the upward push
    pub magnitude: i64,
}

/// One rumble: throws a random subset of `subset` distinct plates (all of
/// them when fewer exist) upward with the magnitude the quake counter gives.
pub fn rumble(count: u32, n_plates: usize, subset: usize) -> (impulses: Vec<Impulse>)
    ensures
        impulses@.len() == (if subset <= n_plates {
            subset as int
        } else {
            n_plates as int
        }),
        forall|k: int|
            0 <= k < impulses@.len() ==> (#[trigger] impulses@[k]).plate < n_plates
                && impulses@[k].magnitude == spec_impulse_magnitude(count),
        forall|k: int, l: int|
            0 <= k < l < impulses@.len() ==> impulses@[k].plate != impulses@[l].plate,
{
    let picked = random_distinct_indices(n_plates, subset);
    let m = impulse_magnitude(count);
    let mut impulses: Vec<Impulse> = Vec::new();
    let mut i: usize = 0;
    while i < picked.len()
        invariant
            i <= picked@.len(),
            impulses@.len() == i,
            m == spec_impulse_magnitude(count),
            forall|k: int| 0 <= k < picked@.len() ==> #[trigger] picked@[k] < n_plates,
            forall|k: int, l: int| 0 <= k < l < picked@.len() ==> picked@[k] != picked@[l],
            forall|k: int|
                0 <= k < i ==> (#[trigger] impulses@[k]) == (Impulse {
                    plate: picked@[k],
                    magnitude: m,
                }),
        decreases picked@.len() - i,
    {
        impulses.push(Impulse { plate: picked[i], magnitude: m });
        i = i + 1;
    }
    impulses
}

/// Interval before the very first quake.
pub const QUAKE_START_INTERVAL_MS: u64 = 25_000;

/// The floor the quake interval shrinks down to and never drops below.
pub const QUAKE_MIN_INTERVAL_MS: u64 = 5_000;

/// How long one quake stays active.
pub const QUAKE_DURATION_MS: u64 = 3_000;

/// Interval between rumbles within an active quake.
pub const RUMBLE_INTERVAL_MS: u64 = 100;

/// Timer state for the earthquake state machine.
#[derive(Clone, Copy, PartialEq, Eq, Structural, Debug)]
pub struct EarthquakeTimer {
    /// how many quakes have started
    pub count: u32,
    /// the timer which decides when the next earthquake happens
    pub next: Timer,
    /// the timer which dictates when the earthquake stops
    pub stop: Timer,
    /// the timer inbetween rumbles, the small shakes within one quake
    pub rumbles: Timer,
}

/// Timer state the simulation accepts: the interval stays between its floor
/// and its starting value, and every elapsed time stays below its cycle.
pub open spec fn quake_timer_ok(eq: EarthquakeTimer) -> bool {
    &&& QUAKE_MIN_INTERVAL_MS <= eq.next.duration_ms <= QUAKE_START_INTERVAL_MS
    &&& eq.next.elapsed_ms < QUAKE_START_INTERVAL_MS
    &&& eq.stop.duration_ms == QUAKE_DURATION_MS
    &&& eq.stop.elapsed_ms < QUAKE_DURATION_MS
    &&& eq.rumbles.duration_ms == RUMBLE_INTERVAL_MS
    &&& eq.rumbles.elapsed_ms < RUMBLE_INTERVAL_MS
}

impl EarthquakeTimer {
    /// Creates the timer state as the simulation starts out with it: all
    /// three timers running from zero.
    pub fn new() -> (eq: EarthquakeTimer)
        ensures
            eq.count == 0,
            eq.next.duration_ms == QUAKE_START_INTERVAL_MS,
            eq.stop.duration_ms == QUAKE_DURATION_MS,
            eq.rumbles.duration_ms == RUMBLE_INTERVAL_MS,
            eq.next.elapsed_ms == 0 && eq.stop.elapsed_ms == 0 && eq.rumbles.elapsed_ms == 0,
            !eq.next.paused && !eq.stop.paused && !eq.rumbles.paused,
            !eq.next.finished_this_tick && !eq.stop.finished_this_tick
                && !eq.rumbles.finished_this_tick,
            quake_timer_ok(eq),
    {
        EarthquakeTimer {
            count: 0,
            next: Timer::new_repeating(QUAKE_START_INTERVAL_MS),
            stop: Timer::new_repeating(QUAKE_DURATION_MS),
            rumbles: Timer::new_repeating(RUMBLE_INTERVAL_MS),
        }
    }
}

/// Puts the timers into their resting shape: everything starts over and the
/// quake-window timers wait paused for the next quake.
pub fn init_timers(eq: &mut EarthquakeTimer)
    ensures
        final(eq).count == old(eq).count,
        final(eq).next == (Timer { elapsed_ms: 0, finished_this_tick: false, ..old(eq).next }),
        final(eq).stop == (Timer {
            elapsed_ms: 0,
            finished_this_tick: false,
            paused: true,
            ..old(eq).stop
        }),
        final(eq).rumbles == (Timer {
            elapsed_ms: 0,
            finished_this_tick: false,
            paused: true,
            ..old(eq).rumbles
        }),
{
    eq.next.reset();
    eq.stop.reset();
    eq.rumbles.reset();
    eq.stop.pause();
    eq.rumbles.pause();
}

/// The interval to the quake after this one: one second less, down to the
/// fixed floor.
pub open spec fn spec_next_interval(d_ms: u64) -> u64 {
    if d_ms / 1000 >= 6 {
        ((d_ms / 1000 - 1) * 1000) as u64
    } else {
        QUAKE_MIN_INTERVAL_MS
    }
}

/// The quake interval never grows and never drops below its floor.
pub proof fn lemma_quake_interval_monotonic(d_ms: u64)
    requires
        d_ms >= QUAKE_MIN_INTERVAL_MS,
    ensures
        QUAKE_MIN_INTERVAL_MS <= spec_next_interval(d_ms) <= d_ms,
{
}

/// The timer state after one fixed step of `delta_ms`: the interval timer
/// ticks; if it finishes, the counter rises, the interval shrinks toward its
/// floor, and the quake-window timers restart unpaused; those then tick, and
/// when the stop timer finishes both pause until the next quake.
pub open spec fn spec_quake_step(eq: EarthquakeTimer, delta_ms: u64) -> EarthquakeTimer {
    let next1 = spec_tick(eq.next, delta_ms);
    let fired = next1.finished_this_tick;
    let next2 = if fired {
        Timer { duration_ms: spec_next_interval(eq.next.duration_ms), ..next1 }
    } else {
        next1
    };
    let count2 = if fired {
        if eq.count == u32::MAX {
            eq.count
        } else {
            (eq.count + 1) as u32
        }
    } else {
        eq.count
    };
    let stop1 = if fired {
        Timer { paused: false, elapsed_ms: 0, finished_this_tick: false, ..eq.stop }
    } else {
        eq.stop
    };
    let rumbles1 = if fired {
        Timer { paused: false, elapsed_ms: 0, finished_this_tick: false, ..eq.rumbles }
    } else {
        eq.rumbles
    };
    let stop2 = spec_tick(stop1, delta_ms);
    let rumbles2 = spec_tick(rumbles1, delta_ms);
    let stop3 = if stop2.finished_this_tick {
        Timer { paused: true, ..stop2 }
    } else {
        stop2
    };
    let rumbles3 = if stop2.finished_this_tick {
        Timer { paused: true, ..rumbles2 }
    } else {
        rumbles2
    };
    EarthquakeTimer { count: count2, next: next2, stop: stop3, rumbles: rumbles3 }
}

/// True when the step fires a rumble: the rumble timer finished during it.
pub open spec fn spec_rumble_fires(eq: EarthquakeTimer, delta_ms: u64) -> bool {
    spec_quake_step(eq, delta_ms).rumbles.finished_this_tick
}

/// One fixed step of the earthquake state machine: advances the timers as
/// `spec_quake_step` says, and, whenever the rumble timer fires, hands out
/// one-shot upward impulses for a random subset of the plates, scaled by the
/// quake counter. The quake interval never grows and never drops below its
/// floor.
pub fn earthquake(eq: &mut EarthquakeTimer, delta_ms: u64, n_plates: usize) -> (impulses: Vec<
    Impulse,
>)
    requires
        quake_timer_ok(*old(eq)),
        delta_ms <= 1_000_000,
    ensures
        quake_timer_ok(*final(eq)),
        *final(eq) == spec_quake_step(*old(eq), delta_ms),
        QUAKE_MIN_INTERVAL_MS <= final(eq).next.duration_ms <= old(eq).next.duration_ms,
        spec_rumble_fires(*old(eq), delta_ms) ==> {
            &&& impulses@.len() == (if RUMBLE_PLATE_COUNT <= n_plates {
                RUMBLE_PLATE_COUNT as int
            } else {
                n_plates as int
            })
            &&& forall|k: int|
                0 <= k < impulses@.len() ==> (#[trigger] impulses@[k]).plate < n_plates
                    && impulses@[k].magnitude == spec_impulse_magnitude(final(eq).count)
            &&& forall|k: int, l: int|
                0 <= k < l < impulses@.len() ==> impulses@[k].plate != impulses@[l].plate
        },
        !spec_rumble_fires(*old(eq), delta_ms) ==> impulses@.len() == 0,
{
    eq.next.tick(delta_ms);
    if eq.next.just_finished() {
        if eq.count < u32::MAX {
            eq.count = eq.count + 1;
        }
        let secs: u64 = eq.next.duration_ms / 1000;
        let new_secs: u64 = if secs >= 6 {
            secs - 1
        } else {
            5
        };
        eq.next.set_duration(new_secs * 1000);
        eq.stop.unpause();
        eq.stop.reset();
        eq.rumbles.unpause();
        eq.rumbles.reset();
    }
    eq.stop.tick(delta_ms);
    eq.rumbles.tick(delta_ms);
    if eq.stop.just_finished() {
        eq.stop.pause();
        eq.rumbles.pause();
    }
    if eq.rumbles.just_finished() {
        rumble(eq.count, n_plates, RUMBLE_PLATE_COUNT)
    } else {
        Vec::new()
    }
}

/// What the countdown label shows: the number of the coming quake and the
/// whole seconds left until it.
pub fn update_earthquake_text(eq: &EarthquakeTimer) -> (label: (u32, u64))
    requires
        eq.count < u32::MAX,
    ensures
        label.0 == eq.count + 1,
        label.1 == (if eq.next.elapsed_ms <= eq.next.duration_ms {
            (eq.next.duration_ms - eq.next.elapsed_ms) / 1000
        } else {
            0int
        }),
{
    (eq.count + 1, eq.next.remaining_ms() / 1000)
}

} // verus!
