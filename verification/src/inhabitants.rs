//! Inhabitants live inside the buildings: they wander between random targets
//! within their building's walls, pay rent on a timer, and die when their
//! building tilts too far.

use vstd::prelude::*;
use crate::building::{building_ok, Building, BUILDING_MAX_SIZE};
use crate::geometry::{div_trunc, spec_clamp};
use crate::player::Player;
use crate::rng::random_i64_inclusive;
use crate::timer::{spec_tick, Timer};

verus! {

/// Width of an inhabitant.
pub const INHABITANT_WIDTH: i64 = 30;

/// Height of an inhabitant.
pub const INHABITANT_HEIGHT: i64 = 40;

/// Horizontal walking speed, in world units per second.
pub const WALK_SPEED: i64 = 3;

/// How long an inhabitant keeps one walk target.
pub const MOVE_INTERVAL_MS: u64 = 5_000;

/// How often an inhabitant pays rent.
pub const RENT_INTERVAL_MS: u64 = 10_000;

/// Tilt, in whole degrees, beyond which an inhabitant does not survive.
pub const DEATH_TILT_DEG: i64 = 81;

/// An inhabitant with its home building marked.
#[derive(Clone, Copy, PartialEq, Eq, Structural, Debug)]
pub struct Inhabitant {
    /// index of the building the inhabitant lives in
    pub home: usize,
    /// horizontal position within the building's local frame
    pub x: i64,
    /// next point the inhabitant is walking to
    pub target_x: i64,
    /// when to pick a new walk target
    pub move_timer: Timer,
    /// when the inhabitant pays rent
    pub rent_timer: Timer,
}

/// An inhabitant the simulation accepts against `n` buildings: it lives in a
/// real building, stays within one building extent of its centre, and its
/// timers are in the shapes the spawn and step functions produce.
pub open spec fn inhabitant_ok(h: Inhabitant, n: int) -> bool {
    &&& h.home < n
    &&& -BUILDING_MAX_SIZE <= h.x <= BUILDING_MAX_SIZE
    &&& -BUILDING_MAX_SIZE <= h.target_x <= BUILDING_MAX_SIZE
    &&& (h.move_timer.duration_ms == 0 || h.move_timer.duration_ms == MOVE_INTERVAL_MS)
    &&& h.move_timer.elapsed_ms < MOVE_INTERVAL_MS
    &&& h.rent_timer.duration_ms == RENT_INTERVAL_MS
    &&& h.rent_timer.elapsed_ms < RENT_INTERVAL_MS
}

/// All inhabitants of a registry are acceptable.
pub open spec fn inhabitants_ok(hs: Seq<Inhabitant>, n: int) -> bool {
    forall|i: int| 0 <= i < hs.len() ==> #[trigger] inhabitant_ok(hs[i], n)
}

/// The inhabitant a fresh spawn produces: centred in its home, with a walk
/// timer that fires on the first tick and a rent timer on the regular cycle.
pub open spec fn spec_new_inhabitant(home: usize) -> Inhabitant {
    Inhabitant {
        home,
        x: 0,
        target_x: 0,
        move_timer: Timer {
            duration_ms: 0,
            elapsed_ms: 0,
            paused: false,
            finished_this_tick: false,
        },
        rent_timer: Timer {
            duration_ms: RENT_INTERVAL_MS,
            elapsed_ms: 0,
            paused: false,
            finished_this_tick: false,
        },
    }
}

/// Spawns a new inhabitant inside the given building.
pub fn handle_spawn_new_inhabitant(inhabitants: &mut Vec<Inhabitant>, home: usize)
    requires
        old(inhabitants)@.len() < usize::MAX,
    ensures
        final(inhabitants)@ == old(inhabitants)@.push(spec_new_inhabitant(home)),
{
    inhabitants.push(
        Inhabitant {
            home,
            x: 0,
            target_x: 0,
            move_timer: Timer::new_repeating(0),
            rent_timer: Timer::new_repeating(RENT_INTERVAL_MS),
        },
    );
}

/// How far the walkable strip reaches from the building's centre.
pub open spec fn spec_half_range(b: Building) -> int {
    b.size.x / 2 - INHABITANT_WIDTH / 2
}

/// Which way and how fast the inhabitant walks: toward its target, at the
/// fixed speed.
pub open spec fn spec_walk_velocity(x: int, target_x: int) -> int {
    if target_x >= x {
        WALK_SPEED as int
    } else {
        -WALK_SPEED as int
    }
}

/// Where one step leaves the inhabitant: the walk and lean velocities act for
/// the step's duration and the result is clamped to the walkable strip.
pub open spec fn spec_walk_step(
    x: int,
    target_x: int,
    lean: int,
    delta_ms: u64,
    half: int,
) -> int {
    spec_clamp(
        x + div_trunc((10 * lean + spec_walk_velocity(x, target_x)) * delta_ms, 1000),
        -half,
        half,
    )
}

/// How one walk frame relates the inhabitant before and after: it drifts
/// with the building's lean and walks toward its target, clamped to the
/// walkable strip; when its move timer fires it holds a fresh target within
/// the strip and waits the regular interval before the next pick.
pub open spec fn spec_move_rel(
    o: Inhabitant,
    n: Inhabitant,
    b: Building,
    lean: i64,
    delta_ms: u64,
) -> bool {
    &&& n.home == o.home
    &&& n.rent_timer == o.rent_timer
    &&& n.x == spec_walk_step(
        o.x as int,
        o.target_x as int,
        lean as int,
        delta_ms,
        spec_half_range(b),
    )
    &&& -spec_half_range(b) <= n.x <= spec_half_range(b)
    &&& {
        let ticked = spec_tick(o.move_timer, delta_ms);
        if ticked.finished_this_tick {
            &&& -spec_half_range(b) <= n.target_x < spec_half_range(b)
            &&& n.move_timer == (Timer { duration_ms: MOVE_INTERVAL_MS, ..ticked })
        } else {
            &&& n.target_x == o.target_x
            &&& n.move_timer == ticked
        }
    }
    &&& n.move_timer.elapsed_ms < MOVE_INTERVAL_MS
}

/// One frame of an inhabitant's walk: it drifts with the building's lean and
/// walks toward its target, clamped to the walkable strip; when its move
/// timer fires it picks a fresh random target within the strip and waits the
/// regular interval before the next pick.
pub fn move_inside_building(inh: &mut Inhabitant, building: &Building, lean: i64, delta_ms: u64)
    requires
        building_ok(*building),
        building.size.x >= 32,
        -BUILDING_MAX_SIZE <= old(inh).x <= BUILDING_MAX_SIZE,
        -1000 <= lean <= 1000,
        delta_ms <= 1_000_000,
        old(inh).move_timer.duration_ms == 0 || old(inh).move_timer.duration_ms
            == MOVE_INTERVAL_MS,
        old(inh).move_timer.elapsed_ms < MOVE_INTERVAL_MS,
    ensures
        spec_move_rel(*old(inh), *final(inh), *building, lean, delta_ms),
{
    let half: i64 = building.size.x / 2 - INHABITANT_WIDTH / 2;
    let walk: i64 = if inh.target_x >= inh.x {
        WALK_SPEED
    } else {
        -WALK_SPEED
    };
    let vel: i64 = 10 * lean + walk;
    proof {
        assert(-11_000_000_000 <= vel * (delta_ms as i64) <= 11_000_000_000) by (nonlinear_arith)
            requires
                -10_003 <= vel <= 10_003,
                0 <= delta_ms as i64 <= 1_000_000,
        ;
    }
    let disp: i64 = vel * (delta_ms as i64) / 1000;
    let moved: i64 = inh.x + disp;
    if moved < -half {
        inh.x = -half;
    } else if moved > half {
        inh.x = half;
    } else {
        inh.x = moved;
    }
    inh.move_timer.tick(delta_ms);
    if inh.move_timer.just_finished() {
        inh.target_x = random_i64_inclusive(-half, half - 1);
        inh.move_timer.set_duration(MOVE_INTERVAL_MS);
    }
}

/// Whether an inhabitant dies of its building's tilt, in whole degrees.
pub fn check_inhabitant_death(tilt_deg: i64) -> (dies: bool)
    ensures
        dies == (tilt_deg > DEATH_TILT_DEG || tilt_deg < -DEATH_TILT_DEG),
{
    tilt_deg > DEATH_TILT_DEG || tilt_deg < -DEATH_TILT_DEG
}

/// The inhabitants that outlive a tilt check: those whose home building,
/// with its tilt given in whole degrees per building, stays within the
/// threshold; order is kept.
pub open spec fn spec_survivors(hs: Seq<Inhabitant>, tilts: Seq<i64>) -> Seq<Inhabitant> {
    hs.filter(
        |h: Inhabitant|
            -DEATH_TILT_DEG <= tilts[h.home as int] <= DEATH_TILT_DEG,
    )
}

/// Removes every inhabitant whose home building tilts beyond the threshold;
/// `tilts` gives each building's tilt in whole degrees.
pub fn remove_dead_inhabitants(inhabitants: &mut Vec<Inhabitant>, tilts: &Vec<i64>)
    requires
        forall|k: int|
            0 <= k < old(inhabitants)@.len() ==> (#[trigger] old(inhabitants)@[k]).home
                < tilts@.len(),
    ensures
        final(inhabitants)@ == spec_survivors(old(inhabitants)@, tilts@),
{
    let ghost pred = |h: Inhabitant|
        -DEATH_TILT_DEG <= tilts@[h.home as int] <= DEATH_TILT_DEG;
    let mut kept: Vec<Inhabitant> = Vec::new();
    let mut i: usize = 0;
    proof {
        reveal(Seq::filter);
        assert(old(inhabitants)@.subrange(0, 0).filter(pred) =~= Seq::<Inhabitant>::empty());
    }
    while i < inhabitants.len()
        invariant
            *inhabitants == *old(inhabitants),
            i <= inhabitants@.len(),
            forall|k: int|
                0 <= k < old(inhabitants)@.len() ==> (#[trigger] old(inhabitants)@[k]).home
                    < tilts@.len(),
            pred == (|h: Inhabitant|
                -DEATH_TILT_DEG <= tilts@[h.home as int] <= DEATH_TILT_DEG),
            kept@ == old(inhabitants)@.subrange(0, i as int).filter(pred),
        decreases inhabitants@.len() - i,
    {
        let h = inhabitants[i];
        let tilt = tilts[h.home];
        if !check_inhabitant_death(tilt) {
            kept.push(h);
        }
        proof {
            let prefix = old(inhabitants)@.subrange(0, i as int);
            let one = seq![old(inhabitants)@[i as int]];
            assert(old(inhabitants)@.subrange(0, i + 1) =~= prefix + one);
            Seq::filter_distributes_over_add(prefix, one, pred);
            reveal(Seq::filter);
            assert(one.drop_last() =~= Seq::<Inhabitant>::empty());
            assert(Seq::<Inhabitant>::empty().filter(pred) =~= Seq::<Inhabitant>::empty());
            if pred(old(inhabitants)@[i as int]) {
                assert(one.filter(pred) =~= one);
            } else {
                assert(one.filter(pred) =~= Seq::<Inhabitant>::empty());
            }
        }
        i = i + 1;
    }
    proof {
        assert(old(inhabitants)@.subrange(0, old(inhabitants)@.len() as int) =~= old(
            inhabitants,
        )@);
    }
    *inhabitants = kept;
}

/// What one rent payment from a building is worth: half the building's
/// height above ground plus its width.
pub open spec fn spec_rent(b: Building) -> int {
    div_trunc(b.pos.y as int, 2) + b.size.x
}

/// The balance after one rent frame of one inhabitant: when the rent timer
/// fires, the building's rent lands on the balance.
pub open spec fn spec_money_after_rent(money: int, h: Inhabitant, b: Building, delta_ms: u64) -> int {
    if spec_tick(h.rent_timer, delta_ms).finished_this_tick {
        spec_clamp(money + spec_rent(b), i64::MIN as int, i64::MAX as int)
    } else {
        money
    }
}

/// One frame of an inhabitant's rent timer: when it fires, the building's
/// rent is added to the player's balance.
pub fn handle_rent_timers(
    inh: &mut Inhabitant,
    building: &Building,
    player: &mut Player,
    delta_ms: u64,
)
    requires
        building_ok(*building),
        delta_ms <= 1_000_000,
        old(inh).rent_timer.duration_ms == RENT_INTERVAL_MS,
        old(inh).rent_timer.elapsed_ms < RENT_INTERVAL_MS,
    ensures
        final(inh).home == old(inh).home,
        final(inh).x == old(inh).x,
        final(inh).target_x == old(inh).target_x,
        final(inh).move_timer == old(inh).move_timer,
        final(inh).rent_timer == spec_tick(old(inh).rent_timer, delta_ms),
        final(inh).rent_timer.elapsed_ms < RENT_INTERVAL_MS,
        final(player).money == spec_money_after_rent(
            old(player).money as int,
            *old(inh),
            *building,
            delta_ms,
        ),
{
    inh.rent_timer.tick(delta_ms);
    if inh.rent_timer.just_finished() {
        let rent: i64 = building.pos.y / 2 + building.size.x;
        player.adjust(rent);
    }
}

} // verus!
