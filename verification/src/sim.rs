//! The simulation context: one struct owns the player, the building registry,
//! the inhabitants, the joints, the preview, the tools and the earthquake
//! state, and one method per frame phase advances it.

use vstd::prelude::*;
use vstd::pervasive::VecAdditionalExecFns;
use crate::building::{
    building_ok, buildings_ok, committed_building, pos_ok, preview_ok, preview_rerolled,
    preview_update_step, try_place_building, update_selected_build_op, BuildOps, Building,
    BuildingVariants, PreviewBuilding, SelectedBuildOps, PLACEMENT_COST, SIM_LIMIT,
};
use crate::earthquake::{
    add_default_plates, earthquake, init_timers, plates_ok, quake_timer_ok, spec_impulse_magnitude,
    spec_quake_step, spec_rumble_fires, EarthquakeTimer, Impulse, PlateChain, PLATE_COUNT,
    RUMBLE_PLATE_COUNT,
};
use crate::geometry::Vec2i;
use crate::inhabitants::{
    handle_rent_timers, handle_spawn_new_inhabitant, inhabitant_ok, inhabitants_ok,
    move_inside_building, spec_money_after_rent, spec_move_rel, spec_new_inhabitant, Inhabitant,
};
use crate::joint::{
    check_building_clicked_for_joint, joint_click_rel, joint_tool_ok, joints_ok, BuildingJoint,
    JointTool,
};
use crate::player::{Player, STARTING_MONEY};
use crate::timer::spec_tick;

verus! {

/// More entities of one kind than this the simulation does not take on.
pub const REGISTRY_LIMIT: usize = 1_000_000_000;

/// The whole game state outside the physics engine's bodies.
#[derive(Clone, Debug)]
pub struct Simulation {
    /// the player's balance
    pub player: Player,
    /// every building placed so far; buildings are never removed
    pub buildings: Vec<Building>,
    /// everyone living in the buildings
    pub inhabitants: Vec<Inhabitant>,
    /// every joint bought so far
    pub joints: Vec<BuildingJoint>,
    /// the preview marking the next buildable slot
    pub preview: PreviewBuilding,
    /// the joint tool's click state
    pub joint_tool: JointTool,
    /// which build operation is selected
    pub build_ops: SelectedBuildOps,
    /// the earthquake state machine
    pub quake: EarthquakeTimer,
    /// the tectonic plates and their joints
    pub chain: PlateChain,
}

/// A simulation state every frame method preserves: every registry entry is
/// acceptable and refers into the registries, every building is wide enough
/// to walk in, and the registries stay below the size limit.
pub open spec fn sim_ok(s: Simulation) -> bool {
    &&& buildings_ok(s.buildings@)
    &&& forall|j: int| 0 <= j < s.buildings@.len() ==> (#[trigger] s.buildings@[j]).size.x >= 32
    &&& s.buildings@.len() <= REGISTRY_LIMIT
    &&& preview_ok(s.preview)
    &&& s.preview.size.x >= 32
    &&& joint_tool_ok(s.joint_tool, s.buildings@.len() as int)
    &&& joints_ok(s.joints@, s.buildings@.len() as int)
    &&& s.joints@.len() <= REGISTRY_LIMIT
    &&& inhabitants_ok(s.inhabitants@, s.buildings@.len() as int)
    &&& s.inhabitants@.len() <= REGISTRY_LIMIT
    &&& quake_timer_ok(s.quake)
    &&& plates_ok(s.chain.plates@)
}

impl Simulation {
    /// Starts a new game: the starting balance, one building at the origin
    /// with one inhabitant, an idle preview of the default size, the building
    /// tool selected, the earthquake timers waiting for the first quake, and
    /// the default plate chain.
    pub fn new() -> (s: Simulation)
        ensures
            sim_ok(s),
            s.player.money == STARTING_MONEY,
            s.buildings@.len() == 1,
            s.buildings@[0] == (Building {
                pos: Vec2i { x: 0i64, y: 0i64 },
                size: Vec2i { x: 100i64, y: 60i64 },
                chimney: None,
            }),
            s.inhabitants@.len() == 1,
            s.inhabitants@[0] == spec_new_inhabitant(0),
            s.joints@.len() == 0,
            s.preview == (PreviewBuilding {
                variant: BuildingVariants::Default,
                visible: false,
                bottom_support: false,
                blocked: false,
                size: Vec2i { x: 100i64, y: 60i64 },
                pos: Vec2i { x: 0i64, y: 0i64 },
            }),
            s.joint_tool is Idle,
            s.build_ops.selected is Building,
            s.quake.count == 0,
            !s.quake.next.paused && s.quake.next.elapsed_ms == 0,
            s.quake.stop.paused && s.quake.rumbles.paused,
            s.chain.plates@.len() == PLATE_COUNT,
    {
        let mut quake = EarthquakeTimer::new();
        init_timers(&mut quake);
        let mut buildings: Vec<Building> = Vec::new();
        buildings.push(
            Building {
                pos: Vec2i { x: 0, y: 0 },
                size: Vec2i { x: 100, y: 60 },
                chimney: None,
            },
        );
        let mut inhabitants: Vec<Inhabitant> = Vec::new();
        handle_spawn_new_inhabitant(&mut inhabitants, 0);
        Simulation {
            player: Player::new(),
            buildings,
            inhabitants,
            joints: Vec::new(),
            preview: PreviewBuilding {
                variant: BuildingVariants::Default,
                visible: false,
                bottom_support: false,
                blocked: false,
                size: Vec2i { x: 100, y: 60 },
                pos: Vec2i { x: 0, y: 0 },
            },
            joint_tool: JointTool::Idle,
            build_ops: SelectedBuildOps { selected: BuildOps::Building },
            quake,
            chain: add_default_plates(),
        }
    }

    /// Applies the keyboard's tool choice; picking the building tool clears a
    /// joint in progress.
    pub fn select_build_op(&mut self, key_b_released: bool, key_j_released: bool)
        requires
            sim_ok(*old(self)),
        ensures
            sim_ok(*final(self)),
            final(self).player == old(self).player,
            final(self).buildings == old(self).buildings,
            final(self).inhabitants == old(self).inhabitants,
            final(self).joints == old(self).joints,
            final(self).preview == old(self).preview,
            final(self).quake == old(self).quake,
            final(self).chain == old(self).chain,
            key_b_released ==> final(self).build_ops.selected is Building && final(self).joint_tool == JointTool::Idle,
            !key_b_released && key_j_released ==> final(self).build_ops.selected is Joint && final(self).joint_tool == old(self).joint_tool,
            !key_b_released && !key_j_released ==> final(self).build_ops == old(self).build_ops
                && final(self).joint_tool == old(self).joint_tool,
    {
        update_selected_build_op(
            &mut self.build_ops,
            &mut self.joint_tool,
            key_b_released,
            key_j_released,
        );
    }

    /// One frame of the preview while the building tool is selected: moves
    /// the preview to the slot the cursor's closest candidate offers and
    /// refreshes its flags; with the joint tool selected nothing runs.
    pub fn frame_update_preview(&mut self, cursor: Vec2i)
        requires
            sim_ok(*old(self)),
            pos_ok(cursor),
        ensures
            sim_ok(*final(self)),
            final(self).player == old(self).player,
            final(self).buildings == old(self).buildings,
            final(self).inhabitants == old(self).inhabitants,
            final(self).joints == old(self).joints,
            final(self).joint_tool == old(self).joint_tool,
            final(self).build_ops == old(self).build_ops,
            final(self).quake == old(self).quake,
            final(self).chain == old(self).chain,
            old(self).build_ops.selected is Building ==> preview_update_step(
                old(self).preview,
                final(self).preview,
                old(self).buildings@,
                old(self).chain.plates@,
                cursor,
            ),
            old(self).build_ops.selected is Joint ==> final(self).preview == old(self).preview,
    {
        match self.build_ops.selected {
            BuildOps::Building => {
                crate::building::update_preview_building(
                    &mut self.preview,
                    &self.buildings,
                    &self.chain.plates,
                    cursor,
                );
            },
            BuildOps::Joint => {},
        }
    }

    /// One placement attempt: with the building tool selected and the mouse
    /// released over a visible, unblocked, supported slot inside the build
    /// area, and the balance covering the fixed cost, the preview becomes a
    /// building with a fresh inhabitant and the preview rolls its next shape;
    /// any failing gate changes nothing.
    pub fn frame_place_building(&mut self, mouse_released: bool) -> (r: Option<usize>)
        requires
            sim_ok(*old(self)),
        ensures
            sim_ok(*final(self)),
            final(self).joints == old(self).joints,
            final(self).joint_tool == old(self).joint_tool,
            final(self).build_ops == old(self).build_ops,
            final(self).quake == old(self).quake,
            final(self).chain == old(self).chain,
            ({
                let gates = old(self).build_ops.selected is Building && mouse_released && old(self).preview.visible && !old(self).preview.blocked && old(self).preview.bottom_support
                    && pos_ok(old(self).preview.pos) && old(self).buildings@.len() < REGISTRY_LIMIT
                    && old(self).inhabitants@.len() < REGISTRY_LIMIT && old(self).player.money
                    >= PLACEMENT_COST;
                if gates {
                    &&& r == Some(old(self).buildings@.len() as usize)
                    &&& final(self).player.money == old(self).player.money - PLACEMENT_COST
                    &&& final(self).buildings@ == old(self).buildings@.push(
                        committed_building(old(self).preview),
                    )
                    &&& preview_rerolled(old(self).preview, final(self).preview)
                    &&& final(self).inhabitants@ == old(self).inhabitants@.push(
                        spec_new_inhabitant(old(self).buildings@.len() as usize),
                    )
                } else {
                    &&& r is None
                    &&& final(self).player == old(self).player
                    &&& final(self).buildings@ == old(self).buildings@
                    &&& final(self).preview == old(self).preview
                    &&& final(self).inhabitants@ == old(self).inhabitants@
                }
            }),
    {
        match self.build_ops.selected {
            BuildOps::Joint => {
                return None;
            },
            BuildOps::Building => {},
        }
        if !(self.preview.pos.x >= -SIM_LIMIT && self.preview.pos.x <= SIM_LIMIT
            && self.preview.pos.y >= -SIM_LIMIT && self.preview.pos.y <= SIM_LIMIT) {
            return None;
        }
        if !(self.buildings.len() < REGISTRY_LIMIT && self.inhabitants.len() < REGISTRY_LIMIT) {
            return None;
        }
        let r = try_place_building(
            &mut self.player,
            &mut self.buildings,
            &mut self.preview,
            mouse_released,
        );
        match r {
            Some(idx) => {
                handle_spawn_new_inhabitant(&mut self.inhabitants, idx);
                proof {
                    assert forall|j: int|
                        0 <= j < self.buildings@.len() implies (#[trigger] self.buildings@[j]).size.x
                        >= 32 by {
                        if j < old(self).buildings@.len() {
                            assert(old(self).buildings@[j].size.x >= 32);
                        }
                    }
                    assert forall|i: int|
                        0 <= i < self.inhabitants@.len() implies #[trigger] inhabitant_ok(
                        self.inhabitants@[i],
                        self.buildings@.len() as int,
                    ) by {
                        if i < old(self).inhabitants@.len() {
                            assert(inhabitant_ok(
                                old(self).inhabitants@[i],
                                old(self).buildings@.len() as int,
                            ));
                        }
                    }
                    assert forall|i: int|
                        0 <= i < self.joints@.len() implies #[trigger] crate::joint::joint_ok(
                        self.joints@[i],
                        self.buildings@.len() as int,
                    ) by {
                        assert(crate::joint::joint_ok(
                            self.joints@[i],
                            old(self).buildings@.len() as int,
                        ));
                    }
                }
            },
            None => {},
        }
        r
    }

    /// One click of the joint tool: runs only with the joint tool selected on
    /// a released mouse, and then arms, disarms or buys a joint as
    /// `joint_click_rel` says; otherwise nothing changes.
    pub fn frame_joint_click(&mut self, click: Vec2i, mouse_released: bool) -> (created: Option<
        usize,
    >)
        requires
            sim_ok(*old(self)),
            pos_ok(click),
        ensures
            sim_ok(*final(self)),
            final(self).buildings == old(self).buildings,
            final(self).inhabitants == old(self).inhabitants,
            final(self).preview == old(self).preview,
            final(self).build_ops == old(self).build_ops,
            final(self).quake == old(self).quake,
            final(self).chain == old(self).chain,
            ({
                let runs = old(self).build_ops.selected is Joint && mouse_released && old(self).joints@.len() < REGISTRY_LIMIT;
                if runs {
                    joint_click_rel(
                        old(self).buildings@,
                        click,
                        old(self).joint_tool,
                        final(self).joint_tool,
                        old(self).joints@,
                        final(self).joints@,
                        old(self).player.money,
                        final(self).player.money,
                        created,
                    )
                } else {
                    &&& final(self).joint_tool == old(self).joint_tool
                    &&& final(self).joints == old(self).joints
                    &&& final(self).player == old(self).player
                    &&& created is None
                }
            }),
    {
        match self.build_ops.selected {
            BuildOps::Building => {
                return None;
            },
            BuildOps::Joint => {},
        }
        if !mouse_released {
            return None;
        }
        if !(self.joints.len() < REGISTRY_LIMIT) {
            return None;
        }
        check_building_clicked_for_joint(
            &mut self.joint_tool,
            &mut self.joints,
            &mut self.player,
            &self.buildings,
            click,
        )
    }

    /// One fixed step of the earthquake: advances the quake timers and hands
    /// out this tick's one-shot impulses, if a rumble fired.
    pub fn frame_earthquake(&mut self, delta_ms: u64) -> (impulses: Vec<Impulse>)
        requires
            sim_ok(*old(self)),
            delta_ms <= 1_000_000,
        ensures
            sim_ok(*final(self)),
            final(self).player == old(self).player,
            final(self).buildings == old(self).buildings,
            final(self).inhabitants == old(self).inhabitants,
            final(self).joints == old(self).joints,
            final(self).preview == old(self).preview,
            final(self).joint_tool == old(self).joint_tool,
            final(self).build_ops == old(self).build_ops,
            final(self).chain == old(self).chain,
            final(self).quake == spec_quake_step(old(self).quake, delta_ms),
            final(self).quake.next.duration_ms <= old(self).quake.next.duration_ms,
            spec_rumble_fires(old(self).quake, delta_ms) ==> {
                &&& impulses@.len() == (if RUMBLE_PLATE_COUNT <= old(self).chain.plates@.len() {
                    RUMBLE_PLATE_COUNT as int
                } else {
                    old(self).chain.plates@.len() as int
                })
                &&& forall|k: int|
                    0 <= k < impulses@.len() ==> (#[trigger] impulses@[k]).plate < old(self).chain.plates@.len() && impulses@[k].magnitude == spec_impulse_magnitude(
                        final(self).quake.count,
                    )
                &&& forall|k: int, l: int|
                    0 <= k < l < impulses@.len() ==> impulses@[k].plate != impulses@[l].plate
            },
            !spec_rumble_fires(old(self).quake, delta_ms) ==> impulses@.len() == 0,
    {
        let n = self.chain.plates.len();
        earthquake(&mut self.quake, delta_ms, n)
    }

    /// One frame of every inhabitant's walk, all drifting with the same lean.
    pub fn step_inhabitants(&mut self, lean: i64, delta_ms: u64)
        requires
            sim_ok(*old(self)),
            -1000 <= lean <= 1000,
            delta_ms <= 1_000_000,
        ensures
            sim_ok(*final(self)),
            final(self).player == old(self).player,
            final(self).buildings == old(self).buildings,
            final(self).joints == old(self).joints,
            final(self).preview == old(self).preview,
            final(self).joint_tool == old(self).joint_tool,
            final(self).build_ops == old(self).build_ops,
            final(self).quake == old(self).quake,
            final(self).chain == old(self).chain,
            final(self).inhabitants@.len() == old(self).inhabitants@.len(),
            forall|i: int|
                0 <= i < old(self).inhabitants@.len() ==> spec_move_rel(
                    old(self).inhabitants@[i],
                    #[trigger] final(self).inhabitants@[i],
                    old(self).buildings@[old(self).inhabitants@[i].home as int],
                    lean,
                    delta_ms,
                ),
    {
        let mut i: usize = 0;
        while i < self.inhabitants.len()
            invariant
                sim_ok(*self),
                -1000 <= lean <= 1000,
                delta_ms <= 1_000_000,
                i <= self.inhabitants@.len(),
                self.player == old(self).player,
                self.buildings == old(self).buildings,
                self.joints == old(self).joints,
                self.preview == old(self).preview,
                self.joint_tool == old(self).joint_tool,
                self.build_ops == old(self).build_ops,
                self.quake == old(self).quake,
                self.chain == old(self).chain,
                self.inhabitants@.len() == old(self).inhabitants@.len(),
                forall|k: int|
                    i <= k < self.inhabitants@.len() ==> #[trigger] self.inhabitants@[k] == old(self).inhabitants@[k],
                forall|k: int|
                    0 <= k < i ==> spec_move_rel(
                        old(self).inhabitants@[k],
                        #[trigger] self.inhabitants@[k],
                        old(self).buildings@[old(self).inhabitants@[k].home as int],
                        lean,
                        delta_ms,
                    ),
            decreases self.inhabitants@.len() - i,
        {
            let h = self.inhabitants[i];
            proof {
                assert(inhabitant_ok(self.inhabitants@[i as int], self.buildings@.len() as int));
                assert(building_ok(self.buildings@[h.home as int]));
            }
            let b = self.buildings[h.home];
            let mut updated = h;
            move_inside_building(&mut updated, &b, lean, delta_ms);
            proof {
                assert(inhabitant_ok(updated, self.buildings@.len() as int));
            }
            self.inhabitants.set(i, updated);
            proof {
                assert forall|k: int|
                    0 <= k < self.inhabitants@.len() implies #[trigger] inhabitant_ok(
                    self.inhabitants@[k],
                    self.buildings@.len() as int,
                ) by {
                    if k != i {
                        assert(inhabitant_ok(
                            old(self).inhabitants@[k],
                            self.buildings@.len() as int,
                        ) || inhabitant_ok(self.inhabitants@[k], self.buildings@.len() as int));
                    }
                }
            }
            i = i + 1;
        }
    }

    /// One frame of every inhabitant's rent timer: each firing timer adds its
    /// building's rent to the balance, in registry order.
    pub fn collect_rents(&mut self, delta_ms: u64)
        requires
            sim_ok(*old(self)),
            delta_ms <= 1_000_000,
        ensures
            sim_ok(*final(self)),
            final(self).buildings == old(self).buildings,
            final(self).joints == old(self).joints,
            final(self).preview == old(self).preview,
            final(self).joint_tool == old(self).joint_tool,
            final(self).build_ops == old(self).build_ops,
            final(self).quake == old(self).quake,
            final(self).chain == old(self).chain,
            final(self).inhabitants@.len() == old(self).inhabitants@.len(),
            forall|i: int|
                0 <= i < old(self).inhabitants@.len() ==> #[trigger] final(self).inhabitants@[i]
                    == (Inhabitant {
                    rent_timer: spec_tick(old(self).inhabitants@[i].rent_timer, delta_ms),
                    ..old(self).inhabitants@[i]
                }),
            final(self).player.money == spec_money_after_rents(
                old(self).inhabitants@,
                old(self).buildings@,
                delta_ms,
                old(self).player.money as int,
                old(self).inhabitants@.len() as int,
            ),
    {
        let mut i: usize = 0;
        while i < self.inhabitants.len()
            invariant
                sim_ok(*self),
                delta_ms <= 1_000_000,
                i <= self.inhabitants@.len(),
                self.buildings == old(self).buildings,
                self.joints == old(self).joints,
                self.preview == old(self).preview,
                self.joint_tool == old(self).joint_tool,
                self.build_ops == old(self).build_ops,
                self.quake == old(self).quake,
                self.chain == old(self).chain,
                self.inhabitants@.len() == old(self).inhabitants@.len(),
                forall|k: int|
                    i <= k < self.inhabitants@.len() ==> #[trigger] self.inhabitants@[k] == old(self).inhabitants@[k],
                forall|k: int|
                    0 <= k < i ==> #[trigger] self.inhabitants@[k] == (Inhabitant {
                        rent_timer: spec_tick(old(self).inhabitants@[k].rent_timer, delta_ms),
                        ..old(self).inhabitants@[k]
                    }),
                self.player.money == spec_money_after_rents(
                    old(self).inhabitants@,
                    old(self).buildings@,
                    delta_ms,
                    old(self).player.money as int,
                    i as int,
                ),
            decreases self.inhabitants@.len() - i,
        {
            let h = self.inhabitants[i];
            proof {
                assert(inhabitant_ok(self.inhabitants@[i as int], self.buildings@.len() as int));
                assert(building_ok(self.buildings@[h.home as int]));
            }
            let b = self.buildings[h.home];
            let mut updated = h;
            handle_rent_timers(&mut updated, &b, &mut self.player, delta_ms);
            proof {
                assert(inhabitant_ok(updated, self.buildings@.len() as int));
            }
            self.inhabitants.set(i, updated);
            proof {
                assert forall|k: int|
                    0 <= k < self.inhabitants@.len() implies #[trigger] inhabitant_ok(
                    self.inhabitants@[k],
                    self.buildings@.len() as int,
                ) by {
                    if k != i {
                        assert(inhabitant_ok(
                            old(self).inhabitants@[k],
                            self.buildings@.len() as int,
                        ) || inhabitant_ok(self.inhabitants@[k], self.buildings@.len() as int));
                    }
                }
            }
            i = i + 1;
        }
    }
}

/// The balance after the first `k` inhabitants' rent frames, in registry
/// order.
pub open spec fn spec_money_after_rents(
    hs: Seq<Inhabitant>,
    bs: Seq<Building>,
    delta_ms: u64,
    money: int,
    k: int,
) -> int
    decreases k,
{
    if k <= 0 {
        money
    } else {
        spec_money_after_rent(
            spec_money_after_rents(hs, bs, delta_ms, money, k - 1),
            hs[k - 1],
            bs[hs[k - 1].home as int],
            delta_ms,
        )
    }
}

} // verus!
