//! The two-click joint tool: the first click on a building arms the tool with
//! a building-local anchor, the second click on a building buys a breakable
//! distance joint between the two anchors, priced by the anchor distance.

use vstd::prelude::*;
use crate::building::{
    building_box, building_ok, buildings_ok, pos_ok, Building, BUILDING_MAX_SIZE,
};
use crate::geometry::{
    aabb_contains, aabb_contains_point, dist_sq, dist_sq_points, isqrt, rect_aabb, sqrt_floor,
    v_add, v_sub, vec_add, vec_sub, Vec2i,
};
use crate::player::Player;

verus! {

/// Money per world unit of anchor distance when buying a joint.
pub const JOINT_COST_RATE: i64 = 3;

/// The joint tool's click state: either nothing is recorded, or a first
/// anchor is armed and the next click will try to buy a joint.
#[derive(Clone, Copy, PartialEq, Eq, Structural, Debug)]
pub enum JointTool {
    /// no start point recorded
    Idle,
    /// a start point was recorded on a building
    Armed {
        /// the building the first click landed on
        building: usize,
        /// the click point in that building's local frame
        local_anchor: Vec2i,
    },
}

/// A breakable link between two buildings, each end anchored at a
/// building-local point; the rest length is the anchor distance at creation.
#[derive(Clone, Copy, PartialEq, Eq, Structural, Debug)]
pub struct BuildingJoint {
    /// the building the joint starts on
    pub building_a: usize,
    /// the building the joint ends on
    pub building_b: usize,
    /// anchor in the first building's local frame
    pub local_anchor_a: Vec2i,
    /// anchor in the second building's local frame
    pub local_anchor_b: Vec2i,
    /// anchor distance at creation time
    pub rest_length: i64,
}

/// A local anchor the simulation accepts: it stays within one building
/// extent of the building's centre.
pub open spec fn anchor_ok(a: Vec2i) -> bool {
    -BUILDING_MAX_SIZE <= a.x <= BUILDING_MAX_SIZE && -BUILDING_MAX_SIZE <= a.y
        <= BUILDING_MAX_SIZE
}

/// A tool state the simulation accepts against a registry of `n` buildings.
pub open spec fn joint_tool_ok(t: JointTool, n: int) -> bool {
    match t {
        JointTool::Idle => true,
        JointTool::Armed { building, local_anchor } => building < n && anchor_ok(local_anchor),
    }
}

/// A joint the simulation accepts against a registry of `n` buildings.
pub open spec fn joint_ok(j: BuildingJoint, n: int) -> bool {
    &&& j.building_a < n
    &&& j.building_b < n
    &&& anchor_ok(j.local_anchor_a)
    &&& anchor_ok(j.local_anchor_b)
    &&& j.rest_length >= 0
}

/// All joints of a registry are acceptable.
pub open spec fn joints_ok(js: Seq<BuildingJoint>, n: int) -> bool {
    forall|i: int| 0 <= i < js.len() ==> #[trigger] joint_ok(js[i], n)
}

/// Where a building-local anchor sits in the world.
pub open spec fn anchor_world(b: Building, local: Vec2i) -> Vec2i {
    v_add(b.pos, local)
}

/// What a joint between two world points costs: their distance, rounded
/// down, at the fixed rate.
pub open spec fn spec_joint_cost(a: Vec2i, b: Vec2i) -> int {
    sqrt_floor(dist_sq(a, b) as nat) * JOINT_COST_RATE
}

/// True when `i` is the first building whose body contains the point.
pub open spec fn hit_building(bs: Seq<Building>, p: Vec2i, i: int) -> bool {
    &&& 0 <= i < bs.len()
    &&& aabb_contains(building_box(bs[i]), p)
    &&& forall|j: int| 0 <= j < i ==> !aabb_contains(#[trigger] building_box(bs[j]), p)
}

/// Finds the first building whose body contains the point.
pub fn building_containing(buildings: &Vec<Building>, p: Vec2i) -> (r: Option<usize>)
    requires
        buildings_ok(buildings@),
    ensures
        match r {
            None => forall|j: int|
                0 <= j < buildings@.len() ==> !aabb_contains(
                    #[trigger] building_box(buildings@[j]),
                    p,
                ),
            Some(i) => hit_building(buildings@, p, i as int),
        },
{
    let mut idx: usize = 0;
    while idx < buildings.len()
        invariant
            buildings_ok(buildings@),
            idx <= buildings@.len(),
            forall|j: int|
                0 <= j < idx ==> !aabb_contains(#[trigger] building_box(buildings@[j]), p),
        decreases buildings@.len() - idx,
    {
        let b = buildings[idx];
        proof {
            assert(building_ok(buildings@[idx as int]));
        }
        let bb = rect_aabb(b.pos, b.size);
        if aabb_contains_point(&bb, p) {
            return Some(idx);
        }
        idx = idx + 1;
    }
    None
}

/// How one click of the joint tool relates the world before and after. With
/// no buildings, nothing changes. A click outside every building disarms the
/// tool and touches nothing else. A click on a building either arms the tool
/// with the click's building-local offset, or, with the tool already armed,
/// buys a joint between the armed anchor and the new one at their world
/// distance times the rate: rejected outright, with the armed anchor kept,
/// when the cost exceeds the balance.
pub open spec fn joint_click_rel(
    bs: Seq<Building>,
    click: Vec2i,
    o_tool: JointTool,
    n_tool: JointTool,
    o_joints: Seq<BuildingJoint>,
    n_joints: Seq<BuildingJoint>,
    o_money: i64,
    n_money: i64,
    created: Option<usize>,
) -> bool {
    &&& (bs.len() == 0 ==> n_tool == o_tool && n_joints == o_joints && n_money == o_money
        && created is None)
    &&& ((bs.len() > 0 && forall|j: int|
        0 <= j < bs.len() ==> !aabb_contains(#[trigger] building_box(bs[j]), click)) ==> {
        &&& n_tool == JointTool::Idle
        &&& n_joints == o_joints
        &&& n_money == o_money
        &&& created is None
    })
    &&& forall|i: int| #[trigger]
        hit_building(bs, click, i) ==> match o_tool {
            JointTool::Idle => {
                &&& n_tool == (JointTool::Armed {
                    building: i as usize,
                    local_anchor: v_sub(click, bs[i].pos),
                })
                &&& n_joints == o_joints
                &&& n_money == o_money
                &&& created is None
            },
            JointTool::Armed { building: a, local_anchor: anchor_a } => {
                let start = anchor_world(bs[a as int], anchor_a);
                let cost = spec_joint_cost(start, click);
                if cost > o_money {
                    &&& n_tool == o_tool
                    &&& n_joints == o_joints
                    &&& n_money == o_money
                    &&& created is None
                } else {
                    &&& n_tool == JointTool::Idle
                    &&& n_money == o_money - cost
                    &&& n_joints == o_joints.push(
                        BuildingJoint {
                            building_a: a,
                            building_b: i as usize,
                            local_anchor_a: anchor_a,
                            local_anchor_b: v_sub(click, bs[i].pos),
                            rest_length: (sqrt_floor(dist_sq(start, click) as nat)) as i64,
                        },
                    )
                    &&& created == Some(o_joints.len() as usize)
                }
            },
        }
}

/// One click of the joint tool. A click outside every building disarms the
/// tool; a first click inside a building arms it with the local anchor; a
/// second click inside a building buys a joint at the anchors' distance times
/// the rate, unless the cost exceeds the balance, in which case nothing
/// changes and the armed anchor persists.
pub fn check_building_clicked_for_joint(
    tool: &mut JointTool,
    joints: &mut Vec<BuildingJoint>,
    player: &mut Player,
    buildings: &Vec<Building>,
    click: Vec2i,
) -> (created: Option<usize>)
    requires
        buildings_ok(buildings@),
        pos_ok(click),
        joint_tool_ok(*old(tool), buildings@.len() as int),
        joints_ok(old(joints)@, buildings@.len() as int),
        old(joints)@.len() < usize::MAX,
    ensures
        joint_tool_ok(*final(tool), buildings@.len() as int),
        joints_ok(final(joints)@, buildings@.len() as int),
        final(joints)@.len() <= old(joints)@.len() + 1,
        joint_click_rel(
            buildings@,
            click,
            *old(tool),
            *final(tool),
            old(joints)@,
            final(joints)@,
            old(player).money,
            final(player).money,
            created,
        ),
{
    if buildings.len() == 0 {
        return None;
    }
    let hit = match building_containing(buildings, click) {
        Some(i) => i,
        None => {
            *tool = JointTool::Idle;
            return None;
        },
    };
    let b = buildings[hit];
    proof {
        assert(building_ok(buildings@[hit as int]));
        assert(aabb_contains(building_box(buildings@[hit as int]), click));
    }
    let local = vec_sub(click, b.pos);
    proof {
        assert(anchor_ok(local));
    }
    match *tool {
        JointTool::Idle => {
            *tool = JointTool::Armed { building: hit, local_anchor: local };
            None
        },
        JointTool::Armed { building: a, local_anchor: anchor_a } => {
            let ba = buildings[a];
            proof {
                assert(building_ok(buildings@[a as int]));
            }
            let start = vec_add(ba.pos, anchor_a);
            let d2 = dist_sq_points(start, click);
            let root = isqrt(d2);
            proof {
                assert(d2 <= 8_000_000_000_000u64) by (nonlinear_arith)
                    requires
                        d2 == dist_sq(start, click),
                        -2_000_000 <= start.x - click.x <= 2_000_000,
                        -2_000_000 <= start.y - click.y <= 2_000_000,
                ;
                assert(root <= 3_000_000) by (nonlinear_arith)
                    requires
                        root * root <= d2,
                        d2 <= 8_000_000_000_000u64,
                ;
            }
            let cost: i64 = (root as i64) * JOINT_COST_RATE;
            if cost > player.money {
                return None;
            }
            let _debited = player.try_debit(cost);
            let idx = joints.len();
            let made = BuildingJoint {
                building_a: a,
                building_b: hit,
                local_anchor_a: anchor_a,
                local_anchor_b: local,
                rest_length: root as i64,
            };
            proof {
                assert(joint_ok(made, buildings@.len() as int));
            }
            joints.push(made);
            proof {
                assert forall|i: int| 0 <= i < joints@.len() implies #[trigger] joint_ok(
                    joints@[i],
                    buildings@.len() as int,
                ) by {
                    if i < old(joints)@.len() {
                        assert(joint_ok(old(joints)@[i], buildings@.len() as int));
                    }
                }
            }
            *tool = JointTool::Idle;
            Some(idx)
        },
    }
}

/// The live rubber-band length the joint preview shows: the distance from
/// the armed anchor's world position to the cursor, zero while the tool is
/// idle.
pub fn preview_joint_length(tool: &JointTool, buildings: &Vec<Building>, cursor: Vec2i) -> (len:
    i64)
    requires
        buildings_ok(buildings@),
        pos_ok(cursor),
        joint_tool_ok(*tool, buildings@.len() as int),
    ensures
        match *tool {
            JointTool::Idle => len == 0,
            JointTool::Armed { building, local_anchor } => len == sqrt_floor(
                dist_sq(anchor_world(buildings@[building as int], local_anchor), cursor) as nat,
            ),
        },
        0 <= len <= 3_000_000,
{
    match *tool {
        JointTool::Idle => 0,
        JointTool::Armed { building, local_anchor } => {
            let b = buildings[building];
            proof {
                assert(building_ok(buildings@[building as int]));
            }
            let start = vec_add(b.pos, local_anchor);
            let d2 = dist_sq_points(start, cursor);
            let root = isqrt(d2);
            proof {
                assert(d2 <= 8_000_000_000_000u64) by (nonlinear_arith)
                    requires
                        d2 == dist_sq(start, cursor),
                        -2_000_000 <= start.x - cursor.x <= 2_000_000,
                        -2_000_000 <= start.y - cursor.y <= 2_000_000,
                ;
                assert(root <= 3_000_000) by (nonlinear_arith)
                    requires
                        root * root <= d2,
                        d2 <= 8_000_000_000_000u64,
                ;
            }
            root as i64
        },
    }
}

} // verus!
