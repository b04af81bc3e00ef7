//! Everything related to placing new buildings: the candidate heuristic that
//! picks the building nearest the cursor, the preview that mirrors the next
//! buildable slot, and the commit that turns the preview into a building.

use vstd::prelude::*;
use crate::geometry::{
    aabb_overlap_closed, aabb_overlap_strict, aabbs_overlap_closed, aabbs_overlap_strict,
    dist_sq_point_aabb, point_aabb_dist_sq, rect_aabb, spec_rect_aabb, v_add, vec_add, Aabb, Vec2i,
};
use crate::earthquake::{plate_box, plate_ok, plates_ok, Plate, PLATE_HEIGHT, PLATE_WIDTH};
use crate::joint::JointTool;
use crate::player::Player;
use crate::rng::{random_i64_inclusive, random_index};

verus! {

/// Fixed fee debited from the player's balance for each placed building.
pub const PLACEMENT_COST: i64 = 500;

/// Radius of the circular cursor sensor that gathers candidate buildings.
pub const CURSOR_RADIUS: i64 = 50;

/// Largest magnitude the simulation accepts for a building centre or a cursor
/// position; keeps every derived coordinate within the world bound.
pub const SIM_LIMIT: i64 = 900_000;

/// Largest extent of a building along either axis.
pub const BUILDING_MAX_SIZE: i64 = 2000;

/// Width of a chimney shape.
pub const CHIMNEY_WIDTH: i64 = 20;

/// Height of a chimney shape.
pub const CHIMNEY_HEIGHT: i64 = 30;

/// True when a point lies within the simulation's position bound.
pub open spec fn pos_ok(p: Vec2i) -> bool {
    -SIM_LIMIT <= p.x <= SIM_LIMIT && -SIM_LIMIT <= p.y <= SIM_LIMIT
}

/// Types of buildings.
#[derive(Clone, Copy, PartialEq, Eq, Structural, Debug)]
pub enum BuildingVariants {
    /// Flat roof
    Default,
    /// building with a chimney and its local offset
    Chimney(Vec2i),
}

/// A building: a rectangle centred on `pos`, possibly carrying a chimney at a
/// local offset.
#[derive(Clone, Copy, PartialEq, Eq, Structural, Debug)]
pub struct Building {
    /// centre of the building
    pub pos: Vec2i,
    /// size of the building
    pub size: Vec2i,
    /// local offset of the chimney shape, for buildings that have one
    pub chimney: Option<Vec2i>,
}

/// A building the simulation accepts: bounded centre, bounded extents, and a
/// bounded chimney offset.
pub open spec fn building_ok(b: Building) -> bool {
    &&& pos_ok(b.pos)
    &&& 0 <= b.size.x <= BUILDING_MAX_SIZE
    &&& 0 <= b.size.y <= BUILDING_MAX_SIZE
    &&& match b.chimney {
        Some(o) => -BUILDING_MAX_SIZE <= o.x <= BUILDING_MAX_SIZE && -BUILDING_MAX_SIZE <= o.y
            <= BUILDING_MAX_SIZE,
        None => true,
    }
}

/// All buildings of a registry are acceptable.
pub open spec fn buildings_ok(bs: Seq<Building>) -> bool {
    forall|j: int| 0 <= j < bs.len() ==> #[trigger] building_ok(bs[j])
}

/// The box a building's body covers.
pub open spec fn building_box(b: Building) -> Aabb {
    spec_rect_aabb(b.pos, b.size)
}

/// The box a chimney at local offset `o` on building `b` covers.
pub open spec fn chimney_box(b: Building, o: Vec2i) -> Aabb {
    spec_rect_aabb(v_add(b.pos, o), Vec2i { x: CHIMNEY_WIDTH, y: CHIMNEY_HEIGHT })
}

/// True when the cursor's height falls within the building's vertical span.
pub open spec fn same_row(b: Building, cursor: Vec2i) -> bool {
    building_box(b).min.y <= cursor.y <= building_box(b).max.y
}

/// Squared distance from the cursor to the building's body.
pub open spec fn cursor_dist(b: Building, cursor: Vec2i) -> int {
    dist_sq_point_aabb(building_box(b), cursor)
}

/// True when the building touches the circular cursor sensor.
pub open spec fn is_candidate(b: Building, cursor: Vec2i) -> bool {
    cursor_dist(b, cursor) <= CURSOR_RADIUS * CURSOR_RADIUS
}

/// True when some candidate building brackets the cursor's height.
pub open spec fn any_same_row_candidate(bs: Seq<Building>, cursor: Vec2i) -> bool {
    exists|j: int|
        0 <= j < bs.len() && #[trigger] is_candidate(bs[j], cursor) && same_row(bs[j], cursor)
}

/// True for candidates in the preferred class: all candidates when no
/// candidate shares the cursor's row, otherwise only those that do.
pub open spec fn preferred(bs: Seq<Building>, cursor: Vec2i, j: int) -> bool {
    &&& 0 <= j < bs.len()
    &&& is_candidate(bs[j], cursor)
    &&& (any_same_row_candidate(bs, cursor) ==> same_row(bs[j], cursor))
}

/// True when `i` is the building the heuristic picks: the first preferred
/// candidate at minimal distance from the cursor.
pub open spec fn selected(bs: Seq<Building>, cursor: Vec2i, i: int) -> bool {
    &&& preferred(bs, cursor, i)
    &&& forall|j: int|
        #[trigger] preferred(bs, cursor, j) ==> cursor_dist(bs[i], cursor) <= cursor_dist(
            bs[j],
            cursor,
        )
    &&& forall|j: int|
        #[trigger] preferred(bs, cursor, j) && j < i ==> cursor_dist(bs[i], cursor) < cursor_dist(
            bs[j],
            cursor,
        )
}

/// Finds the building closest to the cursor among those touching the cursor
/// sensor, preferring buildings whose vertical span brackets the cursor.
pub fn find_building_closest_to_cursor(buildings: &Vec<Building>, cursor: Vec2i) -> (r: Option<
    usize,
>)
    requires
        buildings_ok(buildings@),
        pos_ok(cursor),
    ensures
        match r {
            None => forall|j: int|
                0 <= j < buildings@.len() ==> !#[trigger] is_candidate(buildings@[j], cursor),
            Some(i) => i < buildings@.len() && selected(buildings@, cursor, i as int),
        },
{
    let mut same_row_found: bool = false;
    let mut min_d: u64 = u64::MAX;
    let mut best: Option<usize> = None;
    let mut idx: usize = 0;
    while idx < buildings.len()
        invariant
            buildings_ok(buildings@),
            pos_ok(cursor),
            idx <= buildings@.len(),
            same_row_found == exists|j: int|
                0 <= j < idx && #[trigger] is_candidate(buildings@[j], cursor) && same_row(
                    buildings@[j],
                    cursor,
                ),
            match best {
                None => !same_row_found && min_d == u64::MAX && forall|j: int|
                    0 <= j < idx ==> !#[trigger] is_candidate(buildings@[j], cursor),
                Some(i) => {
                    &&& i < idx
                    &&& is_candidate(buildings@[i as int], cursor)
                    &&& min_d == cursor_dist(buildings@[i as int], cursor)
                    &&& (same_row_found ==> same_row(buildings@[i as int], cursor))
                    &&& forall|j: int|
                        0 <= j < idx && #[trigger] is_candidate(buildings@[j], cursor) && (
                        same_row_found ==> same_row(buildings@[j], cursor)) ==> min_d <= cursor_dist(
                            buildings@[j],
                            cursor,
                        )
                    &&& forall|j: int|
                        0 <= j < i && #[trigger] is_candidate(buildings@[j], cursor) && (
                        same_row_found ==> same_row(buildings@[j], cursor)) ==> min_d < cursor_dist(
                            buildings@[j],
                            cursor,
                        )
                },
            },
        decreases buildings@.len() - idx,
    {
        let b = buildings[idx];
        proof {
            assert(building_ok(buildings@[idx as int]));
        }
        let a = rect_aabb(b.pos, b.size);
        let d = point_aabb_dist_sq(&a, cursor);
        proof {
            assert(a == building_box(buildings@[idx as int]));
            assert(d == cursor_dist(buildings@[idx as int], cursor));
            assert(is_candidate(buildings@[idx as int], cursor) == (d <= 2500));
        }
        if d <= 2500 {
            let b_same_row = a.min.y <= cursor.y && cursor.y <= a.max.y;
            proof {
                assert(b_same_row == same_row(buildings@[idx as int], cursor));
            }
            if b_same_row && !same_row_found {
                same_row_found = true;
                min_d = d;
                best = Some(idx);
            } else if !(!b_same_row && same_row_found) && d < min_d {
                min_d = d;
                best = Some(idx);
            }
        }
        idx = idx + 1;
    }
    best
}

/// Largest magnitude the preview's centre can reach: a slot sits at most one
/// building extent away from a building centre or a cursor position.
pub const PREVIEW_LIMIT: i64 = 950_000;

/// Vertical offset from the preview's centre down to the centre of its
/// bottom-support sensor.
pub const SUPPORT_SENSOR_DROP: i64 = 40;

/// Height of the bottom-support sensor.
pub const SUPPORT_SENSOR_HEIGHT: i64 = 10;

/// The Building which will be shown when a possible slot was found.
#[derive(Clone, Copy, PartialEq, Eq, Structural, Debug)]
pub struct PreviewBuilding {
    /// The variant that will be spawned
    pub variant: BuildingVariants,
    /// true if cursor is close enough to put the building anywhere
    pub visible: bool,
    /// flag if there is a building beneath
    pub bottom_support: bool,
    /// blocked if a neighbor building is close, but something occupies the slot
    pub blocked: bool,
    /// the size the building will take up
    pub size: Vec2i,
    /// centre of the slot the preview marks
    pub pos: Vec2i,
}

/// A preview the simulation accepts: bounded centre and extents, and a
/// bounded chimney offset.
pub open spec fn preview_ok(pv: PreviewBuilding) -> bool {
    &&& -PREVIEW_LIMIT <= pv.pos.x <= PREVIEW_LIMIT
    &&& -PREVIEW_LIMIT <= pv.pos.y <= PREVIEW_LIMIT
    &&& 0 <= pv.size.x <= BUILDING_MAX_SIZE
    &&& 0 <= pv.size.y <= BUILDING_MAX_SIZE
    &&& match pv.variant {
        BuildingVariants::Chimney(o) => -BUILDING_MAX_SIZE <= o.x <= BUILDING_MAX_SIZE
            && -BUILDING_MAX_SIZE <= o.y <= BUILDING_MAX_SIZE,
        BuildingVariants::Default => true,
    }
}

/// True when the box shares interior area with the building's body or its
/// chimney.
pub open spec fn box_hits_building(x: Aabb, b: Building) -> bool {
    ||| aabb_overlap_strict(x, building_box(b))
    ||| match b.chimney {
        Some(o) => aabb_overlap_strict(x, chimney_box(b, o)),
        None => false,
    }
}

/// True when the box shares interior area with any building, chimney or
/// plate; shapes that merely touch along an edge leave the slot free.
pub open spec fn box_blocked(x: Aabb, bs: Seq<Building>, ps: Seq<Plate>) -> bool {
    ||| exists|j: int| 0 <= j < bs.len() && #[trigger] box_hits_building(x, bs[j])
    ||| exists|j: int| 0 <= j < ps.len() && aabb_overlap_strict(x, #[trigger] plate_box(ps[j]))
}

/// The box of a preview chimney at local offset `o` when the preview sits at
/// `pos`.
pub open spec fn preview_chimney_box(pos: Vec2i, o: Vec2i) -> Aabb {
    spec_rect_aabb(v_add(pos, o), Vec2i { x: CHIMNEY_WIDTH, y: CHIMNEY_HEIGHT })
}

/// True when a preview of the given size and variant at `pos` overlaps some
/// other shape of the world.
pub open spec fn preview_blocked(
    pos: Vec2i,
    size: Vec2i,
    variant: BuildingVariants,
    bs: Seq<Building>,
    ps: Seq<Plate>,
) -> bool {
    ||| box_blocked(spec_rect_aabb(pos, size), bs, ps)
    ||| match variant {
        BuildingVariants::Chimney(o) => box_blocked(preview_chimney_box(pos, o), bs, ps),
        BuildingVariants::Default => false,
    }
}

/// The box of the small sensor beneath a preview of the given size at `pos`.
pub open spec fn support_box(pos: Vec2i, size: Vec2i) -> Aabb {
    spec_rect_aabb(
        Vec2i { x: pos.x, y: (pos.y - SUPPORT_SENSOR_DROP) as i64 },
        Vec2i { x: (9 * size.x / 10) as i64, y: SUPPORT_SENSOR_HEIGHT },
    )
}

/// True when the preview's bottom sensor touches a building, or the preview
/// sits at ground level.
pub open spec fn has_bottom_support(pos: Vec2i, size: Vec2i, bs: Seq<Building>) -> bool {
    ||| exists|j: int|
        0 <= j < bs.len() && aabb_overlap_closed(support_box(pos, size), #[trigger] building_box(bs[j]))
    ||| pos.y < 1
}

/// The slot beside a building, on whichever side the cursor is nearer to.
pub open spec fn side_slot(b: Building, cursor: Vec2i, size: Vec2i) -> Vec2i {
    if cursor.x < b.pos.x {
        Vec2i { x: (building_box(b).min.x - size.x / 2) as i64, y: b.pos.y }
    } else {
        Vec2i { x: (building_box(b).max.x + size.x / 2) as i64, y: b.pos.y }
    }
}

/// The slot directly above a building, centred horizontally on the cursor.
pub open spec fn above_slot(b: Building, cursor: Vec2i, size: Vec2i) -> Vec2i {
    Vec2i { x: cursor.x, y: (building_box(b).max.y + size.y / 2) as i64 }
}

/// How the selected building, the cursor and the world fix the new preview:
/// the slot beside the building when the cursor shares its row, the slot above
/// it when the cursor is higher, and no slot at all when the cursor is below
/// it; the blocked and bottom-support flags are recomputed at the new
/// position.
pub open spec fn placed_by(
    b: Building,
    old_pv: PreviewBuilding,
    new_pv: PreviewBuilding,
    bs: Seq<Building>,
    ps: Seq<Plate>,
    cursor: Vec2i,
) -> bool {
    &&& (if same_row(b, cursor) {
        new_pv.visible && new_pv.pos == side_slot(b, cursor, old_pv.size)
    } else if cursor.y >= building_box(b).max.y {
        new_pv.visible && new_pv.pos == above_slot(b, cursor, old_pv.size)
    } else {
        !new_pv.visible && new_pv.pos == old_pv.pos
    })
    &&& new_pv.blocked == preview_blocked(new_pv.pos, new_pv.size, new_pv.variant, bs, ps)
    &&& new_pv.bottom_support == has_bottom_support(new_pv.pos, new_pv.size, bs)
}

/// The full frame step of the preview: when no building touches the cursor
/// sensor the preview is hidden and follows the cursor with its flags left
/// alone; otherwise the selected candidate places it as `placed_by` says.
pub open spec fn preview_update_step(
    old_pv: PreviewBuilding,
    new_pv: PreviewBuilding,
    bs: Seq<Building>,
    ps: Seq<Plate>,
    cursor: Vec2i,
) -> bool {
    &&& new_pv.variant == old_pv.variant
    &&& new_pv.size == old_pv.size
    &&& if forall|j: int| 0 <= j < bs.len() ==> !#[trigger] is_candidate(bs[j], cursor) {
        new_pv == PreviewBuilding { visible: false, pos: cursor, ..old_pv }
    } else {
        exists|i: int|
            #[trigger] selected(bs, cursor, i) && placed_by(bs[i], old_pv, new_pv, bs, ps, cursor)
    }
}

/// Tests whether the box shares interior area with any building, chimney or
/// plate.
fn box_blocked_exec(x: &Aabb, buildings: &Vec<Building>, plates: &Vec<Plate>) -> (r: bool)
    requires
        buildings_ok(buildings@),
        plates_ok(plates@),
    ensures
        r == box_blocked(*x, buildings@, plates@),
{
    let mut idx: usize = 0;
    while idx < buildings.len()
        invariant
            buildings_ok(buildings@),
            idx <= buildings@.len(),
            forall|j: int| 0 <= j < idx ==> !#[trigger] box_hits_building(*x, buildings@[j]),
        decreases buildings@.len() - idx,
    {
        let b = buildings[idx];
        proof {
            assert(building_ok(buildings@[idx as int]));
        }
        let bb = rect_aabb(b.pos, b.size);
        if aabbs_overlap_strict(x, &bb) {
            proof {
                assert(box_hits_building(*x, buildings@[idx as int]));
            }
            return true;
        }
        match b.chimney {
            Some(o) => {
                let cb = rect_aabb(vec_add(b.pos, o), Vec2i { x: CHIMNEY_WIDTH, y: CHIMNEY_HEIGHT });
                if aabbs_overlap_strict(x, &cb) {
                    proof {
                        assert(cb == chimney_box(buildings@[idx as int], o));
                        assert(box_hits_building(*x, buildings@[idx as int]));
                    }
                    return true;
                }
            },
            None => {},
        }
        idx = idx + 1;
    }
    let mut pdx: usize = 0;
    while pdx < plates.len()
        invariant
            plates_ok(plates@),
            pdx <= plates@.len(),
            forall|j: int|
                0 <= j < pdx ==> !aabb_overlap_strict(*x, #[trigger] plate_box(plates@[j])),
        decreases plates@.len() - pdx,
    {
        let p = plates[pdx];
        proof {
            assert(plate_ok(plates@[pdx as int]));
        }
        let pb = rect_aabb(p.pos, Vec2i { x: PLATE_WIDTH, y: PLATE_HEIGHT });
        if aabbs_overlap_strict(x, &pb) {
            proof {
                assert(aabb_overlap_strict(*x, plate_box(plates@[pdx as int])));
            }
            return true;
        }
        pdx = pdx + 1;
    }
    false
}

/// Tests whether a preview of the given size and variant at `pos` overlaps
/// some other shape of the world.
fn preview_blocked_exec(
    pos: Vec2i,
    size: Vec2i,
    variant: &BuildingVariants,
    buildings: &Vec<Building>,
    plates: &Vec<Plate>,
) -> (r: bool)
    requires
        -PREVIEW_LIMIT <= pos.x <= PREVIEW_LIMIT,
        -PREVIEW_LIMIT <= pos.y <= PREVIEW_LIMIT,
        0 <= size.x <= BUILDING_MAX_SIZE,
        0 <= size.y <= BUILDING_MAX_SIZE,
        match *variant {
            BuildingVariants::Chimney(o) => -BUILDING_MAX_SIZE <= o.x <= BUILDING_MAX_SIZE
                && -BUILDING_MAX_SIZE <= o.y <= BUILDING_MAX_SIZE,
            BuildingVariants::Default => true,
        },
        buildings_ok(buildings@),
        plates_ok(plates@),
    ensures
        r == preview_blocked(pos, size, *variant, buildings@, plates@),
{
    let body = rect_aabb(pos, size);
    if box_blocked_exec(&body, buildings, plates) {
        return true;
    }
    match variant {
        BuildingVariants::Chimney(o) => {
            let cb = rect_aabb(vec_add(pos, *o), Vec2i { x: CHIMNEY_WIDTH, y: CHIMNEY_HEIGHT });
            box_blocked_exec(&cb, buildings, plates)
        },
        BuildingVariants::Default => false,
    }
}

/// Tests whether the sensor beneath a preview of the given size at `pos`
/// touches a building, or the preview sits at ground level.
fn bottom_support_exec(pos: Vec2i, size: Vec2i, buildings: &Vec<Building>) -> (r: bool)
    requires
        -PREVIEW_LIMIT <= pos.x <= PREVIEW_LIMIT,
        -PREVIEW_LIMIT <= pos.y <= PREVIEW_LIMIT,
        0 <= size.x <= BUILDING_MAX_SIZE,
        0 <= size.y <= BUILDING_MAX_SIZE,
        buildings_ok(buildings@),
    ensures
        r == has_bottom_support(pos, size, buildings@),
{
    if pos.y < 1 {
        return true;
    }
    let sensor = rect_aabb(
        Vec2i { x: pos.x, y: pos.y - SUPPORT_SENSOR_DROP },
        Vec2i { x: 9 * size.x / 10, y: SUPPORT_SENSOR_HEIGHT },
    );
    let mut idx: usize = 0;
    while idx < buildings.len()
        invariant
            buildings_ok(buildings@),
            idx <= buildings@.len(),
            sensor == support_box(pos, size),
            forall|j: int|
                0 <= j < idx ==> !aabb_overlap_closed(
                    support_box(pos, size),
                    #[trigger] building_box(buildings@[j]),
                ),
        decreases buildings@.len() - idx,
    {
        let b = buildings[idx];
        proof {
            assert(building_ok(buildings@[idx as int]));
        }
        let bb = rect_aabb(b.pos, b.size);
        if aabbs_overlap_closed(&sensor, &bb) {
            proof {
                assert(aabb_overlap_closed(support_box(pos, size), building_box(buildings@[idx as int])));
            }
            return true;
        }
        idx = idx + 1;
    }
    false
}

/// Recomputes the preview from the cursor: selects the closest candidate
/// building, moves the preview to the slot it offers (or hides it), and
/// refreshes the blocked and bottom-support flags at the new position.
pub fn update_preview_building(
    preview: &mut PreviewBuilding,
    buildings: &Vec<Building>,
    plates: &Vec<Plate>,
    cursor: Vec2i,
)
    requires
        preview_ok(*old(preview)),
        buildings_ok(buildings@),
        plates_ok(plates@),
        pos_ok(cursor),
    ensures
        preview_ok(*final(preview)),
        preview_update_step(*old(preview), *final(preview), buildings@, plates@, cursor),
{
    let closest = match find_building_closest_to_cursor(buildings, cursor) {
        Some(i) => i,
        None => {
            preview.visible = false;
            preview.pos = cursor;
            return ;
        },
    };
    let b = buildings[closest];
    proof {
        assert(building_ok(buildings@[closest as int]));
    }
    let bb = rect_aabb(b.pos, b.size);
    if bb.min.y <= cursor.y && cursor.y <= bb.max.y {
        preview.visible = true;
        let px: i64 = if cursor.x < b.pos.x {
            bb.min.x - preview.size.x / 2
        } else {
            bb.max.x + preview.size.x / 2
        };
        preview.pos = Vec2i { x: px, y: b.pos.y };
    } else if cursor.y >= bb.max.y {
        preview.visible = true;
        preview.pos = Vec2i { x: cursor.x, y: bb.max.y + preview.size.y / 2 };
    } else {
        preview.visible = false;
    }
    preview.blocked = preview_blocked_exec(preview.pos, preview.size, &preview.variant, buildings, plates);
    preview.bottom_support = bottom_support_exec(preview.pos, preview.size, buildings);
    proof {
        assert(placed_by(
            buildings@[closest as int],
            *old(preview),
            *preview,
            buildings@,
            plates@,
            cursor,
        ));
    }
}

/// Wherever the cursor sits below every candidate's bottom edge, the updated
/// preview is not visible.
pub proof fn lemma_preview_hidden_below_all(
    old_pv: PreviewBuilding,
    new_pv: PreviewBuilding,
    bs: Seq<Building>,
    ps: Seq<Plate>,
    cursor: Vec2i,
)
    requires
        buildings_ok(bs),
        preview_update_step(old_pv, new_pv, bs, ps, cursor),
        forall|j: int|
            0 <= j < bs.len() && #[trigger] is_candidate(bs[j], cursor) ==> cursor.y < building_box(
                bs[j],
            ).min.y,
    ensures
        !new_pv.visible,
{
    if exists|j: int| 0 <= j < bs.len() && #[trigger] is_candidate(bs[j], cursor) {
        let i = choose|i: int|
            #[trigger] selected(bs, cursor, i) && placed_by(bs[i], old_pv, new_pv, bs, ps, cursor);
        assert(is_candidate(bs[i], cursor));
        assert(building_ok(bs[i]));
        assert(cursor.y < building_box(bs[i]).min.y);
        assert(building_box(bs[i]).min.y <= building_box(bs[i]).max.y);
        assert(!same_row(bs[i], cursor));
    }
}

/// The heuristic never passes over a same-row candidate for a building
/// outside the cursor's row: whenever any candidate brackets the cursor's
/// height, the selected building does too.
pub proof fn lemma_same_row_never_passed_over(bs: Seq<Building>, cursor: Vec2i, i: int, j: int)
    requires
        selected(bs, cursor, i),
        0 <= j < bs.len(),
        is_candidate(bs[j], cursor),
        same_row(bs[j], cursor),
    ensures
        same_row(bs[i], cursor),
{
}

/// Smallest width the preview can roll for the next building.
pub const MIN_BUILDING_WIDTH: i64 = 80;

/// Largest width the preview can roll for the next building.
pub const MAX_BUILDING_WIDTH: i64 = 100;

/// Vertical offset from a building's centre up to its chimney.
pub const CHIMNEY_RISE: i64 = 50;

/// The chimney a variant carries, if any.
pub open spec fn variant_chimney(v: BuildingVariants) -> Option<Vec2i> {
    match v {
        BuildingVariants::Chimney(o) => Some(o),
        BuildingVariants::Default => None,
    }
}

/// The building a preview turns into when committed.
pub open spec fn committed_building(pv: PreviewBuilding) -> Building {
    Building { pos: pv.pos, size: pv.size, chimney: variant_chimney(pv.variant) }
}

/// What a fresh roll of the preview may look like: position and flags kept,
/// width within the fixed range, and either a flat roof or a chimney whose
/// horizontal offset stays within forty percent of the new width.
pub open spec fn preview_rerolled(old_pv: PreviewBuilding, new_pv: PreviewBuilding) -> bool {
    &&& new_pv.pos == old_pv.pos
    &&& new_pv.visible == old_pv.visible
    &&& new_pv.blocked == old_pv.blocked
    &&& new_pv.bottom_support == old_pv.bottom_support
    &&& MIN_BUILDING_WIDTH <= new_pv.size.x <= MAX_BUILDING_WIDTH
    &&& new_pv.size.y == old_pv.size.y
    &&& match new_pv.variant {
        BuildingVariants::Default => true,
        BuildingVariants::Chimney(o) => -2 * new_pv.size.x / 5 <= o.x <= 2 * new_pv.size.x / 5
            && o.y == CHIMNEY_RISE,
    }
}

/// Whether a left-click release may commit the preview: it must mark a
/// visible slot that nothing blocks and that something supports.
pub fn should_place_building(preview: &PreviewBuilding, mouse_released: bool) -> (r: bool)
    ensures
        r == (mouse_released && preview.visible && !preview.blocked && preview.bottom_support),
{
    mouse_released && preview.visible && !preview.blocked && preview.bottom_support
}

/// Realises the preview into a building: debits the fixed cost (rejecting the
/// whole placement when the balance cannot cover it), appends the new
/// building, and rolls the preview's next width and variant.
pub fn handle_place_building_event(
    player: &mut Player,
    buildings: &mut Vec<Building>,
    preview: &mut PreviewBuilding,
) -> (r: Option<usize>)
    requires
        preview_ok(*old(preview)),
        pos_ok(old(preview).pos),
        buildings_ok(old(buildings)@),
        old(buildings)@.len() < usize::MAX,
    ensures
        buildings_ok(final(buildings)@),
        preview_ok(*final(preview)),
        old(player).money >= PLACEMENT_COST ==> {
            &&& r == Some(old(buildings)@.len() as usize)
            &&& final(player).money == old(player).money - PLACEMENT_COST
            &&& final(buildings)@ == old(buildings)@.push(committed_building(*old(preview)))
            &&& preview_rerolled(*old(preview), *final(preview))
        },
        old(player).money < PLACEMENT_COST ==> {
            &&& r is None
            &&& *final(player) == *old(player)
            &&& final(buildings)@ == old(buildings)@
            &&& *final(preview) == *old(preview)
        },
{
    if !player.try_debit(PLACEMENT_COST) {
        return None;
    }
    let idx = buildings.len();
    let built = Building {
        pos: preview.pos,
        size: preview.size,
        chimney: match preview.variant {
            BuildingVariants::Chimney(o) => Some(o),
            BuildingVariants::Default => None,
        },
    };
    proof {
        assert(building_ok(built));
    }
    buildings.push(built);
    proof {
        assert forall|j: int| 0 <= j < buildings@.len() implies #[trigger] building_ok(
            buildings@[j],
        ) by {
            if j < old(buildings)@.len() {
                assert(building_ok(old(buildings)@[j]));
            }
        }
    }
    let w = random_i64_inclusive(MIN_BUILDING_WIDTH, MAX_BUILDING_WIDTH);
    preview.size = Vec2i { x: w, y: preview.size.y };
    let roll = random_index(5);
    if roll < 4 {
        preview.variant = BuildingVariants::Default;
    } else {
        let bound: i64 = 2 * w / 5;
        let ox = random_i64_inclusive(-bound, bound);
        preview.variant = BuildingVariants::Chimney(Vec2i { x: ox, y: CHIMNEY_RISE });
    }
    Some(idx)
}

/// One placement attempt: commits the preview exactly when the mouse was
/// released over a visible, unblocked, supported slot and the balance covers
/// the fixed cost; any failing gate leaves every part of the world unchanged.
pub fn try_place_building(
    player: &mut Player,
    buildings: &mut Vec<Building>,
    preview: &mut PreviewBuilding,
    mouse_released: bool,
) -> (r: Option<usize>)
    requires
        preview_ok(*old(preview)),
        pos_ok(old(preview).pos),
        buildings_ok(old(buildings)@),
        old(buildings)@.len() < usize::MAX,
    ensures
        buildings_ok(final(buildings)@),
        preview_ok(*final(preview)),
        (r is Some) == (mouse_released && old(preview).visible && !old(preview).blocked && old(
            preview,
        ).bottom_support && old(player).money >= PLACEMENT_COST),
        r is Some ==> {
            &&& r == Some(old(buildings)@.len() as usize)
            &&& final(player).money == old(player).money - PLACEMENT_COST
            &&& final(buildings)@ == old(buildings)@.push(committed_building(*old(preview)))
            &&& preview_rerolled(*old(preview), *final(preview))
        },
        r is None ==> {
            &&& *final(player) == *old(player)
            &&& final(buildings)@ == old(buildings)@
            &&& *final(preview) == *old(preview)
        },
{
    if should_place_building(preview, mouse_released) {
        handle_place_building_event(player, buildings, preview)
    } else {
        None
    }
}

/// The kind of operations supported.
#[derive(Clone, Copy, PartialEq, Eq, Structural, Debug)]
pub enum BuildOps {
    /// Build a new building
    Building,
    /// Build a new joint
    Joint,
}

/// Saves what operation is currently selected.
#[derive(Clone, Copy, PartialEq, Eq, Structural, Debug)]
pub struct SelectedBuildOps {
    /// the currently selected operation
    pub selected: BuildOps,
}

/// What the text beside the cursor shows about the cost of the pending
/// operation.
#[derive(Clone, Copy, PartialEq, Eq, Structural, Debug)]
pub enum CostLabel {
    /// nothing to show
    Hidden,
    /// the operation needs this much money, which the balance cannot cover
    Requires(i64),
    /// the operation costs this much and the balance covers it
    Affordable(i64),
}

/// What the cursor text shows: for the building tool, the fixed cost when the
/// balance cannot cover it; for the joint tool, the rubber-band cost, marked
/// unaffordable when it exceeds the balance and hidden while no band is drawn.
pub fn update_cursor_text(ops: &SelectedBuildOps, money: i64, joint_length: i64) -> (r: CostLabel)
    requires
        0 <= joint_length <= 3_000_000,
    ensures
        ops.selected is Building ==> r == (if money < PLACEMENT_COST {
            CostLabel::Requires(PLACEMENT_COST)
        } else {
            CostLabel::Hidden
        }),
        ops.selected is Joint ==> r == (if joint_length == 0 {
            CostLabel::Hidden
        } else if money < joint_length * crate::joint::JOINT_COST_RATE {
            CostLabel::Requires((joint_length * crate::joint::JOINT_COST_RATE) as i64)
        } else {
            CostLabel::Affordable((joint_length * crate::joint::JOINT_COST_RATE) as i64)
        }),
{
    match ops.selected {
        BuildOps::Building => {
            if money < PLACEMENT_COST {
                CostLabel::Requires(PLACEMENT_COST)
            } else {
                CostLabel::Hidden
            }
        },
        BuildOps::Joint => {
            if joint_length == 0 {
                CostLabel::Hidden
            } else if money < joint_length * crate::joint::JOINT_COST_RATE {
                CostLabel::Requires(joint_length * crate::joint::JOINT_COST_RATE)
            } else {
                CostLabel::Affordable(joint_length * crate::joint::JOINT_COST_RATE)
            }
        },
    }
}


/// Updates which build operation the keyboard selected: picking the building
/// tool also clears any joint in progress, picking the joint tool keeps it.
pub fn update_selected_build_op(
    ops: &mut SelectedBuildOps,
    tool: &mut JointTool,
    key_b_released: bool,
    key_j_released: bool,
)
    ensures
        key_b_released ==> final(ops).selected is Building && *final(tool) == JointTool::Idle,
        !key_b_released && key_j_released ==> final(ops).selected is Joint && *final(tool) == *old(
            tool,
        ),
        !key_b_released && !key_j_released ==> *final(ops) == *old(ops) && *final(tool) == *old(
            tool,
        ),
{
    if key_b_released {
        ops.selected = BuildOps::Building;
        *tool = JointTool::Idle;
    } else if key_j_released {
        ops.selected = BuildOps::Joint;
    }
}

} // verus!
