use earthquakes::building::{
    find_building_closest_to_cursor, should_place_building, try_place_building,
    update_cursor_text, update_preview_building, update_selected_build_op, BuildOps, Building,
    BuildingVariants, CostLabel, PreviewBuilding, SelectedBuildOps, PLACEMENT_COST,
};
use earthquakes::geometry::Vec2i;
use earthquakes::joint::JointTool;
use earthquakes::player::Player;

fn v(x: i64, y: i64) -> Vec2i {
    Vec2i { x, y }
}

fn building(x: i64, y: i64, w: i64, h: i64) -> Building {
    Building { pos: v(x, y), size: v(w, h), chimney: None }
}

fn plain_preview() -> PreviewBuilding {
    PreviewBuilding {
        variant: BuildingVariants::Default,
        visible: false,
        bottom_support: false,
        blocked: false,
        size: v(100, 60),
        pos: v(0, 0),
    }
}

#[test]
fn preview_hidden_when_cursor_below_candidate() {
    // One building centred at (0, 100): its box spans y in [70, 130]. The
    // cursor sits below its bottom edge but within sensor range.
    let buildings = vec![building(0, 100, 100, 60)];
    let plates = Vec::new();
    let mut preview = plain_preview();
    update_preview_building(&mut preview, &buildings, &plates, v(0, 30));
    assert!(!preview.visible);
}

#[test]
fn preview_beside_candidate_on_same_row() {
    let buildings = vec![building(0, 0, 100, 60)];
    let plates = Vec::new();
    let mut preview = plain_preview();
    // Cursor left of the building, inside its vertical span.
    update_preview_building(&mut preview, &buildings, &plates, v(-80, 0));
    assert!(preview.visible);
    assert_eq!(preview.pos, v(-100, 0));
    // Cursor right of the building.
    update_preview_building(&mut preview, &buildings, &plates, v(80, 10));
    assert!(preview.visible);
    assert_eq!(preview.pos, v(100, 0));
}

#[test]
fn preview_above_candidate_centres_on_cursor() {
    let buildings = vec![building(0, 0, 100, 60)];
    let plates = Vec::new();
    let mut preview = plain_preview();
    update_preview_building(&mut preview, &buildings, &plates, v(20, 60));
    assert!(preview.visible);
    assert_eq!(preview.pos, v(20, 60));
}

#[test]
fn preview_hidden_without_candidates_and_follows_cursor() {
    let buildings = vec![building(0, 0, 100, 60)];
    let plates = Vec::new();
    let mut preview = plain_preview();
    update_preview_building(&mut preview, &buildings, &plates, v(500, 500));
    assert!(!preview.visible);
    assert_eq!(preview.pos, v(500, 500));
}

#[test]
fn same_row_candidate_beats_closer_candidate_outside_row() {
    // The building at index 0 is 25 units of squared distance away but the
    // cursor sits above its span; the one at index 1 is much farther yet
    // brackets the cursor's height, so it must win.
    let a = building(0, 0, 30, 60);
    let c = building(45, 80, 20, 100);
    let cursor = v(0, 35);
    let r = find_building_closest_to_cursor(&vec![a, c], cursor);
    assert_eq!(r, Some(1));
}

#[test]
fn nearest_candidate_wins_without_same_row() {
    let far = building(-45, 90, 30, 40);
    let near = building(0, 70, 30, 40);
    // Cursor below both buildings' spans: plain distance decides.
    let r = find_building_closest_to_cursor(&vec![far, near], v(0, 30));
    assert_eq!(r, Some(1));
}

#[test]
fn no_candidate_within_sensor_range() {
    let r = find_building_closest_to_cursor(&vec![building(500, 0, 100, 60)], v(0, 0));
    assert_eq!(r, None);
}

#[test]
fn blocked_slot_rejects_placement() {
    let mut player = Player { money: 10_000 };
    let mut buildings = vec![building(0, 0, 100, 60)];
    let mut preview = PreviewBuilding { visible: true, blocked: true, bottom_support: true, ..plain_preview() };
    let r = try_place_building(&mut player, &mut buildings, &mut preview, true);
    assert_eq!(r, None);
    assert_eq!(player.money, 10_000);
    assert_eq!(buildings.len(), 1);
}

#[test]
fn unsupported_slot_rejects_placement() {
    let mut player = Player { money: 10_000 };
    let mut buildings = vec![building(0, 0, 100, 60)];
    let mut preview = PreviewBuilding { visible: true, blocked: false, bottom_support: false, ..plain_preview() };
    let r = try_place_building(&mut player, &mut buildings, &mut preview, true);
    assert_eq!(r, None);
    assert_eq!(player.money, 10_000);
    assert!(!should_place_building(&preview, true));
}

#[test]
fn placement_without_click_does_nothing() {
    let mut player = Player { money: 10_000 };
    let mut buildings = vec![building(0, 0, 100, 60)];
    let mut preview = PreviewBuilding { visible: true, bottom_support: true, ..plain_preview() };
    let r = try_place_building(&mut player, &mut buildings, &mut preview, false);
    assert_eq!(r, None);
    assert_eq!(player.money, 10_000);
}

#[test]
fn exact_balance_places_exactly_once() {
    // Balance equals the fixed cost: the first placement succeeds and leaves
    // nothing, the second fails.
    let mut player = Player { money: 500 };
    let mut buildings = vec![building(0, 0, 100, 60)];
    let mut preview = PreviewBuilding {
        visible: true,
        bottom_support: true,
        pos: v(100, 0),
        ..plain_preview()
    };
    let first = try_place_building(&mut player, &mut buildings, &mut preview, true);
    assert_eq!(first, Some(1));
    assert_eq!(player.money, 0);
    assert_eq!(buildings.len(), 2);
    assert_eq!(buildings[1].pos, v(100, 0));
    assert_eq!(buildings[1].size, v(100, 60));
    // The reroll keeps the slot's flags, so only money blocks the retry.
    let second = try_place_building(&mut player, &mut buildings, &mut preview, true);
    assert_eq!(second, None);
    assert_eq!(player.money, 0);
    assert_eq!(buildings.len(), 2);
}

#[test]
fn reroll_width_and_variant_stay_in_range() {
    let mut flat_roofs = 0;
    for _ in 0..50 {
        let mut player = Player { money: 500 };
        let mut buildings = vec![building(0, 0, 100, 60)];
        let mut preview = PreviewBuilding {
            visible: true,
            bottom_support: true,
            pos: v(100, 0),
            ..plain_preview()
        };
        let r = try_place_building(&mut player, &mut buildings, &mut preview, true);
        assert_eq!(r, Some(1));
        assert!(80 <= preview.size.x && preview.size.x <= 100);
        assert_eq!(preview.size.y, 60);
        match preview.variant {
            BuildingVariants::Default => flat_roofs += 1,
            BuildingVariants::Chimney(o) => {
                let bound = 2 * preview.size.x / 5;
                assert!(-bound <= o.x && o.x <= bound);
                assert_eq!(o.y, 50);
            }
        }
    }
    // Flat roofs carry four of the five variant slots: fifty rolls without a
    // single one would mean the roll is broken.
    assert!(flat_roofs > 0);
}

#[test]
fn placement_records_chimney_variant() {
    let mut player = Player { money: 500 };
    let mut buildings = vec![building(0, 0, 100, 60)];
    let mut preview = PreviewBuilding {
        variant: BuildingVariants::Chimney(v(12, 50)),
        visible: true,
        bottom_support: true,
        pos: v(100, 0),
        ..plain_preview()
    };
    let r = try_place_building(&mut player, &mut buildings, &mut preview, true);
    assert_eq!(r, Some(1));
    assert_eq!(buildings[1].chimney, Some(v(12, 50)));
}

#[test]
fn side_slot_beside_candidate_is_not_blocked() {
    // A preview placed flush beside a building merely touches it: placement
    // stays unblocked, and the neighbour's body supports the sensor.
    let buildings = vec![building(0, 0, 100, 60)];
    let plates = Vec::new();
    let mut preview = plain_preview();
    update_preview_building(&mut preview, &buildings, &plates, v(80, 10));
    assert!(preview.visible);
    assert!(!preview.blocked);
}

#[test]
fn overlapping_building_blocks_slot() {
    // The cursor sits inside the second building, so the slot lands on its
    // left side, where the first building already stands: blocked.
    let buildings = vec![building(0, 0, 100, 60), building(120, 0, 100, 60)];
    let plates = Vec::new();
    let mut preview = plain_preview();
    update_preview_building(&mut preview, &buildings, &plates, v(80, 10));
    assert!(preview.visible);
    assert_eq!(preview.pos, v(20, 0));
    assert!(preview.blocked);
}

#[test]
fn ground_level_counts_as_bottom_support() {
    let buildings = vec![building(0, 0, 100, 60)];
    let plates = Vec::new();
    let mut preview = plain_preview();
    update_preview_building(&mut preview, &buildings, &plates, v(80, 10));
    // The slot beside the ground-level building sits at y == 0 < 1.
    assert!(preview.bottom_support);
}

#[test]
fn slot_above_tower_lacks_bottom_support_without_neighbour() {
    // The candidate floats high up; the slot above it has nothing beneath
    // its sensor and sits far from the ground.
    let buildings = vec![building(0, 300, 100, 60)];
    let plates = Vec::new();
    let mut preview = plain_preview();
    update_preview_building(&mut preview, &buildings, &plates, v(-90, 300));
    assert!(preview.visible);
    assert_eq!(preview.pos, v(-100, 300));
    assert!(!preview.bottom_support);
}

#[test]
fn stacked_slot_is_supported_by_roof() {
    let buildings = vec![building(0, 0, 100, 60)];
    let plates = Vec::new();
    let mut preview = plain_preview();
    update_preview_building(&mut preview, &buildings, &plates, v(0, 65));
    assert!(preview.visible);
    assert_eq!(preview.pos, v(0, 60));
    assert!(preview.bottom_support);
    assert!(!preview.blocked);
}

#[test]
fn cursor_text_for_building_tool() {
    let ops = SelectedBuildOps { selected: BuildOps::Building };
    assert_eq!(update_cursor_text(&ops, 499, 0), CostLabel::Requires(PLACEMENT_COST));
    assert_eq!(update_cursor_text(&ops, 500, 0), CostLabel::Hidden);
}

#[test]
fn cursor_text_for_joint_tool() {
    let ops = SelectedBuildOps { selected: BuildOps::Joint };
    assert_eq!(update_cursor_text(&ops, 1000, 0), CostLabel::Hidden);
    assert_eq!(update_cursor_text(&ops, 29, 10), CostLabel::Requires(30));
    assert_eq!(update_cursor_text(&ops, 30, 10), CostLabel::Affordable(30));
}

#[test]
fn selecting_building_tool_clears_joint_state() {
    let mut ops = SelectedBuildOps { selected: BuildOps::Joint };
    let mut tool = JointTool::Armed { building: 0, local_anchor: v(5, 5) };
    update_selected_build_op(&mut ops, &mut tool, true, false);
    assert!(matches!(ops.selected, BuildOps::Building));
    assert_eq!(tool, JointTool::Idle);
}

#[test]
fn selecting_joint_tool_keeps_joint_state() {
    let mut ops = SelectedBuildOps { selected: BuildOps::Building };
    let mut tool = JointTool::Idle;
    update_selected_build_op(&mut ops, &mut tool, false, true);
    assert!(matches!(ops.selected, BuildOps::Joint));
    assert_eq!(tool, JointTool::Idle);
}
