use orbital_debris::debris::{
    next_position, setup_debris_field, update_debris_positions, world_position, Debris,
    EARTH_RADIUS_M,
};
use orbital_debris::fixed::ONE;
use orbital_debris::vector::Vec3;

fn at(x: i64, y: i64, z: i64) -> Vec3 {
    Vec3 { x, y, z }
}

#[test]
fn earth_radius_is_one_world_unit() {
    assert_eq!(EARTH_RADIUS_M, 6_378_137);
    assert_eq!(world_position(&[6_378_137, 0, 0]), at(1_000_000, 0, 0));
    assert_eq!(world_position(&[-6_378_137, 0, 0]), at(-1_000_000, 0, 0));
}

#[test]
fn polar_axis_becomes_the_up_axis() {
    assert_eq!(world_position(&[0, 0, 6_378_137]), at(0, ONE, 0));
    assert_eq!(world_position(&[0, 6_378_137, 0]), at(0, 0, ONE));
}

#[test]
fn second_and_third_axes_are_exchanged() {
    let r = [6_378_137, 2 * 6_378_137, 3 * 6_378_137];
    assert_eq!(world_position(&r), at(ONE, 3 * ONE, 2 * ONE));
    let r = [-7_000_000, 1_000, 42_164_000];
    assert_eq!(world_position(&r), at(-1_097_499, 6_610_707, 156));
}

#[test]
fn world_coordinates_round_toward_zero() {
    // 3 189 068 m is 0.49999992... world units
    assert_eq!(world_position(&[3_189_068, -3_189_068, 0]), at(499_999, 0, -499_999));
    // less than one step
    assert_eq!(world_position(&[6, -6, 7]), at(0, 1, 0));
    assert_eq!(world_position(&[0, 0, 0]), at(0, 0, 0));
}

#[test]
fn world_position_holds_the_largest_coordinates() {
    let p = world_position(&[i64::MAX, i64::MIN, 0]);
    assert_eq!(p.x as i128, (i64::MAX as i128) * 1_000_000 / 6_378_137);
    assert_eq!(p.z as i128, (i64::MIN as i128) * 1_000_000 / 6_378_137);
    assert_eq!(p.y, 0);
}

#[test]
fn failed_propagation_keeps_the_previous_position() {
    let previous = at(1, 2, 3);
    assert_eq!(next_position(previous, &None), previous);
    assert_eq!(next_position(previous, &Some([6_378_137, 0, 0])), at(ONE, 0, 0));
}

#[test]
fn setup_numbers_the_bodies_in_order() {
    let records = vec!["first".to_string(), "second".to_string(), "third".to_string()];
    let (field, entities) = setup_debris_field(records);
    assert_eq!(field.sats.len(), 3);
    assert_eq!(field.sats[0].satrec, "first");
    assert_eq!(field.sats[1].satrec, "second");
    assert_eq!(field.sats[2].satrec, "third");
    assert_eq!(entities.len(), 3);
    for (i, entity) in entities.iter().enumerate() {
        assert_eq!(entity.0, Debris { sat_index: i });
        assert_eq!(entity.1, at(0, 0, 0));
    }
}

#[test]
fn setup_of_no_records_gives_an_empty_field() {
    let (field, entities) = setup_debris_field(Vec::<u8>::new());
    assert!(field.sats.is_empty());
    assert!(entities.is_empty());
}

#[test]
fn update_moves_each_entity_to_its_body() {
    let (_field, mut entities) = setup_debris_field(vec!['a', 'b']);
    let outcomes = vec![Some([6_378_137, 0, 0]), Some([0, 0, -6_378_137])];
    update_debris_positions(&mut entities, &outcomes);
    assert_eq!(entities[0], (Debris { sat_index: 0 }, at(ONE, 0, 0)));
    assert_eq!(entities[1], (Debris { sat_index: 1 }, at(0, -ONE, 0)));
}

#[test]
fn update_goes_by_the_index_not_by_the_place() {
    let mut entities = vec![
        (Debris { sat_index: 1 }, at(0, 0, 0)),
        (Debris { sat_index: 0 }, at(0, 0, 0)),
        (Debris { sat_index: 1 }, at(5, 5, 5)),
    ];
    let outcomes = vec![Some([6_378_137, 0, 0]), Some([0, 6_378_137, 0])];
    update_debris_positions(&mut entities, &outcomes);
    assert_eq!(entities[0], (Debris { sat_index: 1 }, at(0, 0, ONE)));
    assert_eq!(entities[1], (Debris { sat_index: 0 }, at(ONE, 0, 0)));
    assert_eq!(entities[2], (Debris { sat_index: 1 }, at(0, 0, ONE)));
}

#[test]
fn entity_without_body_keeps_its_position() {
    let mut entities = vec![
        (Debris { sat_index: 2 }, at(7, 8, 9)),
        (Debris { sat_index: usize::MAX }, at(1, 1, 1)),
        (Debris { sat_index: 0 }, at(3, 3, 3)),
    ];
    let outcomes = vec![Some([0, 0, 0]), Some([6_378_137, 0, 0])];
    update_debris_positions(&mut entities, &outcomes);
    assert_eq!(entities[0], (Debris { sat_index: 2 }, at(7, 8, 9)));
    assert_eq!(entities[1], (Debris { sat_index: usize::MAX }, at(1, 1, 1)));
    assert_eq!(entities[2], (Debris { sat_index: 0 }, at(0, 0, 0)));
}

#[test]
fn update_without_outcomes_changes_nothing() {
    let mut entities = vec![(Debris { sat_index: 0 }, at(7, 8, 9))];
    update_debris_positions(&mut entities, &Vec::new());
    assert_eq!(entities, vec![(Debris { sat_index: 0 }, at(7, 8, 9))]);
    let mut none: Vec<(Debris, Vec3)> = Vec::new();
    update_debris_positions(&mut none, &vec![Some([1, 2, 3])]);
    assert!(none.is_empty());
}

/// Body A moves one radius further along the first axis every frame. Body B
/// moves along the polar axis and fails in frame 5.
fn frame_outcomes(frame: i64) -> Vec<Option<[i64; 3]>> {
    let a = Some([frame * 6_378_137, 0, 0]);
    let b = if frame == 5 { None } else { Some([0, 0, frame * 6_378_137]) };
    vec![a, b]
}

#[test]
fn one_failing_body_freezes_alone() {
    let (_field, mut entities) = setup_debris_field(vec!["body A", "body B"]);
    for frame in 1..=4 {
        update_debris_positions(&mut entities, &frame_outcomes(frame));
        assert_eq!(entities[0].1, at(frame * ONE, 0, 0));
        assert_eq!(entities[1].1, at(0, frame * ONE, 0));
    }
    update_debris_positions(&mut entities, &frame_outcomes(5));
    assert_eq!(entities[0].1, at(5 * ONE, 0, 0));
    assert_eq!(entities[1].1, at(0, 4 * ONE, 0));
    update_debris_positions(&mut entities, &frame_outcomes(6));
    assert_eq!(entities[0].1, at(6 * ONE, 0, 0));
    assert_eq!(entities[1].1, at(0, 6 * ONE, 0));
    assert_eq!(entities[0].0, Debris { sat_index: 0 });
    assert_eq!(entities[1].0, Debris { sat_index: 1 });
}
