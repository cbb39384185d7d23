use rengine::engine::resolver::is_movable;
use rengine::engine::structures::{AnimatedObject, StaticObject};
use rengine::engine::traits::{
    CollisionTrait, IdentifiableTrait, MasksTrait, NamedTrait, Object, PhysicsObject, PointTrait,
    ShapeTrait, SizeTrait, VelocityTrait, ZIndexTrait,
};
use rengine::manager::{populate_global_state, scene_is_valid, GameLoop};
use rengine::scene::World;
use rengine::scripts::{_safe_move, DAMPING};
use rengine::state::engine_state::{
    a_add_a_object, a_add_s_object, append_mask_to_row, get_animated_identifiable,
    get_animated_object, get_static_identifiable, remove_static_object, GlobalState,
};
use rengine::units::{PointWithDeg, Size, Velocity};
use rengine::utils::shapes::CustomShape;

fn wall(x: i64, y: i64, w: i64, h: i64, masks: Vec<usize>) -> StaticObject {
    StaticObject::new(
        1,
        String::from("wall"),
        PointWithDeg::new(x, y, None),
        Size::new(w, h),
        Some(masks),
        CustomShape::gen_rectangle(),
    )
}

fn mover(x: i64, y: i64, w: i64, h: i64, vx: i64, vy: i64, masks: Vec<usize>) -> AnimatedObject {
    AnimatedObject::new(
        1,
        String::from("mover"),
        PointWithDeg::new(x, y, Some(30_000)),
        Size::new(w, h),
        Velocity::from(vx, vy),
        Some(masks),
        CustomShape::gen_rectangle(),
    )
}

#[test]
fn free_path_is_taken_at_full_speed() {
    let state = GlobalState::new();
    let mut obj = mover(0, 0, 50_000, 50_000, 100_000, -40_000, vec![1]);
    assert!(!obj.move_object(&state, 1_000));
    assert_eq!(obj.pos, PointWithDeg { x: 100_000, y: -40_000, deg: 30_000 });
    assert_eq!(obj.velocity, Velocity { x: 100_000, y: -40_000 });
    // half a second
    assert!(!obj.move_object(&state, 500));
    assert_eq!(obj.pos, PointWithDeg { x: 150_000, y: -60_000, deg: 30_000 });
}

#[test]
fn obstructed_path_is_shortened_to_the_first_free_step() {
    let mut state = GlobalState::new();
    // the obstacle spans x from 120 to 130
    a_add_s_object(&mut state, wall(120_000, 0, 10_000, 50_000, vec![1])).unwrap();
    let mut obj = mover(0, 0, 50_000, 50_000, 100_000, 0, vec![1]);
    a_add_a_object(&mut state, obj.clone()).unwrap();
    // full step: 100..150 overlaps; 0.9: 90..140; 0.8: 80..130; 0.7: 70..120 touches only
    assert!(!obj.move_object(&state, 1_000));
    assert_eq!(obj.pos, PointWithDeg { x: 70_000, y: 0, deg: 30_000 });
    assert_eq!(obj.velocity, Velocity { x: 70_000, y: 0 });
    assert_eq!(obj.size, Size::new(50_000, 50_000));
    assert_eq!(obj.name, "mover");
    assert_eq!(obj.masks, vec![1]);
}

#[test]
fn every_factor_down_to_one_tenth_is_tried() {
    for k in 1..=10i64 {
        let mut state = GlobalState::new();
        // free exactly for steps of at most k tenths: the obstacle starts
        // where the mover's right edge is after k tenths
        a_add_s_object(&mut state, wall(50_000 + 10_000 * k, 0, 1_000_000, 50_000, vec![7])).unwrap();
        let mut obj = mover(0, 0, 50_000, 50_000, 100_000, 0, vec![7]);
        assert!(!obj.move_object(&state, 1_000));
        assert_eq!(obj.pos.x, 10_000 * k);
        assert_eq!(obj.velocity, Velocity { x: 10_000 * k, y: 0 });
    }
}

#[test]
fn blocked_object_keeps_position_and_velocity() {
    let mut state = GlobalState::new();
    a_add_s_object(&mut state, wall(-1_000_000, -1_000_000, 5_000_000, 5_000_000, vec![2])).unwrap();
    let mut obj = mover(0, 0, 50_000, 50_000, 100_000, 0, vec![2]);
    assert!(obj.move_object(&state, 1_000));
    assert_eq!(obj.pos, PointWithDeg { x: 0, y: 0, deg: 30_000 });
    assert_eq!(obj.velocity, Velocity { x: 100_000, y: 0 });
    // blocked exactly when the tenth step is obstructed too
    let mut state = GlobalState::new();
    a_add_s_object(&mut state, wall(59_999, 0, 1_000_000, 50_000, vec![2])).unwrap();
    let mut obj = mover(0, 0, 50_000, 50_000, 100_000, 0, vec![2]);
    assert!(obj.move_object(&state, 1_000));
    assert_eq!(obj.pos.x, 0);
}

#[test]
fn object_never_collides_with_itself() {
    let mut state = GlobalState::new();
    let mut obj = mover(0, 0, 50_000, 50_000, 10_000, 0, vec![1, 1, 4]);
    a_add_a_object(&mut state, obj.clone()).unwrap();
    // the registered record overlaps every candidate, but it is the object itself
    assert!(!obj.check_collision(&state, obj.pos));
    assert!(!obj.move_object(&state, 1_000));
    assert_eq!(obj.pos.x, 10_000);
    // another object with the same box is an obstacle
    let twin = mover(0, 0, 50_000, 50_000, 0, 0, vec![9]);
    a_add_a_object(&mut state, twin).unwrap();
    assert!(obj.check_collision(&state, PointWithDeg::new(0, 0, None)));
}

#[test]
fn every_group_is_scanned() {
    // the obstacle sits in a group that the mover does not belong to
    for g in 1..=15 {
        let mut state = GlobalState::new();
        a_add_s_object(&mut state, wall(0, 0, 10, 10, vec![g])).unwrap();
        let obj = mover(5, 5, 10, 10, 0, 0, vec![]);
        assert!(obj.check_collision(&state, obj.pos));
        assert!(!obj.check_collision(&state, PointWithDeg::new(10, 0, None)));
    }
}

#[test]
fn member_without_an_object_is_no_obstacle() {
    let mut state = GlobalState::new();
    let obstacle = wall(0, 0, 10, 10, vec![1]);
    let id = obstacle.get_id();
    a_add_s_object(&mut state, obstacle).unwrap();
    append_mask_to_row(&mut state, 1, String::from("ghost")).unwrap();
    let obj = mover(5, 5, 10, 10, 0, 0, vec![1]);
    assert!(obj.check_collision(&state, obj.pos));
    // half-way through deregistration: still listed in the group, gone from the store
    remove_static_object(&mut state, id).unwrap();
    assert!(!obj.check_collision(&state, obj.pos));
}

#[test]
fn object_outside_every_group_is_no_obstacle() {
    let mut state = GlobalState::new();
    a_add_s_object(&mut state, wall(0, 0, 10, 10, vec![])).unwrap();
    let obj = mover(5, 5, 10, 10, 0, 0, vec![1]);
    assert!(!obj.check_collision(&state, obj.pos));
}

#[test]
fn floor_scene_moves_at_full_speed_and_wall_slows_down() {
    let mut state = GlobalState::new();
    a_add_s_object(&mut state, wall(400_000, 600_000, 1_400_000, 4_000, vec![1])).unwrap();
    let mut obj = mover(250_000, 250_000, 50_000, 50_000, 250_000, 0, vec![1]);
    a_add_a_object(&mut state, obj.clone()).unwrap();
    // the floor lies below the path: nothing is ever in the way
    for tick in 1..=4i64 {
        assert!(!obj.move_object(&state, 1_000));
        assert_eq!(obj.pos.x, 250_000 + 250_000 * tick);
        assert_eq!(obj.pos.y, 250_000);
        assert_eq!(obj.velocity, Velocity { x: 250_000, y: 0 });
    }
    // an object that falls onto the floor: 250 down per second from y = 250,
    // its lower edge at 300; the floor's upper edge is at 600
    let mut faller = mover(500_000, 250_000, 50_000, 50_000, 0, 250_000, vec![1]);
    assert!(!faller.move_object(&state, 1_000));
    assert_eq!(faller.pos.y, 500_000);
    assert_eq!(faller.velocity.y, 250_000);
    // the full step would end at 750..800, past the floor; nine tenths at
    // 725..775, also past it: no overlap either time, the floor is only 4 thick
    assert!(!faller.move_object(&state, 1_000));
    assert_eq!(faller.pos.y, 750_000);
    // a slower fall from 500: to 575..625 overlaps, nine tenths 567.5..617.5
    // overlaps, ..., four tenths 530..580 is free
    let mut slow = mover(500_000, 500_000, 50_000, 50_000, 0, 75_000, vec![1]);
    assert!(!slow.move_object(&state, 1_000));
    assert_eq!(slow.pos.y, 545_000);
    assert_eq!(slow.velocity, Velocity { x: 0, y: 45_000 });
    // right under the floor's upper edge nothing helps
    let mut stuck = mover(500_000, 551_000, 50_000, 50_000, 0, 10_000, vec![1]);
    assert!(stuck.move_object(&state, 1_000));
    assert_eq!(stuck.pos.y, 551_000);
    assert_eq!(stuck.velocity.y, 10_000);
}

#[test]
fn backward_motion_rounds_toward_zero() {
    let state = GlobalState::new();
    let mut obj = mover(0, 0, 10, 10, -1_999, 1_999, vec![1]);
    // half a second: -0.9995 and 0.9995 are cut to -0.999 and 0.999
    assert!(!obj.move_object(&state, 500));
    assert_eq!(obj.pos.x, -999);
    assert_eq!(obj.pos.y, 999);
    assert_eq!(obj.velocity, Velocity { x: -1_999, y: 1_999 });
}

#[test]
fn step_that_leaves_the_number_range_is_recognised() {
    let pos = PointWithDeg::new(i64::MAX - 10, 0, None);
    assert!(is_movable(&pos, &Velocity::from(10, 0), 1_000));
    assert!(!is_movable(&pos, &Velocity::from(11, 0), 1_000));
    assert!(is_movable(&pos, &Velocity::from(-11, 0), 1_000));
    assert!(is_movable(&PointWithDeg::new(0, i64::MIN, None), &Velocity::from(0, 0), i64::MAX));
    assert!(!is_movable(&PointWithDeg::new(0, i64::MIN, None), &Velocity::from(0, -1), 1_000));
    assert!(!is_movable(&PointWithDeg::new(0, 0, None), &Velocity::from(i64::MAX, 0), i64::MAX));
    // at the very edge the move itself works
    let state = GlobalState::new();
    let mut obj = mover(i64::MAX - 10, i64::MIN + 10, 1, 1, 10, -10, vec![]);
    assert!(!obj.move_object(&state, 1_000));
    assert_eq!(obj.pos.x, i64::MAX);
    assert_eq!(obj.pos.y, i64::MIN);
}

#[test]
fn frame_slows_an_obstructed_object_down_until_it_fits() {
    let mut state = GlobalState::new();
    a_add_s_object(&mut state, wall(120_000, 0, 10_000, 50_000, vec![1])).unwrap();
    let mut obj = mover(0, 0, 50_000, 50_000, 100_000, 0, vec![1]);
    // 100 -> 90 -> 81 -> 72.9 -> 65.61: the right edge at 115.61 is free
    assert!(_safe_move(&mut obj, &state, 1_000));
    assert_eq!(obj.velocity, Velocity { x: 65_610, y: 0 });
    assert_eq!(obj.pos.x, 65_610);
    assert_eq!(DAMPING, 900);
    // the next full step ends beyond the wall, which is thinner than the step
    obj.process(&state, 1_000);
    assert_eq!(obj.velocity, Velocity { x: 65_610, y: 0 });
    assert_eq!(obj.pos.x, 131_220);
}

#[test]
fn frame_leaves_an_object_at_rest_alone() {
    let state = GlobalState::new();
    let mut obj = mover(5, 5, 10, 10, 1, -1, vec![1]);
    assert!(_safe_move(&mut obj, &state, 1_000_000));
    assert_eq!(obj.pos, PointWithDeg { x: 5, y: 5, deg: 30_000 });
    assert_eq!(obj.velocity, Velocity { x: 1, y: -1 });
    let mut obj = mover(5, 5, 10, 10, 2, 0, vec![1]);
    obj.process(&state, 1_000);
    assert_eq!(obj.pos.x, 7);
    obj.update(1_000);
    assert_eq!(obj.pos.x, 7);
}

#[test]
fn frame_brings_a_walled_in_object_to_rest() {
    let mut state = GlobalState::new();
    a_add_s_object(&mut state, wall(-1_000_000, -1_000_000, 5_000_000, 5_000_000, vec![2])).unwrap();
    let mut obj = mover(0, 0, 50_000, 50_000, 100_000, -3, vec![2]);
    obj.process(&state, 1_000);
    assert_eq!(obj.pos, PointWithDeg { x: 0, y: 0, deg: 30_000 });
    assert!(obj.velocity.x.abs() <= 1 && obj.velocity.y.abs() <= 1);
}

#[test]
fn accessors_hand_out_the_fields() {
    let w = wall(1, 2, 3, 4, vec![5, 6]);
    assert_eq!(w.get_z_index(), 1);
    assert_eq!(w.get_id(), w.id);
    assert_eq!(w.get_name(), "wall");
    assert_eq!(w.get_masks(), vec![5, 6]);
    assert_eq!(w.get_size(), Size::new(3, 4));
    assert_eq!(w.get_pos(), PointWithDeg::new(1, 2, None));
    assert_eq!(w.get_shape().points, CustomShape::gen_rectangle().points);
    let copy = w.clone();
    assert_eq!(copy.id, w.id);
    assert_eq!(copy.masks, w.masks);
    w.set_pos(PointWithDeg::new(9, 9, None));
    copy.set_size(Size::new(9, 9));

    let m = mover(1, 2, 3, 4, 7, 8, vec![]);
    assert_eq!(m.get_z_index(), 1);
    assert_eq!(m.get_id(), m.id);
    assert_eq!(m.get_name(), "mover");
    assert_eq!(m.get_masks(), Vec::<usize>::new());
    assert_eq!(m.get_size(), Size::new(3, 4));
    assert_eq!(m.get_pos(), PointWithDeg::new(1, 2, Some(30_000)));
    assert_eq!(m.get_velocity(), Velocity::from(7, 8));
    assert_eq!(m.get_shape().points.len(), 5);
    let copy = m.clone();
    assert_eq!(copy.velocity, m.velocity);
    m.set_pos(PointWithDeg::new(9, 9, None));
    copy.set_size(Size::new(9, 9));

    let no_masks = StaticObject::new(
        0,
        String::new(),
        PointWithDeg::default(),
        Size::default(),
        None,
        CustomShape::default(),
    );
    assert!(no_masks.masks.is_empty());
    assert_ne!(no_masks.id, w_id_of(&wall(0, 0, 0, 0, vec![])));
}

fn w_id_of(obj: &StaticObject) -> String {
    obj.get_id()
}

#[test]
fn scene_is_registered_in_order() {
    let mut world = World::new();
    let a = wall(0, 0, 1, 1, vec![1]);
    let b = wall(5, 5, 1, 1, vec![1, 2]);
    let c = mover(9, 9, 1, 1, 0, 0, vec![2]);
    let ids = vec![a.get_id(), b.get_id(), c.get_id()];
    world.add_static(vec![a, b]);
    world.add_animated(vec![c]);
    assert_eq!(world.s_objects.length(), 2);
    assert_eq!(world.a_objects.length(), 1);

    let mut state = GlobalState::new();
    populate_global_state(&mut state, &world);
    assert_eq!(get_static_identifiable(&state).unwrap(), vec![ids[0].clone(), ids[1].clone()]);
    assert_eq!(get_animated_identifiable(&state).unwrap(), vec![ids[2].clone()]);
    assert_eq!(state.get_mask_row(1).unwrap(), vec![ids[0].clone(), ids[1].clone()]);
    assert_eq!(state.get_mask_row(2).unwrap(), vec![ids[1].clone(), ids[2].clone()]);
    assert!(state.get_static_object(&ids[1]).is_some());
    assert!(state.get_animated_object(&ids[2]).is_some());
    assert!(World::default().s_objects.is_empty());
}

#[test]
fn game_loop_moves_the_objects_one_after_the_other() {
    let mut world = World::new();
    world.add_static(vec![wall(120_000, 0, 10_000, 50_000, vec![1])]);
    let first = mover(0, 0, 50_000, 50_000, 100_000, 0, vec![1]);
    // the second stands where the first will end up once it was slowed down
    let second = mover(60_000, 100_000, 50_000, 50_000, 0, -60_000, vec![1]);
    let first_id = first.get_id();
    let second_id = second.get_id();
    world.add_animated(vec![first, second]);
    let mut game = GameLoop::new(world, 5_000);
    assert_eq!(game.scene().a_objects.length(), 2);

    // the clock does not go back: no time, no motion
    game.update(4_000);
    assert_eq!(get_animated_object(game.state(), &first_id).unwrap().pos.x, 0);
    assert_eq!(get_animated_object(game.state(), &first_id).unwrap().velocity.x, 100_000);

    // one second later
    game.update(5_000);
    let first_now = get_animated_object(game.state(), &first_id).unwrap();
    assert_eq!(first_now.velocity, Velocity { x: 65_610, y: 0 });
    assert_eq!(first_now.pos.x, 65_610);
    // the second sees the first where it stands now: its step up to y = 40
    // would overlap the first (y 0..50, x 65.61..115.61); slowed down it
    // ends at 100 - 54 = 46, still overlapping; and so on until it stays
    // clear of y = 50
    let second_now = get_animated_object(game.state(), &second_id).unwrap();
    assert_eq!(second_now.pos.x, 60_000);
    assert_eq!(second_now.velocity.y, -48_600);
    assert_eq!(second_now.pos.y, 51_400);
}

#[test]
fn game_loop_leaves_an_object_whose_step_leaves_the_range() {
    let mut world = World::new();
    let runaway = mover(i64::MAX - 5, 0, 1, 1, 1_000_000, 0, vec![1]);
    let id = runaway.get_id();
    world.add_animated(vec![runaway]);
    let mut game = GameLoop::new(world, 0);
    game.update_game(1_000);
    let now = get_animated_object(game.state(), &id).unwrap();
    assert_eq!(now.pos.x, i64::MAX - 5);
    assert_eq!(now.velocity.x, 1_000_000);
}

#[test]
fn move_without_a_representable_end_is_declined() {
    let mut state = GlobalState::new();
    a_add_s_object(&mut state, wall(120_000, 0, 10_000, 50_000, vec![1])).unwrap();
    let mut obj = mover(0, 0, 50_000, 50_000, 100_000, 0, vec![1]);
    assert_eq!(obj.try_move(&state, 1_000), Some(false));
    assert_eq!(obj.pos.x, 70_000);
    assert_eq!(obj.velocity.x, 70_000);
    let mut walled_in = mover(125_000, 0, 1_000, 1_000, 100, 0, vec![1]);
    assert_eq!(walled_in.try_move(&state, 1_000), Some(true));
    assert_eq!(walled_in.pos.x, 125_000);
    let mut runaway = mover(i64::MAX - 5, 0, 1, 1, 1_000_000, 0, vec![1]);
    assert_eq!(runaway.try_move(&state, 1_000), None);
    assert_eq!(runaway.pos.x, i64::MAX - 5);
    assert_eq!(runaway.velocity.x, 1_000_000);
}

#[test]
fn shortened_step_leaves_the_object_slower() {
    let mut state = GlobalState::new();
    a_add_s_object(&mut state, wall(120_000, -100_000, 10_000, 200_000, vec![1])).unwrap();
    let mut obj = mover(0, 0, 50_000, 50_000, 100_000, -7, vec![1]);
    assert!(!obj.move_object(&state, 1_000));
    assert_eq!(obj.velocity, Velocity { x: 70_000, y: -4 });
    // the next call starts from the reduced velocity: 70 more would overlap
    // again, six tenths of it end at x = 112 with the right edge at 162
    // beyond the wall, so the first free step among the shorter ones is taken
    let before = obj.velocity;
    assert!(!obj.move_object(&state, 1_000));
    assert!(obj.velocity.x.abs() <= before.x.abs());
    assert!(obj.velocity.y.abs() <= before.y.abs());
}

#[test]
fn default_object_rests_at_the_origin() {
    let obj = AnimatedObject::default();
    assert_eq!(obj.z_index, 0);
    assert_eq!(obj.id, "00000000-0000-0000-0000-000000000000");
    assert_eq!(obj.name, "");
    assert_eq!(obj.pos, PointWithDeg::default());
    assert_eq!(obj.size, Size::default());
    assert!(obj.masks.is_empty());
    assert_eq!(obj.velocity, Velocity::default());
    assert_eq!(obj.shape.points, CustomShape::default().points);
}

#[test]
fn scene_with_a_group_out_of_range_is_recognised() {
    let mut world = World::new();
    assert!(scene_is_valid(&world));
    world.add_static(vec![wall(0, 0, 1, 1, vec![1, 15]), wall(0, 0, 1, 1, vec![])]);
    world.add_animated(vec![mover(0, 0, 1, 1, 0, 0, vec![15, 1])]);
    assert!(scene_is_valid(&world));
    let mut bad_static = World::new();
    bad_static.add_static(vec![wall(0, 0, 1, 1, vec![1]), wall(0, 0, 1, 1, vec![1, 16])]);
    assert!(!scene_is_valid(&bad_static));
    let mut bad_mover = World::new();
    bad_mover.add_static(vec![wall(0, 0, 1, 1, vec![1])]);
    bad_mover.add_animated(vec![mover(0, 0, 1, 1, 0, 0, vec![0])]);
    assert!(!scene_is_valid(&bad_mover));
}
