use billiards::cue::{ContactEvent, CueController, CueState, Force, Velocity};
use billiards::exact::{Coord, Point};
use billiards::rack::rack_layout;
use billiards::scene::{
    build_scene, Body, BodyId, BodyKind, CuePair, Dynamics, Scene, SceneError, Shape,
    TableGeometry, CUE_BALL, CUE_TIP, CUE_TIP_DROP, CUE_TIP_SIDE, FIRST_CUSHION,
    FIRST_OBJECT_BALL, PER_MILLE, SCENE_BODIES, UNITS_PER_CM,
};

fn at(x_halves: i64, y_halves: i64) -> Point {
    Point {
        x: Coord { halves: x_halves, root3_halves: 0 },
        y: Coord { halves: y_halves, root3_halves: 0 },
    }
}

fn standard_scene() -> Scene {
    build_scene(&TableGeometry::standard())
}

fn body(kind: BodyKind) -> Body {
    Body { kind, shape: Shape::Ball { diameter: 1 }, centre: at(0, 0), dynamics: None }
}

fn scene_of(kinds: &[BodyKind]) -> Scene {
    Scene { bodies: kinds.iter().map(|kind| body(*kind)).collect() }
}

#[test]
fn standard_table_sizes() {
    let g = TableGeometry::standard();
    assert_eq!(UNITS_PER_CM, 10_000);
    assert_eq!(PER_MILLE, 1_000);
    assert_eq!(g.half_width, 56 * UNITS_PER_CM);
    assert_eq!(g.half_length, 112 * UNITS_PER_CM);
    assert_eq!(g.edge_width, 19 * UNITS_PER_CM);
    assert_eq!(g.ball_diameter, 57_150);
    assert_eq!(g.edge_to_string, 558_800);
    assert_eq!(g.ball_tolerance, 1_000);
}

#[test]
fn scene_holds_twenty_one_bodies_in_order() {
    let scene = standard_scene();
    assert_eq!(scene.bodies.len(), 21);
    assert_eq!(SCENE_BODIES, 21);
    assert_eq!((FIRST_CUSHION, CUE_BALL, FIRST_OBJECT_BALL, CUE_TIP), (0, 4, 5, 20));
    for i in 0..4 {
        assert_eq!(scene.bodies[i].kind, BodyKind::Cushion);
    }
    assert_eq!(scene.bodies[4].kind, BodyKind::CueBall);
    for i in 5..20 {
        assert_eq!(scene.bodies[i].kind, BodyKind::ObjectBall);
    }
    assert_eq!(scene.bodies[20].kind, BodyKind::CueTip);
}

#[test]
fn cushions_surround_the_table() {
    let scene = standard_scene();
    let across = Shape::Rectangle { width: 1_120_000, height: 190_000 };
    let along = Shape::Rectangle { width: 190_000, height: 2_240_000 };
    let expected = [
        (across, at(0, -2_430_000)),
        (along, at(-1_310_000, 0)),
        (across, at(0, 2_430_000)),
        (along, at(1_310_000, 0)),
    ];
    for i in 0..4 {
        assert_eq!(scene.bodies[i].shape, expected[i].0);
        assert_eq!(scene.bodies[i].centre, expected[i].1);
        assert_eq!(scene.bodies[i].dynamics, None);
    }
}

#[test]
fn cue_ball_stands_a_quarter_of_the_length_below_the_centre() {
    let scene = standard_scene();
    let cue_ball = scene.bodies[CUE_BALL];
    assert_eq!(cue_ball.shape, Shape::Ball { diameter: 57_150 });
    assert_eq!(cue_ball.centre, at(0, -1_120_000));
    assert_eq!(cue_ball.dynamics, Some(Dynamics::ball()));
}

#[test]
fn object_balls_stand_in_the_rack() {
    let scene = standard_scene();
    let rack = rack_layout(57_150, 561_200, 1_000);
    for i in 0..15 {
        let ball = scene.bodies[FIRST_OBJECT_BALL + i];
        assert_eq!(ball.kind, BodyKind::ObjectBall);
        assert_eq!(ball.shape, Shape::Ball { diameter: 57_150 });
        assert_eq!(ball.centre, rack[i]);
        assert_eq!(ball.dynamics, Some(Dynamics::ball()));
    }
    assert_eq!(
        scene.bodies[FIRST_OBJECT_BALL].centre.y,
        Coord { halves: 1_124_400, root3_halves: -114_300 }
    );
}

#[test]
fn cue_tip_is_a_small_heavy_sensor_below_the_cue_ball() {
    let scene = standard_scene();
    let tip = scene.bodies[CUE_TIP];
    assert_eq!(CUE_TIP_SIDE, 20_000);
    assert_eq!(CUE_TIP_DROP, 600_000);
    assert_eq!(tip.shape, Shape::Rectangle { width: 20_000, height: 20_000 });
    assert_eq!(tip.centre, at(0, -1_200_000));
    let dynamics = tip.dynamics.unwrap();
    assert_eq!(dynamics, Dynamics::cue_tip());
    assert_eq!(dynamics.restitution, 950);
    assert_eq!(dynamics.linear_damping, 300);
    assert_eq!(dynamics.angular_damping, 100);
    assert_eq!(dynamics.gravity_scale, 0);
    assert_eq!(dynamics.added_mass, Some(100));
    assert!(dynamics.sensor);
    assert!(dynamics.reports_contacts);
}

#[test]
fn balls_are_lively_and_lightly_damped() {
    let dynamics = Dynamics::ball();
    assert_eq!(dynamics.restitution, 950);
    assert_eq!(dynamics.linear_damping, 100);
    assert_eq!(dynamics.angular_damping, 100);
    assert_eq!(dynamics.gravity_scale, 0);
    assert_eq!(dynamics.added_mass, None);
    assert!(!dynamics.sensor);
    assert!(!dynamics.reports_contacts);
}

#[test]
fn scene_follows_the_sizes_of_the_table() {
    let g = TableGeometry {
        half_width: 7,
        half_length: 11,
        edge_width: 3,
        ball_diameter: 2,
        edge_to_string: 20,
        ball_tolerance: -1,
    };
    let scene = build_scene(&g);
    assert_eq!(scene.bodies[0].shape, Shape::Rectangle { width: 14, height: 3 });
    assert_eq!(scene.bodies[0].centre, at(0, -25));
    assert_eq!(scene.bodies[1].shape, Shape::Rectangle { width: 3, height: 22 });
    assert_eq!(scene.bodies[1].centre, at(-17, 0));
    assert_eq!(scene.bodies[2].centre, at(0, 25));
    assert_eq!(scene.bodies[3].centre, at(17, 0));
    assert_eq!(scene.bodies[4].centre, at(0, -11));
    assert_eq!(scene.bodies[5].centre.x, Coord { halves: -2, root3_halves: 0 });
    assert_eq!(scene.bodies[5].centre.y, Coord { halves: -20, root3_halves: -4 });
    assert_eq!(scene.bodies[19].centre.x, Coord { halves: 6, root3_halves: 0 });
    assert_eq!(scene.bodies[19].centre.y, Coord { halves: -20, root3_halves: 4 });
}

#[test]
fn scene_of_the_largest_table_does_not_overflow() {
    let g = TableGeometry {
        half_width: u32::MAX,
        half_length: u32::MAX,
        edge_width: u32::MAX,
        ball_diameter: u32::MAX,
        edge_to_string: 0,
        ball_tolerance: i32::MAX,
    };
    let scene = build_scene(&g);
    let m = u32::MAX as i64;
    assert_eq!(scene.bodies[0].shape, Shape::Rectangle { width: 2 * m as u64, height: m as u64 });
    assert_eq!(scene.bodies[2].centre, at(0, 3 * m));
    assert_eq!(scene.bodies[19].centre.x.halves, 4 * m + 2 * (i32::MAX as i64));
    assert_eq!(scene.bodies[19].centre.y.halves, 2 * (m + i32::MAX as i64));
    let far = TableGeometry { half_length: 0, edge_to_string: u32::MAX, ..g };
    let other = build_scene(&far);
    assert_eq!(other.bodies[5].centre.y.halves, 2 * (-m + i32::MAX as i64));
}

#[test]
fn standard_scene_has_its_cue_pair() {
    let scene = standard_scene();
    assert_eq!(scene.cue_pair(), Ok(CuePair { tip: BodyId(20), ball: BodyId(4) }));
}

#[test]
fn cue_pair_is_found_wherever_it_stands() {
    let scene = scene_of(&[
        BodyKind::ObjectBall,
        BodyKind::CueTip,
        BodyKind::Cushion,
        BodyKind::CueBall,
        BodyKind::ObjectBall,
    ]);
    assert_eq!(scene.cue_pair(), Ok(CuePair { tip: BodyId(1), ball: BodyId(3) }));
    let short = scene_of(&[BodyKind::CueBall, BodyKind::CueTip]);
    assert_eq!(short.cue_pair(), Ok(CuePair { tip: BodyId(1), ball: BodyId(0) }));
}

#[test]
fn scene_without_a_cue_tip_is_refused() {
    assert_eq!(scene_of(&[]).cue_pair(), Err(SceneError::MissingCueTip));
    let scene = scene_of(&[BodyKind::CueBall, BodyKind::ObjectBall, BodyKind::Cushion]);
    assert_eq!(scene.cue_pair(), Err(SceneError::MissingCueTip));
    let mut standard = standard_scene();
    standard.bodies.pop();
    assert_eq!(standard.cue_pair(), Err(SceneError::MissingCueTip));
}

#[test]
fn scene_with_two_cue_tips_is_refused() {
    let scene = scene_of(&[BodyKind::CueTip, BodyKind::CueBall, BodyKind::CueTip]);
    assert_eq!(scene.cue_pair(), Err(SceneError::DuplicateCueTip));
    let mut standard = standard_scene();
    let tip = standard.bodies[CUE_TIP];
    standard.bodies.push(tip);
    assert_eq!(standard.cue_pair(), Err(SceneError::DuplicateCueTip));
}

#[test]
fn scene_without_a_cue_ball_is_refused() {
    let scene = scene_of(&[BodyKind::CueTip, BodyKind::ObjectBall]);
    assert_eq!(scene.cue_pair(), Err(SceneError::MissingCueBall));
    let mut standard = standard_scene();
    standard.bodies.remove(CUE_BALL);
    assert_eq!(standard.cue_pair(), Err(SceneError::MissingCueBall));
}

#[test]
fn scene_with_two_cue_balls_is_refused() {
    let scene = scene_of(&[BodyKind::CueBall, BodyKind::CueTip, BodyKind::CueBall]);
    assert_eq!(scene.cue_pair(), Err(SceneError::DuplicateCueBall));
    let three = scene_of(&[
        BodyKind::CueBall,
        BodyKind::CueBall,
        BodyKind::CueTip,
        BodyKind::CueBall,
    ]);
    assert_eq!(three.cue_pair(), Err(SceneError::DuplicateCueBall));
}

#[test]
fn a_fault_of_the_cue_tip_is_reported_first() {
    let neither = scene_of(&[BodyKind::ObjectBall]);
    assert_eq!(neither.cue_pair(), Err(SceneError::MissingCueTip));
    let no_tip_two_balls = scene_of(&[BodyKind::CueBall, BodyKind::CueBall]);
    assert_eq!(no_tip_two_balls.cue_pair(), Err(SceneError::MissingCueTip));
    let two_tips_no_ball = scene_of(&[BodyKind::CueTip, BodyKind::CueTip]);
    assert_eq!(two_tips_no_ball.cue_pair(), Err(SceneError::DuplicateCueTip));
}

#[test]
fn a_session_from_scene_to_braking() {
    let scene = standard_scene();
    let pair = scene.cue_pair().unwrap();
    let mut cue = CueController::new(pair);
    let mut force = Force { x: 0, y: 0 };
    let rising = Velocity { x: 0, y: 1_500 };
    cue.tick(&vec![], false, rising, &mut force);
    assert_eq!(cue.state(), CueState::Idle);
    assert_eq!(force, Force { x: 0, y: 0 });
    let contact = vec![ContactEvent::Started(BodyId(CUE_BALL), BodyId(CUE_TIP))];
    cue.tick(&contact, false, rising, &mut force);
    assert_eq!(cue.state(), CueState::Contacted);
    assert_eq!(force, Force { x: 0, y: -1_500_000 });
    let parted = vec![ContactEvent::Stopped(BodyId(CUE_BALL), BodyId(CUE_TIP))];
    cue.tick(&parted, false, Velocity { x: -20, y: 700 }, &mut force);
    assert_eq!(cue.state(), CueState::Contacted);
    assert_eq!(force, Force { x: 20_000, y: -700_000 });
}
