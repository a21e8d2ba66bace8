use collision_core::boundary::{apply_boundary_reflection, reflect_at_boundary};
use collision_core::geometry::Vec2;
use collision_core::integration::{integrate, integrate_one};
use collision_core::prediction::{detect_future_collisions, reflect_against_obstacle};
use collision_core::state::{classify_speed, Arena, Body, Gate, Obstacle, Speed, SPEED_THRESHOLD};

fn body(px: i64, py: i64, vx: i64, vy: i64, hx: i64, hy: i64) -> Body {
    Body::new(Vec2 { x: px, y: py }, Vec2 { x: vx, y: vy }, Vec2 { x: hx, y: hy })
}

fn wall(cx: i64, cy: i64, hx: i64, hy: i64) -> Obstacle {
    Obstacle {
        center: Vec2 { x: cx, y: cy },
        half_extent: Vec2 { x: hx, y: hy },
        gate: Gate::Fixed,
    }
}

fn arena(sx: i64, sy: i64) -> Arena {
    Arena { center: Vec2 { x: 0, y: 0 }, size: Vec2 { x: sx, y: sy } }
}

#[test]
fn boundary_reflection_pushes_back_toward_center() {
    let a = arena(1000, 1000);
    // below the low x bound: velocity forced nonnegative
    let low = reflect_at_boundary(&body(-501, 0, -30, 7, 2, 2), &a);
    assert_eq!(low.velocity.x, 30);
    assert_eq!(low.velocity.y, 7);
    // above the high x bound: velocity forced nonpositive
    let high = reflect_at_boundary(&body(501, 0, 30, 7, 2, 2), &a);
    assert_eq!(high.velocity.x, -30);
    assert_eq!(high.velocity.y, 7);
    // the bound itself is inside: untouched
    let edge = reflect_at_boundary(&body(500, -500, 30, -7, 2, 2), &a);
    assert_eq!(edge.velocity.x, 30);
    assert_eq!(edge.velocity.y, -7);
    // the y axis follows the same rule independently
    let below = reflect_at_boundary(&body(0, -501, 30, -7, 2, 2), &a);
    assert_eq!(below.velocity.x, 30);
    assert_eq!(below.velocity.y, 7);
}

#[test]
fn boundary_reflection_never_moves_the_position() {
    let a = arena(1000, 1000);
    let mut bodies = vec![body(-900, 900, -3, 4, 2, 2), body(10, 20, 1, 1, 2, 2)];
    apply_boundary_reflection(&mut bodies, &a);
    assert_eq!(bodies[0].position, Vec2 { x: -900, y: 900 });
    assert_eq!(bodies[0].velocity, Vec2 { x: 3, y: -4 });
    assert_eq!(bodies[1].position, Vec2 { x: 10, y: 20 });
    assert_eq!(bodies[1].velocity, Vec2 { x: 1, y: 1 });
}

#[test]
fn gate_open_is_transparent() {
    // a body heading straight into a gated obstacle
    let b = body(0, 0, 100, 0, 5, 5);
    let open_gate = Obstacle {
        center: Vec2 { x: 150, y: 0 },
        half_extent: Vec2 { x: 60, y: 10 },
        gate: Gate::Gated(true),
    };
    let after = reflect_against_obstacle(&b, &open_gate, 1);
    assert_eq!(after.velocity, Vec2 { x: 100, y: 0 });

    // the same obstacle with its gate closed reflects
    let closed_gate = Obstacle { gate: Gate::Gated(false), ..open_gate };
    let after_closed = reflect_against_obstacle(&b, &closed_gate, 1);
    assert_eq!(after_closed.velocity, Vec2 { x: -100, y: 0 });
}

#[test]
fn open_gate_leaves_other_obstacles_in_force() {
    let b = body(0, 0, 100, 0, 5, 5);
    let open_gate = Obstacle {
        center: Vec2 { x: 150, y: 0 },
        half_extent: Vec2 { x: 60, y: 10 },
        gate: Gate::Gated(true),
    };
    let solid = wall(150, 0, 60, 10);
    let mut bodies = vec![b];
    detect_future_collisions(&mut bodies, &vec![open_gate, solid], 1);
    assert_eq!(bodies[0].velocity, Vec2 { x: -100, y: 0 });
}

#[test]
fn axis_independence_x_only() {
    // moving purely along x; only the x-projected future box reaches the wall
    let b = body(0, 0, 100, 0, 5, 5);
    let w = wall(150, 0, 60, 10);
    let after = reflect_against_obstacle(&b, &w, 1);
    assert_eq!(after.velocity, Vec2 { x: -100, y: 0 });
    assert_eq!(after.position, b.position);
}

#[test]
fn axis_independence_y_only() {
    let b = body(0, 0, 0, 100, 5, 5);
    let w = wall(0, 150, 10, 60);
    let after = reflect_against_obstacle(&b, &w, 1);
    assert_eq!(after.velocity, Vec2 { x: 0, y: -100 });
}

#[test]
fn diagonal_motion_uses_the_original_position_for_both_axes() {
    // both projected boxes overlap: both axes are negated in the same pass
    let b = body(0, 0, 100, 100, 5, 5);
    let w = wall(60, 60, 60, 60);
    let after = reflect_against_obstacle(&b, &w, 1);
    assert_eq!(after.velocity, Vec2 { x: -100, y: -100 });
}

#[test]
fn last_obstacle_processed_wins() {
    // a body inside a wide wall: each pass over the wall flips the x velocity
    let b = body(500, 0, 10, 0, 5, 5);
    let w = wall(500, 0, 500, 10);
    let mut once = vec![b];
    detect_future_collisions(&mut once, &vec![w], 1);
    assert_eq!(once[0].velocity.x, -10);
    let mut twice = vec![b];
    detect_future_collisions(&mut twice, &vec![w, w], 1);
    assert_eq!(twice[0].velocity.x, 10);
}

#[test]
fn prediction_with_no_obstacles_is_a_no_op() {
    let b = body(499, 0, 50, 0, 2, 2);
    let mut bodies = vec![b];
    detect_future_collisions(&mut bodies, &vec![], 1);
    assert_eq!(bodies[0], b);
}

#[test]
fn prediction_at_zero_dt_tests_the_current_position() {
    // with dt == 0 the future position equals the current one
    let inside = body(150, 0, 100, 0, 5, 5);
    let w = wall(150, 0, 60, 10);
    let after = reflect_against_obstacle(&inside, &w, 0);
    assert_eq!(after.velocity, Vec2 { x: -100, y: 0 });
    // a body out of reach is untouched however large its velocity
    let far = body(0, 0, 100000, 0, 5, 5);
    let after_far = reflect_against_obstacle(&far, &w, 0);
    assert_eq!(after_far.velocity, Vec2 { x: 100000, y: 0 });
}

#[test]
fn integration_advances_by_velocity_times_step() {
    let b = body(10, -20, 3, 5, 2, 2);
    let after = integrate_one(&b, 7);
    assert_eq!(after.position, Vec2 { x: 31, y: 15 });
    assert_eq!(after.velocity, b.velocity);
    let mut bodies = vec![b, body(0, 0, -1, -1, 2, 2)];
    integrate(&mut bodies, 3);
    assert_eq!(bodies[0].position, Vec2 { x: 19, y: -5 });
    assert_eq!(bodies[1].position, Vec2 { x: -3, y: -3 });
}

#[test]
fn integration_at_nonpositive_dt_is_a_no_op() {
    let b = body(10, -20, 3, 5, 2, 2);
    assert_eq!(integrate_one(&b, 0).position, b.position);
    assert_eq!(integrate_one(&b, -4).position, b.position);
}

#[test]
fn speed_classification_boundary() {
    // magnitude exactly 155 is slow: strictly greater is required for fast
    assert_eq!(classify_speed(&Vec2 { x: SPEED_THRESHOLD, y: 0 }), Speed::Slow);
    assert_eq!(classify_speed(&Vec2 { x: 93, y: 124 }), Speed::Slow); // 93^2 + 124^2 == 155^2
    assert_eq!(classify_speed(&Vec2 { x: 200, y: 0 }), Speed::Fast);
    assert_eq!(classify_speed(&Vec2 { x: 100, y: 0 }), Speed::Slow);
    assert_eq!(classify_speed(&Vec2 { x: 0, y: -156 }), Speed::Fast);
    assert_eq!(classify_speed(&Vec2 { x: 93, y: 125 }), Speed::Fast);
    assert_eq!(classify_speed(&Vec2 { x: 0, y: 0 }), Speed::Slow);
}
