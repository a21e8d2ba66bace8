use collision_core::geometry::Vec2;
use collision_core::state::{Arena, Body, Gate, Obstacle};
use collision_core::step::simulation_step;

fn arena_1000(scale: i64) -> Arena {
    Arena {
        center: Vec2 { x: 0, y: 0 },
        size: Vec2 { x: 1000 * scale, y: 1000 * scale },
    }
}

/// Arena (0,0) size (1000,1000); body at (499,0), velocity (50,0), dt 1, no
/// obstacles: the first step leaves the velocity alone and carries the body to
/// (549,0), beyond the boundary; only the next step's boundary reflection
/// forces the velocity negative. Stated at two subunits per unit.
#[test]
fn body_crosses_boundary_then_turns_back() {
    let scale = 2;
    let a = arena_1000(scale);
    let mut bodies = vec![Body::new(
        Vec2 { x: 499 * scale, y: 0 },
        Vec2 { x: 50 * scale, y: 0 },
        Vec2 { x: 5, y: 5 },
    )];
    let no_obstacles: Vec<Obstacle> = vec![];

    simulation_step(&mut bodies, &no_obstacles, &a, 1);
    assert_eq!(bodies[0].position, Vec2 { x: 549 * scale, y: 0 });
    assert_eq!(bodies[0].velocity, Vec2 { x: 50 * scale, y: 0 });

    simulation_step(&mut bodies, &no_obstacles, &a, 1);
    assert_eq!(bodies[0].velocity, Vec2 { x: -50 * scale, y: 0 });
    assert_eq!(bodies[0].position, Vec2 { x: 499 * scale, y: 0 });
}

/// Obstacle centered (300,5), half-extent (150,2.5); body at (140,5) with
/// velocity (100,0) and half-extent (1.25,1.25), dt 1: the x-projected future
/// box at (240,5) lies inside the obstacle on both axes, so the x velocity
/// becomes -100. Stated at four subunits per unit.
#[test]
fn future_x_overlap_reflects_x_velocity() {
    let scale = 4;
    let a = arena_1000(scale);
    let wall = Obstacle {
        center: Vec2 { x: 300 * scale, y: 5 * scale },
        half_extent: Vec2 { x: 150 * scale, y: 10 }, // 2.5 units
        gate: Gate::Fixed,
    };
    let mut bodies = vec![Body::new(
        Vec2 { x: 140 * scale, y: 5 * scale },
        Vec2 { x: 100 * scale, y: 0 },
        Vec2 { x: 5, y: 5 }, // 1.25 units
    )];

    simulation_step(&mut bodies, &vec![wall], &a, 1);
    assert_eq!(bodies[0].velocity, Vec2 { x: -100 * scale, y: 0 });
    assert_eq!(bodies[0].position, Vec2 { x: 40 * scale, y: 5 * scale });
}

/// Containment under reflection: over many steps, a body bouncing on the
/// arena stays within the bounds widened by one step's travel.
#[test]
fn repeated_steps_stay_within_widened_bounds() {
    let a = arena_1000(1);
    let no_obstacles: Vec<Obstacle> = vec![];
    let mut bodies = vec![
        Body::new(Vec2 { x: 499, y: -12 }, Vec2 { x: 37, y: -91 }, Vec2 { x: 2, y: 2 }),
        Body::new(Vec2 { x: 0, y: 0 }, Vec2 { x: -163, y: 11 }, Vec2 { x: 2, y: 2 }),
    ];
    for _ in 0..2000 {
        simulation_step(&mut bodies, &no_obstacles, &a, 1);
        for b in bodies.iter() {
            assert!(-500 - 163 <= b.position.x && b.position.x <= 500 + 163);
            assert!(-500 - 163 <= b.position.y && b.position.y <= 500 + 163);
        }
    }
}

/// A gated wall between the two interior walls: closed it reflects, open it lets
/// the body through on an otherwise identical step.
#[test]
fn gate_toggling_changes_one_step() {
    let a = arena_1000(1);
    let gate_closed = Obstacle {
        center: Vec2 { x: 0, y: 0 },
        half_extent: Vec2 { x: 100, y: 5 },
        gate: Gate::Gated(false),
    };
    let gate_open = Obstacle { gate: Gate::Gated(true), ..gate_closed };
    let start = Body::new(Vec2 { x: 0, y: -40 }, Vec2 { x: 0, y: 35 }, Vec2 { x: 3, y: 3 });

    let mut through = vec![start];
    simulation_step(&mut through, &vec![gate_open], &a, 1);
    assert_eq!(through[0].velocity, Vec2 { x: 0, y: 35 });
    assert_eq!(through[0].position, Vec2 { x: 0, y: -5 });

    let mut bounced = vec![start];
    simulation_step(&mut bounced, &vec![gate_closed], &a, 1);
    assert_eq!(bounced[0].velocity, Vec2 { x: 0, y: -35 });
    assert_eq!(bounced[0].position, Vec2 { x: 0, y: -75 });
}
