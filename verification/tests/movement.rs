use pong::movement::{collision, count_partners, intersects, move_objects, resolve_collision, CollisionType};
use pong::sprite::{Color, Pos, Size, Sprite, Velocity};
use pong::units::px;
use pong::world::World;

fn make_sprite(pos: Pos, velocity: Velocity, size: Size) -> Sprite {
    let color = Color { r: 0, g: 0, b: 0 };
    Sprite::new(pos, velocity, color, size)
}

fn insert(world: &mut World, name: &str, sprite: Sprite) {
    world.add_sprite(name, sprite.pos, sprite.velocity, sprite.size, sprite.color);
}

#[test]
fn test_move_objects_moves_sprite() {
    let mut world = World::empty();
    let velocity = Velocity { dx: px(1), dy: px(2) };
    let pos = Pos { x: 0, y: 0 };
    let size = Size { width: px(10), height: px(10) };
    insert(&mut world, "test", make_sprite(pos, velocity, size));
    move_objects(&mut world, 1);
    let sprite = world.get_sprite("test");
    assert_eq!(sprite.pos.x, px(1));
    assert_eq!(sprite.pos.y, px(2));
}

#[test]
fn test_intersects_true() {
    let a = make_sprite(
        Pos { x: 0, y: 0 },
        Velocity { dx: 0, dy: 0 },
        Size { width: px(10), height: px(10) },
    );
    let b = make_sprite(
        Pos { x: px(5), y: px(5) },
        Velocity { dx: 0, dy: 0 },
        Size { width: px(10), height: px(10) },
    );
    assert!(intersects(&a, &b));
}

#[test]
fn test_intersects_false() {
    let a = make_sprite(
        Pos { x: 0, y: 0 },
        Velocity { dx: 0, dy: 0 },
        Size { width: px(10), height: px(10) },
    );
    let b = make_sprite(
        Pos { x: px(20), y: px(20) },
        Velocity { dx: 0, dy: 0 },
        Size { width: px(5), height: px(5) },
    );
    assert!(!intersects(&a, &b));
}

#[test]
fn test_collision_between_sprites() {
    let mut world = World::empty();
    let velocity = Velocity { dx: 0, dy: 0 };
    let velocity2 = Velocity { dx: 0, dy: 0 };
    let size = Size { width: px(10), height: px(10) };
    let size2 = Size { width: px(10), height: px(10) };
    insert(&mut world, "a", make_sprite(Pos { x: 0, y: 0 }, velocity, size));
    insert(&mut world, "b", make_sprite(Pos { x: px(5), y: px(5) }, velocity2, size2));
    let collided = collision(&mut world, 0);
    assert!(matches!(collided, Some(CollisionType::WithSprite)));
}

#[test]
fn test_collision_with_border() {
    let mut world = World::empty();
    let velocity = Velocity { dx: px(5), dy: 0 };
    let size = Size { width: px(10), height: px(10) };
    let pos = Pos { x: world.window.width + px(9), y: px(100) };
    insert(&mut world, "border", make_sprite(pos, velocity, size));
    let collided = collision(&mut world, 0);
    assert!(matches!(collided, Some(CollisionType::WithBorder)));
    let sprite = world.get_sprite("border");
    assert!(sprite.pos.x <= world.window.width - sprite.size.width);
    assert_eq!(sprite.velocity.dx, -px(5));
    assert_eq!(sprite.pos.x, px(1014));
    assert_eq!(sprite.pos.y, px(100));
    assert_eq!(sprite.velocity.dy, 0);
}

/// Two overlapping sprites both have both components of their velocity
/// turned round, and stay where they are.
#[test]
fn test_collision_inverts_both_velocities() {
    let mut world = World::empty();
    let size = Size { width: px(10), height: px(10) };
    insert(&mut world, "a", make_sprite(Pos { x: 0, y: 0 }, Velocity { dx: 3, dy: -4 }, size));
    insert(
        &mut world,
        "b",
        make_sprite(Pos { x: px(5), y: px(5) }, Velocity { dx: -7, dy: 11 }, size),
    );
    assert!(intersects(world.get_sprite("a"), world.get_sprite("b")));
    let outcome = collision(&mut world, 16);
    assert_eq!(outcome, Some(CollisionType::WithSprite));
    assert_eq!(world.get_sprite("a").velocity, Velocity { dx: -3, dy: 4 });
    assert_eq!(world.get_sprite("b").velocity, Velocity { dx: 7, dy: -11 });
    assert_eq!(world.get_sprite("a").pos, Pos { x: 0, y: 0 });
    assert_eq!(world.get_sprite("b").pos, Pos { x: 5000, y: 5000 });
}

/// Without overlap and with every sprite inside the window nothing happens.
#[test]
fn test_no_collision_changes_nothing() {
    let mut world = World::empty();
    let size = Size { width: px(10), height: px(10) };
    insert(&mut world, "a", make_sprite(Pos { x: 0, y: 0 }, Velocity { dx: 3, dy: -4 }, size));
    insert(
        &mut world,
        "b",
        make_sprite(Pos { x: px(50), y: px(50) }, Velocity { dx: -7, dy: 11 }, size),
    );
    assert_eq!(collision(&mut world, 16), None);
    assert_eq!(world.get_sprite("a").velocity, Velocity { dx: 3, dy: -4 });
    assert_eq!(world.get_sprite("b").velocity, Velocity { dx: -7, dy: 11 });
    assert_eq!(world.get_sprite("a").pos, Pos { x: 0, y: 0 });
    assert_eq!(world.get_sprite("b").pos, Pos { x: 50_000, y: 50_000 });
    let mut nobody = World::empty();
    assert_eq!(collision(&mut nobody, 16), None);
    assert!(nobody.is_empty());
}

/// Boxes that share an edge do not overlap.
#[test]
fn test_touching_boxes_do_not_intersect() {
    let rest = Velocity { dx: 0, dy: 0 };
    let size = Size { width: 10, height: 10 };
    let a = make_sprite(Pos { x: 0, y: 0 }, rest, size);
    let right = make_sprite(Pos { x: 10, y: 0 }, rest, size);
    let below = make_sprite(Pos { x: 0, y: 10 }, rest, size);
    let nearly = make_sprite(Pos { x: 9, y: 9 }, rest, size);
    assert!(!intersects(&a, &right));
    assert!(!intersects(&a, &below));
    assert!(intersects(&a, &nearly));
    assert!(intersects(&a, &a));
}

/// The order of the two sprites makes no difference to the test.
#[test]
fn test_intersects_is_symmetric() {
    let rest = Velocity { dx: 0, dy: 0 };
    let boxes = [
        make_sprite(Pos { x: 0, y: 0 }, rest, Size { width: 10, height: 10 }),
        make_sprite(Pos { x: 5, y: 5 }, rest, Size { width: 10, height: 10 }),
        make_sprite(Pos { x: 10, y: 0 }, rest, Size { width: 3, height: 30 }),
        make_sprite(Pos { x: -4, y: 8 }, rest, Size { width: 5, height: 1 }),
        make_sprite(Pos { x: 2, y: 2 }, rest, Size { width: 0, height: 0 }),
        make_sprite(Pos { x: i64::MAX, y: i64::MAX }, rest, Size { width: i64::MAX, height: 1 }),
        make_sprite(Pos { x: i64::MIN, y: 0 }, rest, Size { width: i64::MAX, height: 9 }),
    ];
    for a in boxes.iter() {
        for b in boxes.iter() {
            assert_eq!(intersects(a, b), intersects(b, a));
        }
    }
    assert!(intersects(&boxes[0], &boxes[1]));
    assert!(!intersects(&boxes[0], &boxes[2]));
    assert!(intersects(&boxes[0], &boxes[4]));
}

/// A sprite bounces once for each sprite it overlaps: with two partners its
/// velocity is back where it was, with one it is turned round.
#[test]
fn test_collision_counts_partners() {
    let mut world = World::empty();
    let size = Size { width: 10, height: 10 };
    insert(&mut world, "left", make_sprite(Pos { x: 100, y: 100 }, Velocity { dx: 1, dy: 2 }, size));
    insert(&mut world, "mid", make_sprite(Pos { x: 108, y: 100 }, Velocity { dx: 3, dy: 4 }, size));
    insert(&mut world, "right", make_sprite(Pos { x: 116, y: 100 }, Velocity { dx: 5, dy: 6 }, size));
    assert_eq!(count_partners(&world, 0), 1);
    assert_eq!(count_partners(&world, 1), 2);
    assert_eq!(count_partners(&world, 2), 1);
    assert_eq!(collision(&mut world, 1), Some(CollisionType::WithSprite));
    assert_eq!(world.get_sprite("left").velocity, Velocity { dx: -1, dy: -2 });
    assert_eq!(world.get_sprite("mid").velocity, Velocity { dx: 3, dy: 4 });
    assert_eq!(world.get_sprite("right").velocity, Velocity { dx: -5, dy: -6 });
}

/// Where sprites overlap and one reaches outside the window in the same
/// round, the border is what is reported, and both responses are made.
#[test]
fn test_border_wins_over_sprite() {
    let mut world = World::empty();
    let size = Size { width: 10, height: 10 };
    insert(&mut world, "a", make_sprite(Pos { x: -5, y: 50 }, Velocity { dx: -2, dy: 3 }, size));
    insert(&mut world, "b", make_sprite(Pos { x: 0, y: 55 }, Velocity { dx: 4, dy: 5 }, size));
    assert_eq!(collision(&mut world, 1), Some(CollisionType::WithBorder));
    let a = *world.get_sprite("a");
    assert_eq!(a.velocity, Velocity { dx: -2, dy: -3 });
    assert_eq!(a.pos, Pos { x: 0, y: 50 });
    let b = *world.get_sprite("b");
    assert_eq!(b.velocity, Velocity { dx: -4, dy: -5 });
    assert_eq!(b.pos, Pos { x: 0, y: 55 });
}

/// A sprite that leaves the window is put back into it on every side, and
/// only the component of the velocity across that side is turned round.
#[test]
fn test_border_clamps_on_every_side() {
    let size = Size { width: px(10), height: px(20) };
    let velocity = Velocity { dx: 7, dy: -9 };
    let cases = [
        (Pos { x: -1, y: px(100) }, Pos { x: 0, y: px(100) }, Velocity { dx: -7, dy: -9 }),
        (Pos { x: px(1015), y: px(100) }, Pos { x: px(1014), y: px(100) }, Velocity { dx: -7, dy: -9 }),
        (Pos { x: px(100), y: -px(3) }, Pos { x: px(100), y: 0 }, Velocity { dx: 7, dy: 9 }),
        (Pos { x: px(100), y: px(749) }, Pos { x: px(100), y: px(748) }, Velocity { dx: 7, dy: 9 }),
        (Pos { x: -px(50), y: px(5000) }, Pos { x: 0, y: px(748) }, Velocity { dx: -7, dy: 9 }),
    ];
    for (start, end, after) in cases.iter() {
        let mut world = World::empty();
        insert(&mut world, "s", make_sprite(*start, velocity, size));
        assert_eq!(collision(&mut world, 1), Some(CollisionType::WithBorder));
        let s = *world.get_sprite("s");
        assert_eq!(s.pos, *end);
        assert_eq!(s.velocity, *after);
        assert!(0 <= s.pos.x && s.pos.x <= world.window.width - s.size.width);
        assert!(0 <= s.pos.y && s.pos.y <= world.window.height - s.size.height);
    }
}

/// A sprite that just fits the window at its far corner has not left it.
#[test]
fn test_sprite_at_the_edge_is_inside() {
    let mut world = World::empty();
    let size = Size { width: px(10), height: px(20) };
    insert(
        &mut world,
        "s",
        make_sprite(Pos { x: px(1014), y: px(748) }, Velocity { dx: 7, dy: -9 }, size),
    );
    assert_eq!(collision(&mut world, 1), None);
    assert_eq!(world.get_sprite("s").pos, Pos { x: px(1014), y: px(748) });
    assert_eq!(world.get_sprite("s").velocity, Velocity { dx: 7, dy: -9 });
}

/// A sprite wider than the window ends at the negative end of the range
/// that is left for it.
#[test]
fn test_sprite_wider_than_window() {
    let mut world = World::empty();
    let size = Size { width: px(2000), height: px(10) };
    insert(&mut world, "s", make_sprite(Pos { x: px(5), y: px(5) }, Velocity { dx: 1, dy: 1 }, size));
    assert_eq!(collision(&mut world, 1), Some(CollisionType::WithBorder));
    assert_eq!(world.get_sprite("s").pos, Pos { x: -px(976), y: px(5) });
    assert_eq!(world.get_sprite("s").velocity, Velocity { dx: -1, dy: 1 });
}

/// One frame takes every sprite `dt` times its velocity further, exactly.
#[test]
fn test_move_objects_is_exact() {
    let mut world = World::empty();
    let size = Size { width: 10, height: 10 };
    insert(&mut world, "a", make_sprite(Pos { x: 3, y: 4 }, Velocity { dx: -2, dy: 5 }, size));
    insert(&mut world, "b", make_sprite(Pos { x: -30, y: 40 }, Velocity { dx: 300, dy: 0 }, size));
    move_objects(&mut world, 7);
    assert_eq!(world.get_sprite("a").pos, Pos { x: 3 - 14, y: 4 + 35 });
    assert_eq!(world.get_sprite("b").pos, Pos { x: 2070, y: 40 });
    assert_eq!(world.get_sprite("a").velocity, Velocity { dx: -2, dy: 5 });
    assert_eq!(world.get_sprite("a").size, size);
    move_objects(&mut world, -7);
    assert_eq!(world.get_sprite("a").pos, Pos { x: 3, y: 4 });
    assert_eq!(world.get_sprite("b").pos, Pos { x: -30, y: 40 });
}

/// A sprite at rest stays where it is, frame after frame.
#[test]
fn test_sprite_at_rest_stays() {
    let mut world = World::empty();
    let size = Size { width: 10, height: 10 };
    let start = Pos { x: 123, y: -456 };
    insert(&mut world, "still", make_sprite(start, Velocity { dx: 0, dy: 0 }, size));
    for dt in [0i64, 1, 2, 16, 1000, i64::MAX, i64::MIN, -3] {
        move_objects(&mut world, dt);
        assert_eq!(world.get_sprite("still").pos, start);
    }
    let mut sprite = make_sprite(start, Velocity { dx: 0, dy: 0 }, size);
    sprite.step(99);
    assert_eq!(sprite, make_sprite(start, Velocity { dx: 0, dy: 0 }, size));
}

/// A coordinate that would leave the range of `i64` stays at its end.
#[test]
fn test_move_objects_saturates() {
    let mut world = World::empty();
    let size = Size { width: 10, height: 10 };
    insert(
        &mut world,
        "far",
        make_sprite(Pos { x: i64::MAX - 5, y: i64::MIN + 5 }, Velocity { dx: 3, dy: -3 }, size),
    );
    move_objects(&mut world, 2);
    assert_eq!(world.get_sprite("far").pos, Pos { x: i64::MAX, y: i64::MIN });
    let mut fast = World::empty();
    insert(
        &mut fast,
        "fast",
        make_sprite(Pos { x: 0, y: 0 }, Velocity { dx: i64::MAX, dy: i64::MIN }, size),
    );
    move_objects(&mut fast, i64::MAX);
    assert_eq!(fast.get_sprite("fast").pos, Pos { x: i64::MAX, y: i64::MIN });
}

/// Turning a velocity round negates both components; the most negative
/// number turns into the most positive one.
#[test]
fn test_resolve_collision_negates() {
    let size = Size { width: 10, height: 10 };
    let mut s = make_sprite(Pos { x: 1, y: 2 }, Velocity { dx: 5, dy: -6 }, size);
    resolve_collision(&mut s);
    assert_eq!(s.velocity, Velocity { dx: -5, dy: 6 });
    assert_eq!(s.pos, Pos { x: 1, y: 2 });
    let mut edge = make_sprite(Pos { x: 1, y: 2 }, Velocity { dx: i64::MIN, dy: i64::MAX }, size);
    resolve_collision(&mut edge);
    assert_eq!(edge.velocity, Velocity { dx: i64::MAX, dy: -i64::MAX });
}

/// The order in which sprites were added makes no difference to a round of
/// collisions.
#[test]
fn test_collision_ignores_storage_order() {
    let size = Size { width: 10, height: 10 };
    let parts = [
        ("left", make_sprite(Pos { x: 100, y: 100 }, Velocity { dx: 1, dy: 2 }, size)),
        ("mid", make_sprite(Pos { x: 108, y: 100 }, Velocity { dx: 3, dy: 4 }, size)),
        ("right", make_sprite(Pos { x: 116, y: 100 }, Velocity { dx: 5, dy: 6 }, size)),
        ("out", make_sprite(Pos { x: -3, y: 500 }, Velocity { dx: -7, dy: 8 }, size)),
    ];
    let orders = [[0usize, 1, 2, 3], [3, 2, 1, 0], [1, 3, 0, 2], [2, 0, 3, 1]];
    for order in orders.iter() {
        let mut world = World::empty();
        for place in order.iter() {
            let (name, sprite) = parts[*place];
            insert(&mut world, name, sprite);
        }
        assert_eq!(collision(&mut world, 1), Some(CollisionType::WithBorder));
        assert_eq!(world.get_sprite("left").velocity, Velocity { dx: -1, dy: -2 });
        assert_eq!(world.get_sprite("mid").velocity, Velocity { dx: 3, dy: 4 });
        assert_eq!(world.get_sprite("right").velocity, Velocity { dx: -5, dy: -6 });
        assert_eq!(world.get_sprite("out").velocity, Velocity { dx: 7, dy: 8 });
        assert_eq!(world.get_sprite("out").pos, Pos { x: 0, y: 500 });
        assert_eq!(world.get_sprite("mid").pos, Pos { x: 108, y: 100 });
    }
}
