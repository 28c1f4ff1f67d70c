use snake::display::{convert, position_translation, scale, size_scaling, Ratio, Surface, Transform, Vector3};
use snake::game::Game;
use snake::grid::Position;
use snake::registry::Registry;

const ZERO: Ratio = Ratio { num: 0, den: 1 };
const ONE: Ratio = Ratio { num: 1, den: 1 };
const BLANK: Transform = Transform {
    translation: Vector3 { x: ZERO, y: ZERO, z: ZERO },
    scale: Vector3 { x: ONE, y: ONE, z: ONE },
};

fn value(ratio: Ratio) -> f64 {
    ratio.num as f64 / ratio.den as f64
}

fn formula(cell: f64, surface: f64, extent: f64) -> f64 {
    let tile = surface / extent;
    cell / extent * surface - surface / 2.0 + tile / 2.0
}

#[test]
fn convert_centres_the_arena() {
    assert_eq!(convert(0, 500, 10), Ratio { num: -4500, den: 20 });
    assert_eq!(convert(3, 500, 10), Ratio { num: -1500, den: 20 });
    assert_eq!(convert(9, 500, 10), Ratio { num: 4500, den: 20 });
    assert_eq!(value(convert(0, 500, 10)), -225.0);
    assert_eq!(value(convert(3, 500, 10)), -75.0);
    assert_eq!(value(convert(9, 500, 10)), 225.0);
    assert_eq!(value(convert(0, 500, 10)), -value(convert(9, 500, 10)));
}

#[test]
fn convert_agrees_with_the_formula() {
    for cell in -3i32..14i32 {
        for (surface, extent) in [(500u32, 10u32), (640, 16), (1, 1), (333, 7)] {
            let exact = value(convert(cell, surface, extent));
            let float = formula(cell as f64, surface as f64, extent as f64);
            assert!((exact - float).abs() < 1e-9, "cell {cell}: {exact} against {float}");
        }
    }
}

#[test]
fn convert_takes_the_whole_range() {
    let low = convert(i32::MIN, u32::MAX, u32::MAX);
    let high = convert(i32::MAX, u32::MAX, 1);
    assert_eq!(low.den, 2 * (u32::MAX as i128));
    assert_eq!(low.num, (u32::MAX as i128) * (2 * (i32::MIN as i128) + 1 - (u32::MAX as i128)));
    assert_eq!(high, Ratio { num: (u32::MAX as i128) * (2 * (i32::MAX as i128)), den: 2 });
}

#[test]
fn one_cell_is_one_tile() {
    for (surface, extent) in [(500u32, 10u32), (640, 16), (333, 7)] {
        for cell in -2i32..12i32 {
            let here = convert(cell, surface, extent);
            let next = convert(cell + 1, surface, extent);
            assert_eq!(next.den, here.den);
            // (next - here) = 2 * surface / (2 * extent) = surface / extent
            assert_eq!(next.num - here.num, 2 * surface as i128);
            assert!(value(next) > value(here));
        }
    }
    assert_eq!(value(convert(4, 500, 10)) - value(convert(3, 500, 10)), 50.0);
}

#[test]
fn scale_of_a_tile() {
    assert_eq!(scale(80, 500, 10), Ratio { num: 40000, den: 1000 });
    assert_eq!(scale(65, 500, 10), Ratio { num: 32500, den: 1000 });
    assert_eq!(value(scale(80, 500, 10)), 40.0);
    assert_eq!(value(scale(65, 500, 10)), 32.5);
    assert_eq!(value(scale(100, 500, 10)), 50.0);
    assert_eq!(scale(u32::MAX, u32::MAX, u32::MAX).num, (u32::MAX as i128) * (u32::MAX as i128));
}

#[test]
fn passes_fill_the_transforms() {
    let mut game = Game::spawn_snake();
    game.spawn_food(Position { x: 9, y: 0 });
    let surface = Surface { width: 500, height: 500 };
    let mut transforms: Vec<Transform> = vec![BLANK; 3];
    size_scaling(surface, game.registry(), &mut transforms);
    position_translation(surface, game.registry(), &mut transforms);
    let head = transforms[0];
    assert_eq!((value(head.translation.x), value(head.translation.y)), (-75.0, -75.0));
    assert_eq!(head.translation.z, ZERO);
    assert_eq!((value(head.scale.x), value(head.scale.y)), (40.0, 40.0));
    assert_eq!(head.scale.z, ONE);
    let tail = transforms[1];
    assert_eq!((value(tail.translation.x), value(tail.translation.y)), (-75.0, -125.0));
    assert_eq!((value(tail.scale.x), value(tail.scale.y)), (32.5, 32.5));
    let food = transforms[2];
    assert_eq!((value(food.translation.x), value(food.translation.y)), (225.0, -225.0));
    assert_eq!((value(food.scale.x), value(food.scale.y)), (40.0, 40.0));
}

#[test]
fn each_pass_keeps_the_other_part() {
    let game = Game::spawn_snake();
    let surface = Surface { width: 500, height: 300 };
    let marked = Transform {
        translation: Vector3 { x: Ratio { num: 7, den: 3 }, y: ZERO, z: ONE },
        scale: Vector3 { x: Ratio { num: 5, den: 2 }, y: ONE, z: ZERO },
    };
    let mut transforms: Vec<Transform> = vec![marked; 2];
    size_scaling(surface, game.registry(), &mut transforms);
    assert_eq!(transforms[0].translation, marked.translation);
    assert_eq!(transforms[0].scale.x, Ratio { num: 40000, den: 1000 });
    assert_eq!(transforms[0].scale.y, Ratio { num: 24000, den: 1000 });
    let mut transforms: Vec<Transform> = vec![marked; 2];
    position_translation(surface, game.registry(), &mut transforms);
    assert_eq!(transforms[1].scale, marked.scale);
    assert_eq!(transforms[1].translation.x, Ratio { num: -1500, den: 20 });
    assert_eq!(transforms[1].translation.y, Ratio { num: -1500, den: 20 });
}

#[test]
fn passes_are_idempotent() {
    let mut game = Game::spawn_snake();
    game.spawn_food(Position { x: 5, y: 5 });
    let surface = Surface { width: 500, height: 500 };
    let mut once: Vec<Transform> = vec![BLANK; 3];
    size_scaling(surface, game.registry(), &mut once);
    position_translation(surface, game.registry(), &mut once);
    let mut twice = once.clone();
    size_scaling(surface, game.registry(), &mut twice);
    position_translation(surface, game.registry(), &mut twice);
    assert_eq!(once, twice);
    let mut swapped: Vec<Transform> = vec![BLANK; 3];
    position_translation(surface, game.registry(), &mut swapped);
    size_scaling(surface, game.registry(), &mut swapped);
    assert_eq!(once, swapped);
}

#[test]
fn passes_do_not_touch_the_game() {
    let game = Game::spawn_snake();
    let before = (game.registry().entity(game.head()), game.heading());
    let mut transforms: Vec<Transform> = vec![BLANK; 2];
    size_scaling(Surface { width: 500, height: 500 }, game.registry(), &mut transforms);
    position_translation(Surface { width: 500, height: 500 }, game.registry(), &mut transforms);
    assert_eq!((game.registry().entity(game.head()), game.heading()), before);
}

#[test]
fn passes_skip_what_has_no_partner() {
    let game = Game::spawn_snake();
    let surface = Surface { width: 500, height: 500 };
    // More transforms than entities: the third stays as it is.
    let mut transforms: Vec<Transform> = vec![BLANK; 3];
    size_scaling(surface, game.registry(), &mut transforms);
    position_translation(surface, game.registry(), &mut transforms);
    assert_eq!(transforms[2], BLANK);
    assert_ne!(transforms[1], BLANK);
    // Fewer transforms than entities: the one there is is written.
    let mut transforms: Vec<Transform> = vec![BLANK; 1];
    position_translation(surface, game.registry(), &mut transforms);
    assert_eq!(transforms.len(), 1);
    assert_eq!(transforms[0].translation.x, Ratio { num: -1500, den: 20 });
    // No entities at all.
    let mut transforms: Vec<Transform> = vec![BLANK; 2];
    size_scaling(surface, &Registry::new(), &mut transforms);
    assert_eq!(transforms, vec![BLANK; 2]);
}
