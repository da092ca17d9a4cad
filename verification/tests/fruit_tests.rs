use snake_game::fruit::Fruit;
use snake_game::palette::{Color, DrawCommand};
use snake_game::point::Point;

fn p(x: i32, y: i32) -> Point {
    Point { x, y }
}

#[test]
fn generated_position_avoids_the_snake() {
    let mut rng = fastrand::Rng::with_seed(7);
    let body = vec![p(5, 0), p(4, 0), p(3, 0), p(2, 0), p(1, 0), p(0, 0)];
    for _ in 0..200 {
        let fruit = Fruit::generate_position(&body, 40, 40, &mut rng);
        assert!(!body.contains(&fruit));
        assert!(fruit.x >= 0 && fruit.x < 40);
        assert!(fruit.y >= 0 && fruit.y < 40);
    }
}

#[test]
fn generated_position_stays_inside_small_grid() {
    let mut rng = fastrand::Rng::with_seed(11);
    let body = vec![p(0, 0)];
    for _ in 0..100 {
        let fruit = Fruit::generate_position(&body, 2, 3, &mut rng);
        assert!(fruit != p(0, 0));
        assert!(fruit.x >= 0 && fruit.x < 2);
        assert!(fruit.y >= 0 && fruit.y < 3);
    }
}

#[test]
fn single_free_cell_is_always_found() {
    // occupy every cell of the grid except one; placement must return
    // exactly that cell
    let mut body = Vec::new();
    for y in 0..40 {
        for x in 0..40 {
            if !(x == 7 && y == 3) {
                body.push(p(x, y));
            }
        }
    }
    let mut rng = fastrand::Rng::with_seed(23);
    let fruit = Fruit::generate_position(&body, 40, 40, &mut rng);
    assert_eq!(fruit, p(7, 3));
}

#[test]
fn randomized_occupied_sets_never_receive_their_own_cells() {
    let mut rng = fastrand::Rng::with_seed(99);
    for round in 0..20 {
        let mut body = Vec::new();
        let filled = (round * 73) % 1599;
        for k in 0..filled {
            body.push(p(k % 40, k / 40));
        }
        let fruit = Fruit::generate_position(&body, 40, 40, &mut rng);
        assert!(!body.contains(&fruit));
        assert!(fruit.x >= 0 && fruit.x < 40);
        assert!(fruit.y >= 0 && fruit.y < 40);
    }
}

#[test]
fn fruit_draw_scales_cell_to_pixels() {
    let cmd = Fruit::draw(p(12, 30), 4);
    assert_eq!(
        cmd,
        DrawCommand { color: Color::Fruit, x: 48, y: 120, size: 4 }
    );
}
