use sliding_boxes::entity::AnimatedRectangle;
use sliding_boxes::entity::Rgb;
use sliding_boxes::entity::BOX_VELOCITY;

#[test]
fn new_copies_parameters_exactly() {
    let color = Rgb { r: 0, g: 100, b: 0 };
    let entity = AnimatedRectangle::new(120, 200, 30, 30, color, -1, 300);
    assert_eq!(entity.x, 120);
    assert_eq!(entity.y, 200);
    assert_eq!(entity.width, 30);
    assert_eq!(entity.height, 30);
    assert_eq!(entity.color, color);
    assert_eq!(entity.direction, -1);
    assert_eq!(entity.delay, 300);
}

#[test]
fn update_before_delay_changes_nothing() {
    let color = Rgb { r: 0, g: 100, b: 0 };
    let mut entity = AnimatedRectangle::new(50, 200, 30, 30, color, -1, 500);
    let before = entity;
    entity.update(0);
    assert_eq!(entity, before);
    entity.update(250);
    assert_eq!(entity, before);
    entity.update(499);
    assert_eq!(entity, before);
}

#[test]
fn first_update_moves_up_by_velocity() {
    let color = Rgb { r: 0, g: 100, b: 0 };
    let mut entity = AnimatedRectangle::new(50, 200, 30, 30, color, -1, 0);
    entity.update(0);
    assert_eq!(BOX_VELOCITY, 5);
    assert_eq!(entity.y, 195);
    assert_eq!(entity.direction, -1);
}

#[test]
fn top_edge_reflects_and_keeps_overshoot() {
    let color = Rgb { r: 0, g: 100, b: 0 };
    let mut entity = AnimatedRectangle::new(50, 3, 30, 30, color, -1, 0);
    entity.update(0);
    assert_eq!(entity.y, -2);
    assert_eq!(entity.direction, 1);
}

#[test]
fn bottom_edge_reflects_on_the_same_update() {
    let color = Rgb { r: 0, g: 100, b: 0 };
    let mut entity = AnimatedRectangle::new(50, 450, 30, 30, color, 1, 0);
    entity.update(0);
    assert_eq!(entity.y, 455);
    assert_eq!(entity.direction, -1);
}

#[test]
fn activation_gate_is_one_shot() {
    let color = Rgb { r: 0, g: 100, b: 0 };
    let mut entity = AnimatedRectangle::new(50, 200, 30, 30, color, -1, 100);
    entity.update(99);
    assert_eq!(entity.y, 200);
    entity.update(100);
    assert_eq!(entity.y, 195);
    entity.update(101);
    assert_eq!(entity.y, 190);
}
