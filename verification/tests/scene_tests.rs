use dice_roller::die::DieKind;
use dice_roller::scene::{kind_slot, slot_kind, Renderer, Transform};

const ALL_KINDS: [DieKind; 6] = [
    DieKind::Four,
    DieKind::Six,
    DieKind::Eight,
    DieKind::Ten,
    DieKind::Twelve,
    DieKind::Twenty,
];

#[test]
fn kind_slots_round_trip() {
    for (i, kind) in ALL_KINDS.iter().enumerate() {
        assert_eq!(kind_slot(*kind), i);
        assert_eq!(slot_kind(i), *kind);
    }
}

#[test]
fn fresh_renderer_is_empty() {
    let renderer = Renderer::new();
    assert!(renderer.dice.is_empty());
    assert_eq!(renderer.prev_size, 0);
    assert_eq!(renderer.instance_sets.len(), 6);
    for set in &renderer.instance_sets {
        assert!(set.is_empty());
    }
    for kind in ALL_KINDS {
        assert_eq!(renderer.die_count(kind), 0);
    }
}

#[test]
fn add_die_raises_only_its_kinds_count() {
    let mut renderer = Renderer::new();
    renderer.add_die(DieKind::Six);
    for kind in ALL_KINDS {
        let expected: usize = if kind == DieKind::Six { 1 } else { 0 };
        assert_eq!(renderer.die_count(kind), expected);
    }
    renderer.add_die(DieKind::Six);
    renderer.add_die(DieKind::Twenty);
    assert_eq!(renderer.die_count(DieKind::Six), 2);
    assert_eq!(renderer.die_count(DieKind::Twenty), 1);
    assert_eq!(renderer.die_count(DieKind::Four), 0);
    assert_eq!(renderer.dice.len(), 3);
}

#[test]
fn roll_all_keeps_kinds_and_ranges() {
    let mut renderer = Renderer::new();
    renderer.add_die(DieKind::Four);
    renderer.add_die(DieKind::Twelve);
    renderer.roll_all();
    assert_eq!(renderer.dice.len(), 2);
    assert_eq!(renderer.dice[0].kind, DieKind::Four);
    assert_eq!(renderer.dice[1].kind, DieKind::Twelve);
    assert!((1..=4).contains(&renderer.dice[0].val));
    assert!((1..=12).contains(&renderer.dice[1].val));
    assert!(renderer.dice.iter().all(|d| d.time.is_some()));
}

#[test]
fn added_dice_carry_a_roll_time() {
    let mut renderer = Renderer::new();
    renderer.add_die(DieKind::Ten);
    assert!(renderer.dice[0].time.is_some());
}

#[test]
fn draw_with_no_dice_issues_no_calls() {
    let mut renderer = Renderer::new();
    let plan = renderer.draw(800, 600);
    assert_eq!(plan.width, 800);
    assert_eq!(plan.height, 600);
    assert!(plan.calls.is_empty());
}

#[test]
fn draw_with_one_six_places_the_identity_transform() {
    let mut renderer = Renderer::new();
    renderer.add_die(DieKind::Six);
    let plan = renderer.draw(640, 480);
    assert_eq!(plan.calls.len(), 1);
    assert_eq!(plan.calls[0].kind, DieKind::Six);
    assert_eq!(plan.calls[0].transforms, vec![Transform::identity()]);
    assert_eq!(Transform::identity(), Transform { x: 0, y: 0, z: 0 });
}

#[test]
fn one_die_of_each_kind_draws_the_identity_at_the_origin() {
    for kind in ALL_KINDS {
        let mut renderer = Renderer::new();
        renderer.add_die(kind);
        let plan = renderer.draw(100, 100);
        assert_eq!(plan.calls.len(), 1);
        assert_eq!(plan.calls[0].kind, kind);
        assert_eq!(plan.calls[0].transforms, vec![Transform { x: 0, y: 0, z: 0 }]);
    }
}

#[test]
fn second_draw_at_the_same_size_keeps_the_sets() {
    let mut renderer = Renderer::new();
    renderer.add_die(DieKind::Eight);
    let first = renderer.draw(320, 240);
    let second = renderer.draw(320, 240);
    assert_eq!(first.calls.len(), 1);
    assert_eq!(second.calls.len(), 1);
    assert_eq!(second.calls[0].kind, DieKind::Eight);
    assert_eq!(second.calls[0].transforms, vec![Transform::identity()]);
}

#[test]
fn sizes_beyond_one_leave_instance_sets_stale() {
    let mut renderer = Renderer::new();
    renderer.add_die(DieKind::Six);
    let _ = renderer.draw(800, 600);
    renderer.add_die(DieKind::Six);
    let plan = renderer.draw(800, 600);
    // The layout handles only the single-die rebuild, so the six-sided
    // set still holds the one transform of the first frame.
    assert_eq!(plan.calls.len(), 1);
    assert_eq!(plan.calls[0].kind, DieKind::Six);
    assert_eq!(plan.calls[0].transforms.len(), 1);
    assert_eq!(renderer.prev_size, 1);
}

#[test]
fn dice_added_before_the_first_draw_of_two_stay_undrawn() {
    let mut renderer = Renderer::new();
    renderer.add_die(DieKind::Four);
    renderer.add_die(DieKind::Twenty);
    let plan = renderer.draw(800, 600);
    // Two dice placed but never one: no rebuild ever ran, every set is
    // still empty and the frame clears without drawing.
    assert!(plan.calls.is_empty());
    assert_eq!(renderer.prev_size, 0);
}
