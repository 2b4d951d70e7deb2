use dice_roller::dice_area::{DiceArea, RealizeError};
use dice_roller::die::DieKind;
use dice_roller::scene::Transform;

#[test]
fn failed_realize_registers_nothing_and_errors() {
    let mut area = DiceArea::new();
    let result = area.realize(false);
    assert_eq!(result, Err(RealizeError::ContextUnavailable));
    assert!(area.renderer.is_none());
}

#[test]
fn mutations_while_unrealized_are_no_ops() {
    let mut area = DiceArea::new();
    assert!(!area.add_four());
    assert!(!area.add_six());
    assert!(!area.add_eight());
    assert!(!area.add_ten());
    assert!(!area.add_twelve());
    assert!(!area.add_twenty());
    assert!(!area.roll());
    assert!(area.renderer.is_none());
}

#[test]
fn realize_builds_an_empty_scene() {
    let mut area = DiceArea::new();
    assert_eq!(area.realize(true), Ok(()));
    let renderer = area.renderer.as_ref().expect("realized surface has a renderer");
    assert!(renderer.dice.is_empty());
    assert_eq!(renderer.instance_sets.len(), 6);
    for set in &renderer.instance_sets {
        assert!(set.is_empty());
    }
}

#[test]
fn each_button_adds_its_kind() {
    let mut area = DiceArea::new();
    area.realize(true).expect("realize");
    assert!(area.add_four());
    assert!(area.add_six());
    assert!(area.add_eight());
    assert!(area.add_ten());
    assert!(area.add_twelve());
    assert!(area.add_twenty());
    let renderer = area.renderer.as_ref().unwrap();
    assert_eq!(renderer.dice.len(), 6);
    let kinds: Vec<DieKind> = renderer.dice.iter().map(|d| d.kind).collect();
    assert_eq!(
        kinds,
        vec![
            DieKind::Four,
            DieKind::Six,
            DieKind::Eight,
            DieKind::Ten,
            DieKind::Twelve,
            DieKind::Twenty,
        ]
    );
    for kind in kinds {
        assert_eq!(renderer.die_count(kind), 1);
    }
}

#[test]
fn roll_rolls_every_placed_die() {
    let mut area = DiceArea::new();
    area.realize(true).expect("realize");
    area.add_four();
    area.add_twenty();
    assert!(area.roll());
    let renderer = area.renderer.as_ref().unwrap();
    assert!((1..=4).contains(&renderer.dice[0].val));
    assert!((1..=20).contains(&renderer.dice[1].val));
    assert!(renderer.dice.iter().all(|d| d.time.is_some()));
}

#[test]
fn render_plans_a_frame_for_the_single_die() {
    let mut area = DiceArea::new();
    area.realize(true).expect("realize");
    area.add_six();
    if area.renderer.is_some() {
        let plan = area.render(1024, 768);
        assert_eq!(plan.width, 1024);
        assert_eq!(plan.height, 768);
        assert_eq!(plan.calls.len(), 1);
        assert_eq!(plan.calls[0].kind, DieKind::Six);
        assert_eq!(plan.calls[0].transforms, vec![Transform::identity()]);
    } else {
        panic!("surface lost its renderer");
    }
}

#[test]
fn unrealize_destroys_the_renderer() {
    let mut area = DiceArea::new();
    area.realize(true).expect("realize");
    area.add_twelve();
    area.unrealize();
    assert!(area.renderer.is_none());
    assert!(!area.add_twelve());
}

#[test]
fn realizing_again_starts_from_scratch() {
    let mut area = DiceArea::new();
    area.realize(true).expect("realize");
    area.add_ten();
    area.unrealize();
    area.realize(true).expect("realize again");
    let renderer = area.renderer.as_ref().unwrap();
    assert!(renderer.dice.is_empty());
}
