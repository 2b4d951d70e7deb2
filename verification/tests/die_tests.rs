use dice_roller::die::{Die, DieKind};

const ALL_KINDS: [DieKind; 6] = [
    DieKind::Four,
    DieKind::Six,
    DieKind::Eight,
    DieKind::Ten,
    DieKind::Twelve,
    DieKind::Twenty,
];

fn faces_of(kind: DieKind) -> u32 {
    match kind {
        DieKind::Four => 4,
        DieKind::Six => 6,
        DieKind::Eight => 8,
        DieKind::Ten => 10,
        DieKind::Twelve => 12,
        DieKind::Twenty => 20,
    }
}

#[test]
fn faces_per_kind() {
    for kind in ALL_KINDS {
        assert_eq!(kind.faces(), faces_of(kind));
    }
}

#[test]
fn created_value_in_range_for_every_kind() {
    for kind in ALL_KINDS {
        for _ in 0..100 {
            let die = Die::new(kind);
            assert_eq!(die.kind, kind);
            assert!(die.val >= 1 && die.val <= faces_of(kind));
            assert!(die.time.is_some());
        }
    }
}

#[test]
fn repeated_rolls_stay_in_range_and_keep_kind() {
    for kind in ALL_KINDS {
        let mut die = Die::new(kind);
        for _ in 0..500 {
            die.roll();
            assert_eq!(die.kind, kind);
            assert!(die.val >= 1 && die.val <= faces_of(kind));
        }
    }
}

#[test]
fn twenty_sided_rolls_cover_every_face() {
    let mut die = Die::new(DieKind::Twenty);
    let mut seen = [false; 20];
    for _ in 0..10_000 {
        die.roll();
        seen[(die.val - 1) as usize] = true;
    }
    for (face, hit) in seen.iter().enumerate() {
        assert!(*hit, "face {} never rolled in 10000 tries", face + 1);
    }
}

#[test]
fn create_four_then_roll_twenty_scenario() {
    let four = Die::new(DieKind::Four);
    assert!((1..=4).contains(&four.val));

    let mut twenty = Die::new(DieKind::Twenty);
    let mut last_time = twenty.time.expect("a fresh die has a roll time");
    for _ in 0..10 {
        twenty.roll();
        assert!((1..=20).contains(&twenty.val));
        let time = twenty.time.expect("a rolled die has a roll time");
        assert!(time > last_time, "roll times must strictly increase");
        last_time = time;
    }
}

#[test]
fn generate_roll_in_range() {
    for kind in ALL_KINDS {
        for _ in 0..100 {
            let val = Die::generate_roll(kind);
            assert!(val >= 1 && val <= faces_of(kind));
        }
    }
}
