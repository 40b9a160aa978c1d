use raptor::rng::{pick_index, Rng, UNIT_SCALE};

/// The unit value of the next draw, as the minigames read it.
fn unit(rng: &mut Rng) -> f32 {
    rng.unit_bits() as f32 / UNIT_SCALE as f32
}

#[test]
fn the_same_state_gives_the_same_sequence() {
    let mut first = Rng::from_state(1234);
    let mut second = Rng::from_state(1234);
    for _ in 0..64 {
        assert_eq!(unit(&mut first), unit(&mut second));
    }
}

#[test]
fn different_states_diverge() {
    let mut first = Rng::from_state(1);
    let mut second = Rng::from_state(2);
    assert_ne!(unit(&mut first), unit(&mut second));
}

#[test]
fn unit_stays_inside_its_range() {
    let mut rng = Rng::from_state(0xdead_beef);
    for _ in 0..10_000 {
        let value = unit(&mut rng);
        assert!((0.0..1.0).contains(&value), "unit out of range: {value}");
    }
}

/// The sequence is part of the game: a folder that already fielded one
/// asteroid layout must keep fielding exactly that one.
#[test]
fn the_sequence_is_pinned() {
    let mut rng = Rng::from_state(1);
    let first_six: Vec<u32> = (0..6).map(|_| (unit(&mut rng) * 1_000_000.0) as u32).collect();
    assert_eq!(
        first_six,
        vec![423_209, 509_407, 648_359, 382_863, 795_447, 500_511]
    );
}

#[test]
fn one_step_is_the_linear_congruence() {
    let mut rng = Rng::from_state(1);
    let bits = rng.unit_bits();
    let next = 1u64
        .wrapping_mul(6364136223846793005)
        .wrapping_add(1442695040888963407);
    assert_eq!(bits as u64, next >> 40);
}

/// The exact index matches the float expression it stands for, including the
/// draws where the float product rounds up to the next whole number.
#[test]
fn picking_an_index_agrees_with_the_float_product() {
    for n in 1..=8u32 {
        let mut rng = Rng::from_state(7);
        for _ in 0..20_000 {
            let bits = rng.unit_bits();
            let float = (bits as f32 / UNIT_SCALE as f32 * n as f32) as usize;
            assert_eq!(pick_index(bits, n), float, "bits {bits} n {n}");
        }
        for bits in (UNIT_SCALE - 64)..UNIT_SCALE {
            let float = (bits as f32 / UNIT_SCALE as f32 * n as f32) as usize;
            assert_eq!(pick_index(bits, n), float, "bits {bits} n {n}");
        }
    }
}

#[test]
fn picking_covers_every_index_and_stays_below_n() {
    assert_eq!(pick_index(UNIT_SCALE - 1, 7), 6);
    assert_eq!(pick_index(0, 7), 0);
    assert_eq!(pick_index(UNIT_SCALE / 2, 2), 1);
    assert_eq!(pick_index(UNIT_SCALE / 2 - 1, 2), 0);
}
