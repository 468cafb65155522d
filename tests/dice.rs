use shito::dice::{parse_dice, parse_dice_text, roll, roll_dice};

#[test]
fn parse_dice_accepts_count_and_sides() {
    assert_eq!(parse_dice("2d6"), Some((2, 6)));
    assert_eq!(parse_dice("d20"), Some((1, 20)));
    assert_eq!(parse_dice("  3D8 "), Some((3, 8)));
    assert_eq!(parse_dice("+2d+6"), Some((2, 6)));
}

#[test]
fn parse_dice_rejects_other_shapes() {
    assert_eq!(parse_dice("0d6"), None);
    assert_eq!(parse_dice("d0"), None);
    assert_eq!(parse_dice("abc"), None);
    assert_eq!(parse_dice("1d6d6"), None);
    assert_eq!(parse_dice("-1d6"), None);
    assert_eq!(parse_dice("2d"), None);
    assert_eq!(parse_dice(""), None);
    assert_eq!(parse_dice("99999999999d6"), None);
}

#[test]
fn parse_dice_text_takes_normalized_text() {
    assert_eq!(parse_dice_text("4d10"), Some((4, 10)));
    assert_eq!(parse_dice_text("4D10"), None);
    assert_eq!(parse_dice_text(" 4d10"), None);
}

#[test]
fn roll_of_one_sided_dice_is_fixed() {
    let (total, rolls) = roll("3d1", 0);
    assert_eq!(total, 3);
    assert_eq!(rolls, vec![1, 1, 1]);
    let (total, rolls) = roll("3d1", -5);
    assert_eq!(total, -2);
    assert_eq!(rolls, vec![1, 1, 1]);
}

#[test]
fn roll_stays_within_sides() {
    for _ in 0..50 {
        let (total, rolls) = roll("4d6", 2);
        assert_eq!(rolls.len(), 4);
        assert!(rolls.iter().all(|r| *r >= 1 && *r <= 6));
        assert_eq!(total, rolls.iter().map(|r| *r as i64).sum::<i64>() + 2);
    }
}

#[test]
fn roll_falls_back_to_d20() {
    for _ in 0..30 {
        let (total, rolls) = roll("fireball", 0);
        assert_eq!(rolls.len(), 1);
        assert!(rolls[0] >= 1 && rolls[0] <= 20);
        assert_eq!(total, rolls[0] as i64);
    }
}

#[test]
fn roll_dice_sums_with_modifier() {
    let (total, rolls) = roll_dice(5, 1, 7);
    assert_eq!(rolls, vec![1; 5]);
    assert_eq!(total, 12);
}
