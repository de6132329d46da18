use rhombus_instinct::difficulty::{DifficultyCurve, NormalDifficulty};

fn after(lines: usize) -> NormalDifficulty {
    let mut curve = NormalDifficulty::new();
    curve.clear_lines(lines);
    curve
}

#[test]
fn a_new_curve_has_no_lines() {
    let curve = NormalDifficulty::new();
    assert_eq!(curve.lines_cleared, 0);
    assert_eq!(curve.get_gravity(), 4);
    assert!(!curve.done());
}

#[test]
fn gravity_steps_up_every_ten_lines() {
    let table = [4, 8, 12, 16, 20, 24, 28, 32, 48, 64, 80, 96, 112, 128, 256];
    for (level, gravity) in table.iter().enumerate() {
        assert_eq!(after(level * 10).get_gravity(), *gravity);
        assert_eq!(after(level * 10 + 9).get_gravity(), *gravity);
    }
}

#[test]
fn gravity_stays_at_the_last_step() {
    assert_eq!(after(149).get_gravity(), 256);
    assert_eq!(after(150).get_gravity(), 256);
    assert_eq!(after(171).get_gravity(), 256);
    assert_eq!(after(1_000_000).get_gravity(), 256);
    assert_eq!(after(usize::MAX).get_gravity(), 256);
}

#[test]
fn the_pauses_are_constant() {
    for lines in [0, 10, 75, 149, 150, 400] {
        let curve = after(lines);
        assert_eq!(curve.get_are_frames(), 25);
        assert_eq!(curve.get_clear_frames(), 40);
        assert_eq!(curve.get_lock_frames(), 30);
    }
}

#[test]
fn cleared_lines_add_up() {
    let mut curve = NormalDifficulty::new();
    curve.clear_lines(3);
    curve.clear_lines(0);
    curve.clear_lines(4);
    assert_eq!(curve.lines_cleared, 7);
}

#[test]
fn the_curve_is_done_at_150_lines() {
    assert!(!after(149).done());
    assert!(after(150).done());
    assert!(after(151).done());
}
