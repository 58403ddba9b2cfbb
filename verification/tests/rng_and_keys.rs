use peregrine::key_state::KeyState;
use peregrine::rng::SimpleRng;

#[test]
fn deterministic_with_same_seed() {
    let mut a = SimpleRng::new(42);
    let mut b = SimpleRng::new(42);
    for _ in 0..10 {
        assert_eq!(a.next_u64(), b.next_u64());
    }
}

#[test]
fn different_seeds_produce_different_output() {
    let mut a = SimpleRng::new(1);
    let mut b = SimpleRng::new(2);
    assert_ne!(a.next_u64(), b.next_u64());
}

#[test]
fn zero_seed_normalizes_to_one() {
    let mut a = SimpleRng::new(0);
    let mut b = SimpleRng::new(1);
    assert_eq!(a.next_u64(), b.next_u64());
}

#[test]
fn first_output_of_seed_one() {
    let mut rng = SimpleRng::new(1);
    assert_eq!(rng.next_u64(), 6364136223846793006);
    assert_eq!(
        rng.next_u64(),
        6364136223846793006u64.wrapping_mul(6364136223846793005).wrapping_add(1)
    );
}

#[test]
fn key_state_case_insensitive() {
    let mut s = KeyState::new();
    s.press("Shift");
    assert!(s.is_down("shift"));
    assert!(s.is_down("SHIFT"));
    s.release("SHIFT");
    assert!(!s.is_down("shift"));
}

#[test]
fn key_state_count() {
    let mut s = KeyState::new();
    assert_eq!(s.pressed_count(), 0);
    s.press("a");
    s.press("b");
    s.press("ctrl");
    assert_eq!(s.pressed_count(), 3);
}

#[test]
fn key_press_twice_counts_once_and_clear_empties() {
    let mut s = KeyState::new();
    s.press("A");
    s.press("a");
    assert_eq!(s.pressed_count(), 1);
    s.release("b");
    assert_eq!(s.pressed_count(), 1);
    s.clear();
    assert_eq!(s.pressed_count(), 0);
    assert!(!s.is_down("a"));
}

fn next_f32(rng: &mut SimpleRng) -> f32 {
    rng.next_24() as f32 / 0x0100_0000 as f32
}

#[test]
fn next_f32_in_range() {
    let mut rng = SimpleRng::new(12345);
    for _ in 0..1000 {
        let f = next_f32(&mut rng);
        assert!((0.0..1.0).contains(&f));
    }
}

#[test]
fn known_output() {
    let mut rng = SimpleRng::new(1);
    assert_eq!(rng.next_u64(), 6364136223846793006);
    let f = next_f32(&mut rng);
    assert!(f >= 0.0 && f < 1.0);
}
