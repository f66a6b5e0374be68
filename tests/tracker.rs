use swipe_tracker::config::Config;
use swipe_tracker::gesture::SwipeDirection;
use swipe_tracker::touch::{filter_touches, should_filter_touch, Contact};
use swipe_tracker::tracker::{GestureState, Swipe};

fn touch(finger_id: i32, x: i32, y: i32) -> Contact {
    Contact { finger_id, x, y, pressure: 500_000 }
}

fn fingers_at(ids: &[i32], x: i32, y: i32) -> Vec<Contact> {
    ids.iter().map(|&id| touch(id, x, y)).collect()
}

fn config() -> Config {
    Config::default()
}

#[test]
fn three_finger_right_swipe_is_reported() {
    let cfg = config();
    let mut s = GestureState::new();
    assert_eq!(s.on_frame(&fingers_at(&[1, 2, 3], 500_000, 500_000), 0, &cfg), None);
    assert_eq!(s.on_frame(&fingers_at(&[1, 2, 3], 650_000, 500_000), 10, &cfg), None);
    assert_eq!(
        s.on_frame(&Vec::new(), 20, &cfg),
        Some(Swipe { direction: SwipeDirection::Right, fingers: 3 })
    );
}

#[test]
fn short_swipe_is_not_reported() {
    let cfg = config();
    let mut s = GestureState::new();
    assert_eq!(s.on_frame(&fingers_at(&[1, 2, 3], 500_000, 500_000), 0, &cfg), None);
    assert_eq!(s.on_frame(&fingers_at(&[1, 2, 3], 550_000, 500_000), 10, &cfg), None);
    assert_eq!(s.on_frame(&Vec::new(), 20, &cfg), None);
}

#[test]
fn edge_finger_is_dropped_before_tracking() {
    let cfg = Config { edge_margin: 100_000, ..config() };
    let raw = vec![touch(1, 50_000, 500_000), touch(2, 500_000, 500_000), touch(3, 520_000, 500_000)];
    assert!(should_filter_touch(&raw[0], &cfg));
    assert!(!should_filter_touch(&raw[1], &cfg));
    assert_eq!(filter_touches(&raw, &cfg).len(), 2);

    let mut s = GestureState::new();
    assert_eq!(s.handle_touches(&raw, 0, &cfg), None);
    let moved = vec![touch(1, 50_000, 500_000), touch(2, 900_000, 500_000), touch(3, 900_000, 500_000)];
    assert_eq!(s.handle_touches(&moved, 10, &cfg), None);
    assert_eq!(s.handle_touches(&Vec::new(), 20, &cfg), None);
}

#[test]
fn filter_rules() {
    let cfg = Config { edge_margin: 100_000, min_pressure: 200_000, ..config() };
    let light = Contact { finger_id: 1, x: 500_000, y: 500_000, pressure: 199_999 };
    let firm = Contact { finger_id: 1, x: 500_000, y: 500_000, pressure: 200_000 };
    assert!(should_filter_touch(&light, &cfg));
    assert!(!should_filter_touch(&firm, &cfg));
    assert!(should_filter_touch(&Contact { x: 900_001, ..firm }, &cfg));
    assert!(!should_filter_touch(&Contact { x: 900_000, ..firm }, &cfg));
    assert!(!should_filter_touch(&Contact { y: 100_000, ..firm }, &cfg));
    assert!(should_filter_touch(&Contact { y: 99_999, ..firm }, &cfg));
    let no_margin = Config { edge_margin: 0, min_pressure: 0, ..config() };
    assert!(!should_filter_touch(&Contact { x: 0, y: 1_000_000, ..firm }, &no_margin));
}

#[test]
fn filter_keeps_order() {
    let cfg = Config { min_pressure: 100, ..config() };
    let raw = vec![
        Contact { finger_id: 4, x: 1, y: 2, pressure: 100 },
        Contact { finger_id: 5, x: 3, y: 4, pressure: 99 },
        Contact { finger_id: 6, x: 5, y: 6, pressure: 101 },
    ];
    let kept = filter_touches(&raw, &cfg);
    assert_eq!(kept, vec![raw[0], raw[2]]);
}

#[test]
fn cooldown_holds_back_new_gesture() {
    let cfg = Config { two_finger_cooldown_ms: 500, ..config() };
    let mut s = GestureState::new();
    assert_eq!(s.on_frame(&fingers_at(&[1, 2], 500_000, 500_000), 0, &cfg), None);
    assert_eq!(s.on_frame(&Vec::new(), 1_000, &cfg), None);
    // Within the cooldown: three fingers do not start a gesture.
    assert_eq!(s.on_frame(&fingers_at(&[1, 2, 3], 300_000, 500_000), 1_499, &cfg), None);
    assert_eq!(s.on_frame(&fingers_at(&[1, 2, 3], 600_000, 500_000), 1_550, &cfg), None);
    assert_eq!(s.on_frame(&Vec::new(), 1_600, &cfg), None);
}

#[test]
fn gestures_resume_after_cooldown() {
    let cfg = Config { two_finger_cooldown_ms: 500, ..config() };
    let mut s = GestureState::new();
    assert_eq!(s.on_frame(&fingers_at(&[1, 2], 500_000, 500_000), 0, &cfg), None);
    assert_eq!(s.on_frame(&Vec::new(), 1_000, &cfg), None);
    assert_eq!(s.on_frame(&fingers_at(&[1, 2, 3], 300_000, 500_000), 1_500, &cfg), None);
    assert_eq!(s.on_frame(&fingers_at(&[1, 2, 3], 600_000, 500_000), 1_510, &cfg), None);
    assert_eq!(
        s.on_frame(&Vec::new(), 1_520, &cfg),
        Some(Swipe { direction: SwipeDirection::Right, fingers: 3 })
    );
}

#[test]
fn zero_cooldown_never_holds_back() {
    let cfg = config();
    let mut s = GestureState::new();
    assert_eq!(s.on_frame(&fingers_at(&[1, 2], 500_000, 500_000), 0, &cfg), None);
    assert_eq!(s.on_frame(&Vec::new(), 1_000, &cfg), None);
    assert_eq!(s.on_frame(&fingers_at(&[1, 2, 3], 500_000, 800_000), 1_000, &cfg), None);
    assert_eq!(s.on_frame(&fingers_at(&[1, 2, 3], 500_000, 300_000), 1_001, &cfg), None);
    assert_eq!(
        s.on_frame(&Vec::new(), 1_002, &cfg),
        Some(Swipe { direction: SwipeDirection::Up, fingers: 3 })
    );
}

#[test]
fn too_few_fingers_report_nothing() {
    let cfg = config();
    let mut s = GestureState::new();
    assert_eq!(s.on_frame(&fingers_at(&[1, 2], 100_000, 500_000), 0, &cfg), None);
    assert_eq!(s.on_frame(&fingers_at(&[1, 2], 900_000, 500_000), 1, &cfg), None);
    assert_eq!(s.on_frame(&Vec::new(), 2, &cfg), None);
}

#[test]
fn immediate_release_reports_nothing() {
    let cfg = Config { left: 0, right: 0, up: 0, down: 0, ..config() };
    let mut s = GestureState::new();
    assert_eq!(s.on_frame(&fingers_at(&[1, 2, 3], 500_000, 500_000), 0, &cfg), None);
    assert_eq!(s.on_frame(&Vec::new(), 1, &cfg), None);
}

#[test]
fn replayed_frame_adds_no_movement() {
    let cfg = config();
    let mut s = GestureState::new();
    let start = fingers_at(&[1, 2, 3], 500_000, 500_000);
    let moved = fingers_at(&[1, 2, 3], 540_000, 500_000);
    s.on_frame(&start, 0, &cfg);
    s.on_frame(&moved, 1, &cfg);
    s.on_frame(&moved, 2, &cfg);
    s.on_frame(&moved, 3, &cfg);
    // 3 * 40_000 over 3 fingers is 40_000, under the threshold.
    assert_eq!(s.on_frame(&Vec::new(), 4, &cfg), None);
}

#[test]
fn finger_order_does_not_matter() {
    let cfg = config();
    let start = fingers_at(&[1, 2, 3], 500_000, 500_000);
    let forward = vec![touch(1, 560_000, 500_000), touch(2, 540_000, 500_000), touch(3, 530_000, 500_000)];
    let backward = vec![forward[2], forward[0], forward[1]];
    let mut a = GestureState::new();
    let mut b = GestureState::new();
    a.on_frame(&start, 0, &cfg);
    b.on_frame(&start, 0, &cfg);
    a.on_frame(&forward, 1, &cfg);
    b.on_frame(&backward, 1, &cfg);
    // Sum 130_000 over 3 fingers stays under 100_000 on both.
    assert_eq!(a.on_frame(&Vec::new(), 2, &cfg), None);
    assert_eq!(b.on_frame(&Vec::new(), 2, &cfg), None);

    let cfg_low = Config { right: 43_333, ..config() };
    let mut c = GestureState::new();
    let mut d = GestureState::new();
    c.on_frame(&start, 0, &cfg_low);
    d.on_frame(&start, 0, &cfg_low);
    c.on_frame(&forward, 1, &cfg_low);
    d.on_frame(&backward, 1, &cfg_low);
    let expected = Some(Swipe { direction: SwipeDirection::Right, fingers: 3 });
    assert_eq!(c.on_frame(&Vec::new(), 2, &cfg_low), expected);
    assert_eq!(d.on_frame(&Vec::new(), 2, &cfg_low), expected);
}

#[test]
fn average_uses_peak_finger_count() {
    // Three fingers move 0.12 each, then a fourth finger lands: the sum of
    // 0.36 is averaged over four fingers, 0.09, under the threshold.
    let cfg = config();
    let mut s = GestureState::new();
    s.on_frame(&fingers_at(&[1, 2, 3], 300_000, 500_000), 0, &cfg);
    s.on_frame(&fingers_at(&[1, 2, 3], 420_000, 500_000), 1, &cfg);
    s.on_frame(&fingers_at(&[1, 2, 3, 4], 420_000, 500_000), 2, &cfg);
    assert_eq!(s.on_frame(&Vec::new(), 3, &cfg), None);

    let mut t = GestureState::new();
    t.on_frame(&fingers_at(&[1, 2, 3], 300_000, 500_000), 0, &cfg);
    t.on_frame(&fingers_at(&[1, 2, 3], 440_000, 500_000), 1, &cfg);
    t.on_frame(&fingers_at(&[1, 2, 3, 4], 440_000, 500_000), 2, &cfg);
    assert_eq!(
        t.on_frame(&Vec::new(), 3, &cfg),
        Some(Swipe { direction: SwipeDirection::Right, fingers: 4 })
    );
}

#[test]
fn duplicate_ids_use_first_match() {
    let cfg = Config { min_fingers: 2, ..config() };
    let mut s = GestureState::new();
    // Every contact matches the first previous contact with its id, at 0.1:
    // the first frame against itself adds 0 + 0.8, the second 0.2 + 0.2.
    s.on_frame(&vec![touch(7, 100_000, 500_000), touch(7, 900_000, 500_000)], 0, &cfg);
    s.on_frame(&vec![touch(7, 300_000, 500_000), touch(7, 300_000, 500_000)], 1, &cfg);
    assert_eq!(
        s.on_frame(&Vec::new(), 2, &cfg),
        Some(Swipe { direction: SwipeDirection::Right, fingers: 2 })
    );
}

#[test]
fn down_swipe_and_reset_between_gestures() {
    let cfg = config();
    let mut s = GestureState::new();
    s.on_frame(&fingers_at(&[1, 2, 3], 500_000, 200_000), 0, &cfg);
    s.on_frame(&fingers_at(&[1, 2, 3], 500_000, 400_000), 1, &cfg);
    assert_eq!(
        s.on_frame(&Vec::new(), 2, &cfg),
        Some(Swipe { direction: SwipeDirection::Down, fingers: 3 })
    );
    s.on_frame(&fingers_at(&[1, 2, 3], 500_000, 500_000), 3, &cfg);
    s.on_frame(&fingers_at(&[1, 2, 3], 420_000, 500_000), 4, &cfg);
    assert_eq!(s.on_frame(&Vec::new(), 5, &cfg), None);
}

#[test]
fn reset_drops_gesture_under_way() {
    let cfg = config();
    let mut s = GestureState::new();
    s.on_frame(&fingers_at(&[1, 2, 3], 200_000, 500_000), 0, &cfg);
    s.on_frame(&fingers_at(&[1, 2, 3], 800_000, 500_000), 1, &cfg);
    s.reset();
    assert_eq!(s.on_frame(&Vec::new(), 2, &cfg), None);
}

#[test]
fn light_touches_do_not_count() {
    let cfg = Config { min_pressure: 300_000, ..config() };
    let mut s = GestureState::new();
    let light = |x: i32| -> Vec<Contact> {
        (1..=3).map(|id| Contact { finger_id: id, x, y: 500_000, pressure: 100_000 }).collect()
    };
    assert_eq!(s.handle_touches(&light(200_000), 0, &cfg), None);
    assert_eq!(s.handle_touches(&light(800_000), 1, &cfg), None);
    assert_eq!(s.handle_touches(&Vec::new(), 2, &cfg), None);

    let mut t = GestureState::new();
    assert_eq!(t.handle_touches(&fingers_at(&[1, 2, 3], 200_000, 500_000), 0, &cfg), None);
    assert_eq!(t.handle_touches(&fingers_at(&[1, 2, 3], 800_000, 500_000), 1, &cfg), None);
    assert_eq!(
        t.handle_touches(&Vec::new(), 2, &cfg),
        Some(Swipe { direction: SwipeDirection::Right, fingers: 3 })
    );
}
