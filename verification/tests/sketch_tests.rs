use touch_sketch::geom::{Point, Rectangle};
use touch_sketch::input::{
    parse_device_events, ButtonCode, ButtonStatus, DeviceEvent, FingerStatus, InputEvent,
    Timestamp, ABS_MT_POSITION_X, ABS_MT_POSITION_Y, ABS_MT_TOUCH_MAJOR, ABS_MT_TRACKING_ID,
    EV_ABS, EV_SYN, SYN_MT_REPORT,
};
use touch_sketch::sketch::{
    drawing_file_name, Action, Mode, Sketch, TouchState, BLANK, INK, INVERSE_INTERVAL,
    MICROS_PER_SECOND, REFRESH_RATE,
};

const DIMS: (u32, u32) = (600, 800);

fn at(usec: i64) -> Timestamp {
    Timestamp::new(usec / 1_000_000, usec % 1_000_000)
}

fn finger(usec: i64, id: i32, status: FingerStatus, x: i64, y: i64) -> DeviceEvent {
    DeviceEvent::Finger { time: at(usec), id, status, position: Point::new(x, y) }
}

fn button(usec: i64, status: ButtonStatus) -> DeviceEvent {
    DeviceEvent::Button { time: at(usec), code: ButtonCode::Power, status }
}

fn line(x0: i64, y0: i64, x1: i64, y1: i64) -> Action {
    Action::DrawLine { from: Point::new(x0, y0), to: Point::new(x1, y1), color: INK }
}

fn fast(x0: i64, y0: i64, x1: i64, y1: i64) -> Action {
    Action::Refresh {
        rect: Rectangle::new(Point::new(x0, y0), Point::new(x1, y1)),
        mode: Mode::Fast,
    }
}

fn full() -> Action {
    Action::Refresh {
        rect: Rectangle::new(Point::new(0, 0), Point::new(599, 799)),
        mode: Mode::Full,
    }
}

fn clearing() -> Vec<Action> {
    vec![Action::Fill { color: BLANK }, full(), Action::Wait]
}

fn count(actions: &[Action], wanted: fn(&Action) -> bool) -> usize {
    actions.iter().filter(|a| wanted(a)).count()
}

fn is_refresh(a: &Action) -> bool {
    matches!(a, Action::Refresh { .. })
}

fn is_persist(a: &Action) -> bool {
    matches!(a, Action::Persist)
}

#[test]
fn constants_of_the_loop() {
    assert_eq!(REFRESH_RATE, 60);
    assert_eq!(MICROS_PER_SECOND, 1_000_000);
    assert_eq!(INVERSE_INTERVAL, 2_000_000);
    assert_eq!(INK, 0x00);
    assert_eq!(BLANK, 0xff);
}

#[test]
fn touch_state_is_made_without_a_time() {
    let p = Point::new(3, 4);
    let ts = TouchState::new(p, Rectangle::from_point(&p));
    assert_eq!(ts.pt, p);
    assert_eq!(ts.rect, Rectangle::new(p, p));
    assert_eq!(ts.last_update_time, Timestamp::new(0, 0));
}

#[test]
fn new_loop_has_seen_nothing() {
    let s = Sketch::new(DIMS);
    assert_eq!(s.dims(), DIMS);
    assert!(!s.has_drawn());
    assert_eq!(s.last_pressed_time(), Timestamp::new(0, 0));
    assert_eq!(s.touch_count(), 0);
    assert_eq!(s.touch(0), None);
}

#[test]
fn clear_blanks_and_refreshes_the_whole_surface() {
    let mut s = Sketch::new(DIMS);
    s.handle(&finger(1, 0, FingerStatus::Down, 1, 1));
    s.handle(&finger(2, 0, FingerStatus::Up, 1, 1));
    assert!(s.has_drawn());
    assert_eq!(s.clear(), clearing());
    assert!(!s.has_drawn());
}

#[test]
fn clear_keeps_the_fingers_that_are_down() {
    let mut s = Sketch::new(DIMS);
    s.handle(&finger(1, 5, FingerStatus::Down, 1, 1));
    s.clear();
    assert_eq!(s.touch_count(), 1);
    assert!(s.touch(5).is_some());
}

#[test]
fn down_anchors_a_finger_with_a_rectangle_of_one_point() {
    let mut s = Sketch::new(DIMS);
    let r = s.handle(&finger(5_000_000, 3, FingerStatus::Down, 10, 20));
    assert_eq!(r.actions, vec![]);
    assert!(!r.quit);
    let p = Point::new(10, 20);
    assert_eq!(
        s.touch(3),
        Some(TouchState { pt: p, rect: Rectangle::new(p, p), last_update_time: at(5_000_000) })
    );
    assert!(!s.has_drawn());
}

#[test]
fn down_again_starts_the_finger_anew() {
    let mut s = Sketch::new(DIMS);
    s.handle(&finger(1, 3, FingerStatus::Down, 10, 20));
    s.handle(&finger(2, 3, FingerStatus::Motion, 30, 40));
    s.handle(&finger(3, 3, FingerStatus::Down, 50, 60));
    let p = Point::new(50, 60);
    assert_eq!(
        s.touch(3),
        Some(TouchState { pt: p, rect: Rectangle::from_point(&p), last_update_time: at(3) })
    );
    assert_eq!(s.touch_count(), 1);
}

#[test]
fn motion_within_the_interval_draws_and_grows_the_damage() {
    let mut s = Sketch::new(DIMS);
    s.handle(&finger(100_000_000, 0, FingerStatus::Down, 10, 10));
    let r = s.handle(&finger(100_005_000, 0, FingerStatus::Motion, 10, 40));
    assert_eq!(r.actions, vec![line(10, 10, 10, 40)]);
    assert!(!r.quit);
    assert_eq!(
        s.touch(0),
        Some(TouchState {
            pt: Point::new(10, 40),
            rect: Rectangle::new(Point::new(10, 10), Point::new(10, 40)),
            last_update_time: at(100_000_000),
        })
    );
    let r = s.handle(&finger(100_012_000, 0, FingerStatus::Motion, 5, 20));
    assert_eq!(r.actions, vec![line(10, 40, 5, 20)]);
    assert_eq!(
        s.touch(0).map(|ts| ts.rect),
        Some(Rectangle::new(Point::new(5, 10), Point::new(10, 40)))
    );
}

#[test]
fn first_motion_counts_from_the_touch() {
    let mut s = Sketch::new(DIMS);
    s.handle(&finger(100_000_000, 0, FingerStatus::Down, 10, 10));
    let r = s.handle(&finger(100_016_666, 0, FingerStatus::Motion, 10, 40));
    assert_eq!(r.actions, vec![line(10, 10, 10, 40)]);
    let mut s = Sketch::new(DIMS);
    s.handle(&finger(100_000_000, 0, FingerStatus::Down, 10, 10));
    let r = s.handle(&finger(100_016_667, 0, FingerStatus::Motion, 10, 40));
    assert_eq!(r.actions, vec![line(10, 10, 10, 40), fast(10, 10, 10, 40)]);
}

#[test]
fn motion_beyond_the_interval_refreshes_the_damage() {
    let mut s = Sketch::new(DIMS);
    s.handle(&finger(100_000_000, 0, FingerStatus::Down, 10, 10));
    let r = s.handle(&finger(100_020_000, 0, FingerStatus::Motion, 10, 40));
    assert_eq!(r.actions, vec![line(10, 10, 10, 40), fast(10, 10, 10, 40)]);
    assert_eq!(
        s.touch(0),
        Some(TouchState {
            pt: Point::new(10, 40),
            rect: Rectangle::new(Point::new(10, 40), Point::new(10, 40)),
            last_update_time: at(100_020_000),
        })
    );
    let r = s.handle(&finger(100_030_000, 0, FingerStatus::Motion, 20, 50));
    assert_eq!(r.actions, vec![line(10, 40, 20, 50)]);
    let r = s.handle(&finger(100_050_000, 0, FingerStatus::Motion, 0, 45));
    assert_eq!(r.actions, vec![line(20, 50, 0, 45), fast(0, 40, 20, 50)]);
    assert_eq!(s.touch(0).map(|ts| ts.last_update_time), Some(at(100_050_000)));
}

#[test]
fn refresh_interval_is_a_sixtieth_of_a_second() {
    for (gap, due) in [(0, false), (16_666, false), (16_667, true), (1_000_000, true)] {
        let mut s = Sketch::new(DIMS);
        s.handle(&finger(100_000_000, 0, FingerStatus::Down, 0, 0));
        let r = s.handle(&finger(100_000_000 + gap, 0, FingerStatus::Motion, 1, 1));
        assert_eq!(count(&r.actions, is_refresh) == 1, due, "gap {}", gap);
        assert_eq!(r.actions.len(), if due { 2 } else { 1 });
    }
}

#[test]
fn refresh_interval_counts_in_both_directions() {
    let mut s = Sketch::new(DIMS);
    s.handle(&finger(100_000_000, 0, FingerStatus::Down, 0, 0));
    let r = s.handle(&finger(99_000_000, 0, FingerStatus::Motion, 1, 1));
    assert_eq!(r.actions, vec![line(0, 0, 1, 1), fast(0, 0, 1, 1)]);
    assert_eq!(s.touch(0).map(|ts| ts.last_update_time), Some(Timestamp::new(99, 0)));
    let r = s.handle(&finger(98_990_000, 0, FingerStatus::Motion, 2, 2));
    assert_eq!(r.actions, vec![line(1, 1, 2, 2)]);
}

#[test]
fn motion_of_an_unknown_finger_is_ignored() {
    let mut s = Sketch::new(DIMS);
    let r = s.handle(&finger(1, 9, FingerStatus::Motion, 10, 40));
    assert_eq!(r.actions, vec![]);
    assert!(!r.quit);
    assert_eq!(s.touch_count(), 0);
    assert!(!s.has_drawn());
}

#[test]
fn up_draws_the_last_segment_and_refreshes_the_damage() {
    let mut s = Sketch::new(DIMS);
    s.handle(&finger(100_000_000, 0, FingerStatus::Down, 10, 10));
    s.handle(&finger(100_002_000, 0, FingerStatus::Motion, 10, 40));
    let r = s.handle(&finger(100_003_000, 0, FingerStatus::Up, 15, 45));
    assert_eq!(r.actions, vec![line(10, 40, 15, 45), fast(10, 10, 10, 40)]);
    assert!(!r.quit);
    assert!(s.has_drawn());
    assert_eq!(s.touch(0), None);
    assert_eq!(s.touch_count(), 0);
}

#[test]
fn up_of_an_unknown_finger_is_ignored() {
    let mut s = Sketch::new(DIMS);
    let r = s.handle(&finger(1, 9, FingerStatus::Up, 10, 40));
    assert_eq!(r.actions, vec![]);
    assert!(!r.quit);
    assert!(!s.has_drawn());
}

#[test]
fn fingers_keep_their_own_damage() {
    let mut s = Sketch::new(DIMS);
    s.handle(&finger(1, 0, FingerStatus::Down, 0, 0));
    s.handle(&finger(2, 1, FingerStatus::Down, 100, 100));
    s.handle(&finger(3, 0, FingerStatus::Motion, 5, 5));
    s.handle(&finger(4, 1, FingerStatus::Motion, 90, 110));
    assert_eq!(s.touch_count(), 2);
    let r = s.handle(&finger(5, 1, FingerStatus::Up, 90, 110));
    assert_eq!(r.actions, vec![line(90, 110, 90, 110), fast(90, 100, 100, 110)]);
    let r = s.handle(&finger(6, 0, FingerStatus::Up, 5, 5));
    assert_eq!(r.actions, vec![line(5, 5, 5, 5), fast(0, 0, 5, 5)]);
}

#[test]
fn stroke_within_the_interval_refreshes_once() {
    let mut s = Sketch::new(DIMS);
    let events = vec![
        finger(100_000_000, 0, FingerStatus::Down, 10, 10),
        finger(100_005_000, 0, FingerStatus::Motion, 10, 40),
        finger(100_010_000, 0, FingerStatus::Up, 10, 40),
    ];
    let r = s.run(&events);
    let mut expected = clearing();
    expected.extend(vec![line(10, 10, 10, 40), line(10, 40, 10, 40), fast(10, 10, 10, 40)]);
    assert_eq!(r.actions, expected);
    assert!(!r.quit);
    assert_eq!(count(&r.actions[3..], is_refresh), 1);
    assert!(s.has_drawn());
}

#[test]
fn stroke_from_raw_records_refreshes_once() {
    let abs = |code, value| InputEvent { time: at(0), kind: EV_ABS, code, value };
    let sync =
        |usec| InputEvent { time: at(usec), kind: EV_SYN, code: SYN_MT_REPORT, value: 0 };
    let records = vec![
        abs(ABS_MT_TRACKING_ID, 0),
        abs(ABS_MT_TOUCH_MAJOR, 10),
        abs(ABS_MT_POSITION_X, 789),
        abs(ABS_MT_POSITION_Y, 10),
        sync(100_000_000),
        abs(ABS_MT_POSITION_X, 759),
        sync(100_005_000),
        sync(100_007_000),
        abs(ABS_MT_TOUCH_MAJOR, 0),
        sync(100_010_000),
    ];
    let events = parse_device_events(&records, DIMS);
    assert_eq!(
        events,
        vec![
            finger(100_000_000, 0, FingerStatus::Down, 10, 10),
            finger(100_005_000, 0, FingerStatus::Motion, 10, 40),
            finger(100_010_000, 0, FingerStatus::Up, 10, 40),
        ]
    );
    let mut s = Sketch::new(DIMS);
    let r = s.run(&events);
    let refreshes: Vec<Action> =
        r.actions[3..].iter().copied().filter(is_refresh).collect();
    assert_eq!(refreshes, vec![fast(10, 10, 10, 40)]);
}

#[test]
fn slow_stroke_refreshes_at_the_motion_and_at_the_lift() {
    let mut s = Sketch::new(DIMS);
    let events = vec![
        finger(100_000_000, 0, FingerStatus::Down, 10, 10),
        finger(100_050_000, 0, FingerStatus::Motion, 10, 40),
        finger(100_060_000, 0, FingerStatus::Up, 10, 40),
    ];
    let r = s.run(&events);
    let mut expected = clearing();
    expected.extend(vec![
        line(10, 10, 10, 40),
        fast(10, 10, 10, 40),
        line(10, 40, 10, 40),
        fast(10, 40, 10, 40),
    ]);
    assert_eq!(r.actions, expected);
}

#[test]
fn tap_without_drawing_ends_the_loop() {
    let mut s = Sketch::new(DIMS);
    let events = vec![
        button(0, ButtonStatus::Pressed),
        button(200_000, ButtonStatus::Released),
        finger(300_000, 0, FingerStatus::Down, 1, 1),
        finger(400_000, 0, FingerStatus::Up, 1, 1),
        button(5_000_000, ButtonStatus::Pressed),
        button(9_000_000, ButtonStatus::Released),
    ];
    let r = s.run(&events);
    assert!(r.quit);
    assert_eq!(r.actions, clearing());
    assert_eq!(count(&r.actions, is_persist), 0);
    assert!(!s.has_drawn());
    assert_eq!(s.touch_count(), 0);
    assert_eq!(s.last_pressed_time(), at(0));
}

#[test]
fn tap_without_drawing_asks_for_nothing() {
    let mut s = Sketch::new(DIMS);
    let r = s.handle(&button(0, ButtonStatus::Pressed));
    assert_eq!(r.actions, vec![]);
    assert!(!r.quit);
    let r = s.handle(&button(200_000, ButtonStatus::Released));
    assert_eq!(r.actions, vec![]);
    assert!(r.quit);
}

#[test]
fn tap_after_drawing_saves_and_clears() {
    let mut s = Sketch::new(DIMS);
    s.handle(&finger(1, 0, FingerStatus::Down, 1, 1));
    s.handle(&finger(2, 0, FingerStatus::Up, 1, 1));
    assert!(s.has_drawn());
    s.handle(&button(0, ButtonStatus::Pressed));
    let r = s.handle(&button(200_000, ButtonStatus::Released));
    let mut expected = vec![Action::Persist];
    expected.extend(clearing());
    assert_eq!(r.actions, expected);
    assert_eq!(count(&r.actions, is_persist), 1);
    assert!(!r.quit);
    assert!(!s.has_drawn());
}

#[test]
fn second_tap_after_saving_ends_the_loop() {
    let mut s = Sketch::new(DIMS);
    let events = vec![
        finger(1, 0, FingerStatus::Down, 1, 1),
        finger(2, 0, FingerStatus::Up, 1, 1),
        button(1_000_000, ButtonStatus::Pressed),
        button(1_200_000, ButtonStatus::Released),
        button(2_000_000, ButtonStatus::Pressed),
        button(2_200_000, ButtonStatus::Released),
        button(3_000_000, ButtonStatus::Pressed),
    ];
    let r = s.run(&events);
    assert!(r.quit);
    assert_eq!(count(&r.actions, is_persist), 1);
    assert_eq!(s.last_pressed_time(), at(2_000_000));
}

#[test]
fn held_press_inverts_and_waits_for_a_full_refresh() {
    let mut s = Sketch::new(DIMS);
    s.handle(&button(0, ButtonStatus::Pressed));
    let r = s.handle(&button(3_000_000, ButtonStatus::Released));
    assert_eq!(r.actions, vec![Action::Invert, full(), Action::Wait]);
    assert_eq!(count(&r.actions, is_persist), 0);
    assert!(!r.quit);
    assert!(!s.has_drawn());
}

#[test]
fn held_press_after_drawing_keeps_the_drawing() {
    let mut s = Sketch::new(DIMS);
    s.handle(&finger(1, 0, FingerStatus::Down, 1, 1));
    s.handle(&finger(2, 0, FingerStatus::Up, 1, 1));
    s.handle(&button(0, ButtonStatus::Pressed));
    let r = s.handle(&button(3_000_000, ButtonStatus::Released));
    assert_eq!(r.actions, vec![Action::Invert, full(), Action::Wait]);
    assert!(s.has_drawn());
}

#[test]
fn debounce_window_is_two_seconds() {
    for (gap, tap) in [(0, true), (1_999_999, true), (2_000_000, false), (2_000_001, false)] {
        let mut s = Sketch::new(DIMS);
        s.handle(&button(7_000_000, ButtonStatus::Pressed));
        let r = s.handle(&button(7_000_000 + gap, ButtonStatus::Released));
        assert_eq!(r.quit, tap, "gap {}", gap);
        assert_eq!(r.actions.len(), if tap { 0 } else { 3 });
    }
}

#[test]
fn release_without_a_press_counts_from_time_zero() {
    let mut s = Sketch::new(DIMS);
    let r = s.handle(&button(1_000_000, ButtonStatus::Released));
    assert!(r.quit);
    let mut s = Sketch::new(DIMS);
    let r = s.handle(&button(2_500_000, ButtonStatus::Released));
    assert!(!r.quit);
    assert_eq!(r.actions, vec![Action::Invert, full(), Action::Wait]);
}

#[test]
fn press_records_its_time() {
    let mut s = Sketch::new(DIMS);
    let r = s.handle(&button(4_200_000, ButtonStatus::Pressed));
    assert_eq!(r.actions, vec![]);
    assert!(!r.quit);
    assert_eq!(s.last_pressed_time(), Timestamp::new(4, 200_000));
}

#[test]
fn run_without_events_only_clears() {
    let mut s = Sketch::new(DIMS);
    let r = s.run(&[]);
    assert_eq!(r.actions, clearing());
    assert!(!r.quit);
}

#[test]
fn run_agrees_with_handling_one_by_one() {
    let events = vec![
        finger(1_000, 0, FingerStatus::Down, 10, 10),
        finger(20_000, 0, FingerStatus::Motion, 10, 40),
        finger(25_000, 1, FingerStatus::Down, 100, 100),
        finger(50_000, 0, FingerStatus::Motion, 30, 40),
        finger(60_000, 0, FingerStatus::Up, 30, 41),
        button(1_000_000, ButtonStatus::Pressed),
        button(4_000_000, ButtonStatus::Released),
        button(5_000_000, ButtonStatus::Pressed),
        button(5_100_000, ButtonStatus::Released),
        finger(6_000_000, 1, FingerStatus::Up, 101, 101),
    ];
    let mut a = Sketch::new(DIMS);
    let whole = a.run(&events);
    let mut b = Sketch::new(DIMS);
    let mut actions = b.clear();
    let mut quit = false;
    for e in &events {
        let r = b.handle(e);
        actions.extend(r.actions);
        quit = r.quit;
        if quit {
            break;
        }
    }
    assert_eq!(whole.actions, actions);
    assert_eq!(whole.quit, quit);
    assert!(!quit);
    assert_eq!(a.has_drawn(), b.has_drawn());
    assert!(a.has_drawn());
    assert_eq!(a.touch_count(), 0);
    assert_eq!(count(&whole.actions, is_persist), 1);
}

#[test]
fn drawing_file_name_wraps_the_stamp() {
    assert_eq!(drawing_file_name("20240102_030405"), "drawing-20240102_030405.png");
    assert_eq!(drawing_file_name(""), "drawing-.png");
}

#[test]
fn save_names_a_stamped_image() {
    let s = Sketch::new(DIMS);
    let name = s.save();
    assert!(name.starts_with("drawing-"));
    assert!(name.ends_with(".png"));
    let stamp: Vec<char> = name["drawing-".len()..name.len() - ".png".len()].chars().collect();
    assert!(stamp.len() >= 15);
    let tail = &stamp[stamp.len() - 15..];
    for (i, c) in tail.iter().enumerate() {
        if i == 8 {
            assert_eq!(*c, '_');
        } else {
            assert!(c.is_ascii_digit());
        }
    }
    let number = |from: usize, to: usize| -> u32 {
        tail[from..to].iter().collect::<String>().parse().unwrap()
    };
    assert!((1..=12).contains(&number(4, 6)));
    assert!((1..=31).contains(&number(6, 8)));
    assert!(number(9, 11) <= 23);
    assert!(number(11, 13) <= 59);
    assert!(number(13, 15) <= 60);
}
