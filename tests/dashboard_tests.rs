use motion_tui::app::{elapsed, App, TICK_PERIOD_US};
use motion_tui::dashboard::{dashboard, gauge_ratio, series, value_on, Axis, GAUGE_FULL};
use motion_tui::history::{History, HISTORY_CAPACITY};
use motion_tui::reading::AccelReading;
use motion_tui::terminal::{TerminalMode, TerminalSession};
use std::sync::mpsc;

fn reading(x: i32, y: i32, z: i32, timestamp: u64) -> AccelReading {
    AccelReading { x, y, z, timestamp }
}

#[test]
fn history_keeps_last_capacity_readings() {
    let mut h = History::new(3);
    let all: Vec<AccelReading> = (0..10).map(|i| reading(i, -i, 2 * i, i as u64)).collect();
    for r in &all {
        h.push(*r);
    }
    assert_eq!(h.to_vec(), all[7..].to_vec());
}

#[test]
fn history_below_capacity_keeps_all() {
    let mut h = History::new(5);
    h.push(reading(1, 1, 1, 1));
    h.push(reading(2, 2, 2, 2));
    assert_eq!(h.to_vec(), vec![reading(1, 1, 1, 1), reading(2, 2, 2, 2)]);
}

#[test]
fn push_all_equals_single_pushes() {
    let batch: Vec<AccelReading> = (0..7).map(|i| reading(i, i, i, i as u64)).collect();
    let mut a = History::new(4);
    a.push_all(&batch);
    let mut b = History::new(4);
    for r in &batch {
        b.push(*r);
    }
    assert_eq!(a.to_vec(), b.to_vec());
    assert_eq!(a.to_vec(), batch[3..].to_vec());
}

#[test]
fn latest_after_one_push() {
    let mut h = History::new(HISTORY_CAPACITY);
    let r = reading(5, -6, 7, 42);
    h.push(r);
    assert_eq!(h.latest(1000), r);
}

#[test]
fn latest_of_empty_is_zero_reading() {
    let h = History::new(HISTORY_CAPACITY);
    assert_eq!(h.latest(77), reading(0, 0, 0, 77));
    assert_eq!(h.origin(77), 77);
    assert!(h.to_vec().is_empty());
}

#[test]
fn receive_all_on_empty_channel_is_empty() {
    let (_tx, rx) = mpsc::channel::<AccelReading>();
    let app = App::new(rx);
    assert!(app.try_receive_all().is_empty());
}

#[test]
fn receive_all_returns_sends_in_order_once() {
    let (tx, rx) = mpsc::channel();
    let sent: Vec<AccelReading> = (0..5).map(|i| reading(i, i + 1, i + 2, 10 * i as u64)).collect();
    for r in &sent {
        tx.send(*r).unwrap();
    }
    let app = App::new(rx);
    assert_eq!(app.try_receive_all(), sent);
    assert!(app.try_receive_all().is_empty());
}

#[test]
fn gauge_normalization_points() {
    assert_eq!(gauge_ratio(-20000), 0);
    assert_eq!(gauge_ratio(20000), GAUGE_FULL);
    assert_eq!(gauge_ratio(60000), GAUGE_FULL);
    assert_eq!(gauge_ratio(0), 500000);
    assert_eq!(gauge_ratio(-60000), 0);
    assert_eq!(gauge_ratio(10000), 750000);
    assert_eq!(gauge_ratio(i32::MAX), GAUGE_FULL);
    assert_eq!(gauge_ratio(i32::MIN), 0);
}

#[test]
fn drain_with_capacity_two() {
    let (tx, rx) = mpsc::channel();
    let t0 = 1_000_000u64;
    let t1 = t0 + 40_000;
    let t2 = t1 + 40_000;
    tx.send(reading(1, 2, 3, t0)).unwrap();
    tx.send(reading(4, 5, 6, t1)).unwrap();
    tx.send(reading(7, 8, 9, t2)).unwrap();
    let mut app = App::with_capacity(rx, 2);
    app.update();
    let h = app.readings();
    assert_eq!(h.to_vec(), vec![reading(4, 5, 6, t1), reading(7, 8, 9, t2)]);
    assert_eq!(h.latest(t2 + 1), reading(7, 8, 9, t2));
    assert_eq!(h.origin(t2 + 1), t1);
    let d = dashboard(h, t2 + 1);
    assert_eq!(d.x_series, vec![(0, 4), (40_000, 7)]);
    assert_eq!(d.y_series, vec![(0, 5), (40_000, 8)]);
    assert_eq!(d.z_series, vec![(0, 6), (40_000, 9)]);
}

#[test]
fn dashboard_of_empty_history() {
    let h = History::new(HISTORY_CAPACITY);
    let d = dashboard(&h, 5);
    assert_eq!((d.x_gauge, d.y_gauge, d.z_gauge), (500000, 500000, 500000));
    assert!(d.x_series.is_empty() && d.y_series.is_empty() && d.z_series.is_empty());
}

#[test]
fn dashboard_gauges_follow_latest() {
    let mut h = History::new(HISTORY_CAPACITY);
    h.push(reading(0, 0, 0, 1));
    h.push(reading(-20000, 20000, 30000, 2));
    let d = dashboard(&h, 3);
    assert_eq!((d.x_gauge, d.y_gauge, d.z_gauge), (0, GAUGE_FULL, GAUGE_FULL));
}

#[test]
fn series_clamps_earlier_timestamps_to_zero() {
    let items = vec![reading(1, 2, 3, 100), reading(4, 5, 6, 50), reading(7, 8, 9, 250)];
    assert_eq!(series(&items, Axis::Y, 100), vec![(0, 2), (0, 5), (150, 8)]);
    assert_eq!(value_on(&items[2], Axis::Z), 9);
}

#[test]
fn elapsed_saturates() {
    assert_eq!(elapsed(10, 25), 15);
    assert_eq!(elapsed(25, 10), 0);
}

#[test]
fn poll_timeout_counts_down_to_zero() {
    let (_tx, rx) = mpsc::channel();
    let mut app = App::new(rx);
    app.start_ticks(1000);
    assert_eq!(app.poll_timeout(1000), TICK_PERIOD_US);
    assert_eq!(app.poll_timeout(11_000), TICK_PERIOD_US - 10_000);
    assert_eq!(app.poll_timeout(1000 + TICK_PERIOD_US), 0);
    assert_eq!(app.poll_timeout(500_000), 0);
    assert_eq!(app.poll_timeout(0), TICK_PERIOD_US);
}

#[test]
fn step_drains_only_when_tick_is_over() {
    let (tx, rx) = mpsc::channel();
    let mut app = App::new(rx);
    app.start_ticks(0);
    tx.send(reading(1, 1, 1, 5)).unwrap();
    assert!(!app.step(None, 10_000));
    assert!(app.readings().to_vec().is_empty());
    assert!(!app.step(Some('x'), TICK_PERIOD_US));
    assert_eq!(app.readings().to_vec(), vec![reading(1, 1, 1, 5)]);
    assert_eq!(app.poll_timeout(TICK_PERIOD_US), TICK_PERIOD_US);
}

#[test]
fn quit_key_ends_loop() {
    let (_tx, rx) = mpsc::channel();
    let mut app = App::new(rx);
    app.start_ticks(0);
    assert!(!app.should_quit());
    assert!(app.step(Some('q'), 1));
    assert!(app.should_quit());
    assert!(app.step(None, 2));
}

#[test]
fn terminal_released_exactly_once() {
    let mut s = TerminalSession::new();
    s.acquired(TerminalMode::RawInput);
    s.acquired(TerminalMode::AlternateScreen);
    s.acquired(TerminalMode::MouseCapture);
    assert_eq!(
        s.release(),
        vec![TerminalMode::RawInput, TerminalMode::AlternateScreen, TerminalMode::MouseCapture]
    );
    assert!(s.release().is_empty());
    assert!(!s.is_held(TerminalMode::RawInput));
}

#[test]
fn terminal_partial_acquisition_released() {
    let mut s = TerminalSession::new();
    assert!(s.release().is_empty());
    s.acquired(TerminalMode::RawInput);
    assert!(s.is_held(TerminalMode::RawInput));
    assert_eq!(s.release(), vec![TerminalMode::RawInput]);
    assert!(s.release().is_empty());
}

#[test]
fn drains_split_any_way_keep_last() {
    let sent: Vec<AccelReading> = (0..9).map(|i| reading(i, i, i, i as u64)).collect();
    for splits in [vec![9], vec![1, 8], vec![4, 0, 5], vec![2, 2, 2, 3]] {
        let (tx, rx) = mpsc::channel();
        let mut app = App::with_capacity(rx, 4);
        let mut next = 0;
        for n in splits {
            for r in &sent[next..next + n] {
                tx.send(*r).unwrap();
            }
            next += n;
            app.update();
        }
        assert_eq!(app.readings().to_vec(), sent[5..].to_vec());
    }
}

#[test]
fn empty_drain_leaves_history_unchanged() {
    let (tx, rx) = mpsc::channel();
    let mut app = App::new(rx);
    tx.send(reading(1, 2, 3, 4)).unwrap();
    app.update();
    app.update();
    app.ingest(&Vec::new());
    assert_eq!(app.readings().to_vec(), vec![reading(1, 2, 3, 4)]);
}
