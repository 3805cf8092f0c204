use indoor_sensors::window::RollingWindow;

#[test]
fn new_window_is_empty() {
    let w = RollingWindow::new(60);
    assert_eq!(w.len(), 0);
    assert!(w.is_empty());
    assert_eq!(w.capacity(), 60);
    assert_eq!(w.mean(), None);
    assert!(w.samples().is_empty());
}

#[test]
fn samples_are_held_newest_first() {
    let mut w = RollingWindow::new(5);
    w.push(10);
    w.push(20);
    w.push(30);
    assert_eq!(w.samples(), vec![30, 20, 10]);
    assert_eq!(w.len(), 3);
    assert!(!w.is_empty());
}

#[test]
fn one_push_too_many_evicts_the_oldest() {
    let capacity: usize = 60;
    let mut w = RollingWindow::new(capacity);
    let mut n: u32 = 0;
    while n <= capacity as u32 {
        w.push(1000 + n);
        n += 1;
    }
    assert_eq!(w.len(), capacity);
    let held = w.samples();
    let expected: Vec<u32> = (1..=capacity as u32).rev().map(|i| 1000 + i).collect();
    assert_eq!(held, expected);
    assert!(!held.contains(&1000));
}

#[test]
fn mean_is_that_of_the_samples_held_only() {
    let mut w = RollingWindow::new(3);
    w.push(1_000_000);
    w.push(1);
    w.push(2);
    w.push(3);
    assert_eq!(w.samples(), vec![3, 2, 1]);
    assert_eq!(w.mean(), Some(2));
}

#[test]
fn mean_is_rounded_down() {
    let mut w = RollingWindow::new(4);
    w.push(1);
    w.push(2);
    assert_eq!(w.mean(), Some(1));
    w.push(4);
    assert_eq!(w.mean(), Some(2));
    w.push(4);
    assert_eq!(w.mean(), Some(2));
}

#[test]
fn mean_of_the_largest_samples_does_not_overflow() {
    let mut w = RollingWindow::new(60);
    let mut n: u32 = 0;
    while n < 60 {
        w.push(u32::MAX);
        n += 1;
    }
    assert_eq!(w.mean(), Some(u32::MAX));
}

#[test]
fn window_of_one_holds_the_latest_sample() {
    let mut w = RollingWindow::new(1);
    w.push(5);
    w.push(9);
    assert_eq!(w.samples(), vec![9]);
    assert_eq!(w.mean(), Some(9));
}

#[test]
fn window_without_room_holds_nothing() {
    let mut w = RollingWindow::new(0);
    w.push(5);
    assert!(w.is_empty());
    assert_eq!(w.mean(), None);
}

#[test]
fn many_pushes_leave_the_most_recent() {
    let mut w = RollingWindow::new(30);
    let mut n: u32 = 0;
    while n < 1000 {
        w.push(n);
        n += 1;
    }
    let expected: Vec<u32> = (970..1000).rev().collect();
    assert_eq!(w.samples(), expected);
    assert_eq!(w.mean(), Some((970 + 999) / 2));
}

#[test]
fn window_holds_samples_of_any_kind() {
    let mut w: RollingWindow<(u16, u16)> = RollingWindow::new(2);
    w.push((1, 10));
    w.push((2, 20));
    w.push((3, 30));
    assert_eq!(w.samples(), vec![(3, 30), (2, 20)]);
    assert_eq!(w.len(), 2);
    assert_eq!(w.capacity(), 2);
}
