use catfood_bar::reload::{arbitrate, is_quit_key, EventKind, FileEvent, Key, ReloadCoordinator, ReloadSignal, Step};

const PATH: &str = "/home/me/.config/catfood/bar.json";

fn event(kind: EventKind, path: &str) -> FileEvent {
    FileEvent { kind, path: Some(path.to_string()) }
}

fn coordinator() -> ReloadCoordinator {
    ReloadCoordinator::new(PATH.to_string(), 200)
}

#[test]
fn two_events_within_the_window_give_one_reload() {
    let mut coordinator = coordinator();
    let mut requests = 0;
    coordinator.observe(&event(EventKind::Modify, PATH), 1000);
    if coordinator.poll(1050) {
        requests += 1;
    }
    coordinator.observe(&event(EventKind::Modify, PATH), 1100);
    for now in [1150, 1199, 1250, 1299, 1300, 1301, 1500, 5000] {
        if coordinator.poll(now) {
            requests += 1;
        }
    }
    assert_eq!(requests, 1);
}

#[test]
fn the_request_goes_out_when_the_window_has_gone_by() {
    let mut coordinator = coordinator();
    assert_eq!(coordinator.deadline(), None);
    assert!(!coordinator.poll(0));
    coordinator.observe(&event(EventKind::Create, PATH), 1000);
    assert_eq!(coordinator.deadline(), Some(1200));
    assert!(!coordinator.poll(1199));
    assert!(!coordinator.poll(999));
    assert!(coordinator.poll(1200));
    assert_eq!(coordinator.deadline(), None);
    assert!(!coordinator.poll(1200));
    assert!(!coordinator.poll(9999));
}

#[test]
fn two_bursts_give_two_reloads() {
    let mut coordinator = coordinator();
    coordinator.observe(&event(EventKind::Modify, PATH), 0);
    coordinator.observe(&event(EventKind::Modify, PATH), 10);
    assert!(!coordinator.poll(205));
    assert!(coordinator.poll(210));
    coordinator.observe(&event(EventKind::Modify, PATH), 1000);
    assert!(coordinator.poll(1300));
    assert!(!coordinator.poll(1301));
}

#[test]
fn only_changes_of_the_configuration_file_count() {
    let mut coordinator = coordinator();
    assert!(coordinator.concerns(&event(EventKind::Modify, PATH)));
    assert!(coordinator.concerns(&event(EventKind::Create, PATH)));
    assert!(!coordinator.concerns(&event(EventKind::Remove, PATH)));
    assert!(!coordinator.concerns(&event(EventKind::Access, PATH)));
    assert!(!coordinator.concerns(&event(EventKind::Other, PATH)));
    assert!(!coordinator.concerns(&event(EventKind::Modify, "/home/me/.config/catfood/other.json")));
    assert!(!coordinator.concerns(&FileEvent { kind: EventKind::Modify, path: None }));
    coordinator.observe(&event(EventKind::Remove, PATH), 0);
    coordinator.observe(&event(EventKind::Modify, "/tmp/x"), 0);
    coordinator.observe(&FileEvent { kind: EventKind::Create, path: None }, 0);
    assert_eq!(coordinator.deadline(), None);
    assert!(!coordinator.poll(10_000));
}

#[test]
fn the_deadline_does_not_overflow() {
    let mut coordinator = ReloadCoordinator::new(PATH.to_string(), u64::MAX);
    coordinator.observe(&event(EventKind::Modify, PATH), 5);
    assert_eq!(coordinator.deadline(), Some(u64::MAX));
    assert!(!coordinator.poll(u64::MAX));
    let mut instant = ReloadCoordinator::new(PATH.to_string(), 0);
    instant.observe(&event(EventKind::Modify, PATH), 5);
    assert!(instant.poll(5));
}

#[test]
fn the_signal_drops_what_does_not_fit() {
    let mut signal = ReloadSignal::new(1);
    assert!(!signal.is_pending());
    assert!(!signal.take());
    assert!(signal.offer());
    assert!(signal.is_pending());
    assert!(!signal.offer());
    assert!(signal.take());
    assert!(!signal.take());
    assert!(signal.offer());
    let mut wide = ReloadSignal::new(10);
    for _ in 0..10 {
        assert!(wide.offer());
    }
    assert!(!wide.offer());
    for _ in 0..10 {
        assert!(wide.take());
    }
    assert!(!wide.take());
    let mut none = ReloadSignal::new(0);
    assert!(!none.offer());
    assert!(!none.is_pending());
}

#[test]
fn a_reload_goes_before_a_tick() {
    assert_eq!(arbitrate(true, true), Step::Reload);
    assert_eq!(arbitrate(true, false), Step::Reload);
    assert_eq!(arbitrate(false, true), Step::Tick);
    assert_eq!(arbitrate(false, false), Step::Wait);
}

#[test]
fn quit_keys() {
    assert!(is_quit_key(Key::Esc, false));
    assert!(is_quit_key(Key::Esc, true));
    assert!(is_quit_key(Key::Char('q'), false));
    assert!(is_quit_key(Key::Char('q'), true));
    assert!(is_quit_key(Key::Char('c'), true));
    assert!(is_quit_key(Key::Char('C'), true));
    assert!(!is_quit_key(Key::Char('c'), false));
    assert!(!is_quit_key(Key::Char('Q'), false));
    assert!(!is_quit_key(Key::Char('x'), true));
    assert!(!is_quit_key(Key::Other, true));
}
