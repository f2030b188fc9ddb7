use window_sync::processor::{process, resume, Answer, Effect, Rect};
use window_sync::protocol::{Action, HwndPayload, HwndsPayload, Reply, StatePayload, UpdatePayload};
use window_sync::registry::{offset_coordinate, Placement, Registry, WindowState};

fn rect(left: i32, top: i32) -> Rect {
    Rect { left, top, right: left + 100, bottom: top + 80 }
}

fn add(reg: &mut Registry, hwnd: isize, left: i32, top: i32) -> Option<Reply> {
    match process(reg, Action::Add(HwndPayload { hwnd })) {
        Effect::ReadRect(h) => {
            assert_eq!(h, hwnd);
            match resume(reg, Answer::RectRead(h, Some(rect(left, top)))) {
                Effect::Finished(r) => r,
                other => panic!("unexpected effect {:?}", other),
            }
        }
        Effect::Finished(r) => r,
        other => panic!("unexpected effect {:?}", other),
    }
}

fn snapshot(hwnds: Vec<isize>) -> Option<Reply> {
    Some(Reply::CurrentManagedHwnds(HwndsPayload { hwnds }))
}

fn update(dx: i32, dy: i32) -> Action {
    Action::Update(UpdatePayload { x: dx, y: dy })
}

#[test]
fn new_registry_is_idle_and_empty() {
    let reg = Registry::new();
    assert!(!reg.is_tracking());
    assert_eq!(reg.handles(), Vec::<isize>::new());
}

#[test]
fn start_and_stop_toggle_tracking() {
    let mut reg = Registry::new();
    assert_eq!(process(&mut reg, Action::Start), Effect::Finished(Some(Reply::Started)));
    assert!(reg.is_tracking());
    assert_eq!(process(&mut reg, Action::Stop), Effect::Finished(Some(Reply::Stopped)));
    assert!(!reg.is_tracking());
}

#[test]
fn add_twice_keeps_one_entry() {
    let mut reg = Registry::new();
    assert_eq!(add(&mut reg, 7, 1, 2), snapshot(vec![7]));
    assert_eq!(process(&mut reg, Action::Add(HwndPayload { hwnd: 7 })), Effect::Finished(None));
    assert_eq!(reg.handles(), vec![7]);
}

#[test]
fn add_of_gone_window_changes_nothing() {
    let mut reg = Registry::new();
    assert_eq!(process(&mut reg, Action::Add(HwndPayload { hwnd: 9 })), Effect::ReadRect(9));
    assert_eq!(resume(&mut reg, Answer::RectRead(9, None)), Effect::Finished(None));
    assert_eq!(reg.handles(), Vec::<isize>::new());
}

#[test]
fn capture_adds_window_under_cursor() {
    let mut reg = Registry::new();
    assert_eq!(process(&mut reg, Action::Capture), Effect::LocateCursor);
    assert_eq!(resume(&mut reg, Answer::CursorWindow(Some(42))), Effect::ReadRect(42));
    assert_eq!(resume(&mut reg, Answer::RectRead(42, Some(rect(3, 4)))), Effect::Finished(snapshot(vec![42])));
    assert_eq!(process(&mut reg, Action::Capture), Effect::LocateCursor);
    assert_eq!(resume(&mut reg, Answer::CursorWindow(Some(42))), Effect::Finished(None));
    assert_eq!(process(&mut reg, Action::Capture), Effect::LocateCursor);
    assert_eq!(resume(&mut reg, Answer::CursorWindow(None)), Effect::Finished(None));
    assert_eq!(reg.handles(), vec![42]);
}

#[test]
fn remove_and_remove_all_publish_snapshots() {
    let mut reg = Registry::new();
    add(&mut reg, 1, 0, 0);
    add(&mut reg, 2, 0, 0);
    add(&mut reg, 3, 0, 0);
    assert_eq!(process(&mut reg, Action::Remove(HwndPayload { hwnd: 2 })), Effect::Finished(snapshot(vec![1, 3])));
    assert_eq!(process(&mut reg, Action::Remove(HwndPayload { hwnd: 99 })), Effect::Finished(snapshot(vec![1, 3])));
    assert_eq!(process(&mut reg, Action::RemoveAll), Effect::Finished(snapshot(vec![])));
    assert_eq!(reg.handles(), Vec::<isize>::new());
}

#[test]
fn offsets_are_absolute_not_cumulative() {
    let mut reg = Registry::new();
    process(&mut reg, Action::Start);
    add(&mut reg, 1, 10, 20);
    add(&mut reg, 2, -5, 7);
    assert_eq!(
        process(&mut reg, update(3, 4)),
        Effect::Move(vec![Placement { hwnd: 1, x: 13, y: 24 }, Placement { hwnd: 2, x: -2, y: 11 }])
    );
    assert_eq!(resume(&mut reg, Answer::Moved(vec![])), Effect::Finished(None));
    assert_eq!(
        process(&mut reg, update(-1, 100)),
        Effect::Move(vec![Placement { hwnd: 1, x: 9, y: 120 }, Placement { hwnd: 2, x: -6, y: 107 }])
    );
}

#[test]
fn update_while_idle_does_nothing() {
    let mut reg = Registry::new();
    add(&mut reg, 1, 10, 20);
    assert_eq!(process(&mut reg, update(5, 5)), Effect::Finished(None));
    assert_eq!(reg.handles(), vec![1]);
}

#[test]
fn update_drops_only_gone_windows() {
    let mut reg = Registry::new();
    process(&mut reg, Action::Start);
    add(&mut reg, 0xA, 0, 0);
    add(&mut reg, 0xB, 100, 100);
    assert_eq!(
        process(&mut reg, update(1, 1)),
        Effect::Move(vec![Placement { hwnd: 0xA, x: 1, y: 1 }, Placement { hwnd: 0xB, x: 101, y: 101 }])
    );
    assert_eq!(resume(&mut reg, Answer::Moved(vec![0xB])), Effect::Finished(snapshot(vec![0xA])));
    assert_eq!(reg.handles(), vec![0xA]);
}

#[test]
fn update_failure_of_untracked_handle_publishes_nothing() {
    let mut reg = Registry::new();
    process(&mut reg, Action::Start);
    add(&mut reg, 1, 0, 0);
    assert_eq!(resume(&mut reg, Answer::Moved(vec![5])), Effect::Finished(None));
    assert_eq!(reg.handles(), vec![1]);
}

#[test]
fn commands_apply_in_processing_order() {
    let mut reg = Registry::new();
    process(&mut reg, Action::Start);
    add(&mut reg, 11, 0, 0);
    assert_eq!(process(&mut reg, update(5, 5)), Effect::Move(vec![Placement { hwnd: 11, x: 5, y: 5 }]));
    resume(&mut reg, Answer::Moved(vec![]));
    assert_eq!(process(&mut reg, Action::Remove(HwndPayload { hwnd: 11 })), Effect::Finished(snapshot(vec![])));
    assert!(reg.is_tracking());
    assert_eq!(reg.handles(), Vec::<isize>::new());
}

#[test]
fn refresh_twice_gives_identical_state() {
    let mut reg = Registry::new();
    process(&mut reg, Action::Start);
    add(&mut reg, 4, 1, 1);
    add(&mut reg, 8, 2, 2);
    let first = process(&mut reg, Action::Refresh);
    let second = process(&mut reg, Action::Refresh);
    assert_eq!(first, second);
    assert_eq!(first, Effect::Finished(Some(Reply::State(StatePayload { started: true, hwnds: vec![4, 8] }))));
}

#[test]
fn start_add_update_refresh_scenario() {
    let mut reg = Registry::new();
    process(&mut reg, Action::Start);
    assert_eq!(add(&mut reg, 100, 50, 50), snapshot(vec![100]));
    assert_eq!(process(&mut reg, update(10, -5)), Effect::Move(vec![Placement { hwnd: 100, x: 60, y: 45 }]));
    assert_eq!(resume(&mut reg, Answer::Moved(vec![])), Effect::Finished(None));
    assert_eq!(
        process(&mut reg, Action::Refresh),
        Effect::Finished(Some(Reply::State(StatePayload { started: true, hwnds: vec![100] })))
    );
}

#[test]
fn offsets_saturate_at_coordinate_bounds() {
    assert_eq!(offset_coordinate(50, 10), 60);
    assert_eq!(offset_coordinate(50, -5), 45);
    assert_eq!(offset_coordinate(i32::MAX, 1), i32::MAX);
    assert_eq!(offset_coordinate(i32::MIN, -1), i32::MIN);
    assert_eq!(offset_coordinate(i32::MAX, i32::MIN), -1);
}

#[test]
fn registry_operations() {
    let mut reg = Registry::new();
    assert!(reg.upsert(WindowState { hwnd: 5, init_x: 1, init_y: 2 }));
    assert!(!reg.upsert(WindowState { hwnd: 5, init_x: 9, init_y: 9 }));
    assert!(reg.upsert(WindowState { hwnd: 6, init_x: 3, init_y: 4 }));
    assert!(reg.contains(5));
    assert!(!reg.contains(7));
    assert_eq!(reg.placements(0, 0), vec![Placement { hwnd: 5, x: 1, y: 2 }, Placement { hwnd: 6, x: 3, y: 4 }]);
    assert_eq!(reg.remove_matching(&vec![6, 7]), 1);
    assert_eq!(reg.handles(), vec![5]);
    reg.set_tracking(true);
    assert!(reg.is_tracking());
    reg.clear();
    assert_eq!(reg.handles(), Vec::<isize>::new());
    assert!(reg.is_tracking());
}
