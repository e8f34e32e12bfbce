use windows_multitool::desktop::{
    double_click_toggles, hook_inspects_event, ClickVerdict, DoubleClickTracker, IconSearch, LIST_VIEW_GET_SELECTED_COUNT,
    TOGGLE_DESKTOP_ICONS_COMMAND, WM_LBUTTONDOWN,
};

const MS: u64 = 1_000_000;

#[test]
fn hook_inspects_only_left_presses_when_enabled() {
    assert!(hook_inspects_event(0, true, 0x0201));
    assert!(!hook_inspects_event(-1, true, 0x0201));
    assert!(!hook_inspects_event(0, false, 0x0201));
    assert!(!hook_inspects_event(0, true, 0x0202));
    assert!(hook_inspects_event(0, true, (1usize << 32) | 0x0201));
}

#[test]
fn double_click_on_desktop_background_toggles() {
    let mut t = DoubleClickTracker::new();
    let progman = "Progman".to_string();
    assert_eq!(t.left_button_down(&progman, 1000 * MS, 500), ClickVerdict::NoDoubleClick);
    assert_eq!(t.last_click, Some(1000 * MS));
    assert_eq!(t.left_button_down(&progman, 1499 * MS, 500), ClickVerdict::ToggleIcons);
    assert_eq!(t.last_click, None);
    assert_eq!(t.left_button_down(&progman, 1600 * MS, 500), ClickVerdict::NoDoubleClick);
}

#[test]
fn double_click_on_icon_list_depends_on_selection() {
    let mut t = DoubleClickTracker::new();
    let list = "SysListView32".to_string();
    t.left_button_down(&list, 0, 500);
    let v = t.left_button_down(&list, 10 * MS, 500);
    assert_eq!(v, ClickVerdict::ToggleIconsIfNoneSelected);
    assert!(double_click_toggles(v, 0));
    assert!(!double_click_toggles(v, 2));
    assert!(double_click_toggles(ClickVerdict::ToggleIcons, 3));
    assert!(!double_click_toggles(ClickVerdict::NoDoubleClick, 0));
}

#[test]
fn slow_second_press_starts_over() {
    let mut t = DoubleClickTracker::new();
    let worker = "WorkerW".to_string();
    t.left_button_down(&worker, 0, 500);
    assert_eq!(t.left_button_down(&worker, 500 * MS, 500), ClickVerdict::NoDoubleClick);
    assert_eq!(t.last_click, Some(500 * MS));
    assert_eq!(t.left_button_down(&worker, 999 * MS, 500), ClickVerdict::ToggleIcons);
}

#[test]
fn press_elsewhere_forgets_previous_press() {
    let mut t = DoubleClickTracker::new();
    let view = "SHELLDLL_DefView".to_string();
    t.left_button_down(&view, 0, 500);
    assert_eq!(t.left_button_down(&"Notepad".to_string(), MS, 500), ClickVerdict::NoDoubleClick);
    assert_eq!(t.last_click, None);
    assert_eq!(t.left_button_down(&view, 2 * MS, 500), ClickVerdict::NoDoubleClick);
}

#[test]
fn icon_list_found_under_progman() {
    let s = IconSearch::begin();
    assert_eq!(s, IconSearch::FindProgman);
    assert!(!s.is_finished());
    let s = s.next(0x10);
    assert_eq!(s, IconSearch::FindView { parent: 0x10, in_worker: false });
    let s = s.next(0x20);
    assert_eq!(s, IconSearch::Found { view: 0x20 });
    assert!(s.is_finished());
}

#[test]
fn icon_list_found_under_second_worker() {
    let s = IconSearch::begin().next(0x10).next(0);
    assert_eq!(s, IconSearch::FindWorker { after: 0 });
    let s = s.next(0x30);
    assert_eq!(s, IconSearch::FindView { parent: 0x30, in_worker: true });
    let s = s.next(0);
    assert_eq!(s, IconSearch::FindWorker { after: 0x30 });
    let s = s.next(0x40).next(0x50);
    assert_eq!(s, IconSearch::Found { view: 0x50 });
}

#[test]
fn icon_list_not_found() {
    let s = IconSearch::begin().next(0).next(0).next(0x30).next(0).next(0);
    assert_eq!(s, IconSearch::NotFound);
    assert!(s.is_finished());
    assert_eq!(s.next(0x99), IconSearch::NotFound);
}

#[test]
fn desktop_constants() {
    assert_eq!(WM_LBUTTONDOWN, windows::Win32::UI::WindowsAndMessaging::WM_LBUTTONDOWN);
    assert_eq!(TOGGLE_DESKTOP_ICONS_COMMAND, 0x7402);
    assert_eq!(LIST_VIEW_GET_SELECTED_COUNT, 0x1032);
}

#[test]
fn quick_presses_pair_up() {
    for n in 1..=6u64 {
        let mut t = DoubleClickTracker::new();
        let progman = "Progman".to_string();
        let mut toggles = 0;
        for i in 0..n {
            let v = t.left_button_down(&progman, i * 100 * MS, 500);
            if double_click_toggles(v, 0) {
                toggles += 1;
            }
        }
        assert_eq!(toggles, n / 2);
    }
}

#[test]
fn quick_presses_on_mixed_desktop_windows_pair_up() {
    let classes = ["Progman", "SysListView32", "WorkerW", "SHELLDLL_DefView", "SysListView32", "Progman", "WorkerW"];
    let mut t = DoubleClickTracker::new();
    let mut toggles = 0;
    for (i, class) in classes.iter().enumerate() {
        let v = t.left_button_down(&class.to_string(), i as u64 * 200 * MS, 500);
        if double_click_toggles(v, 0) {
            toggles += 1;
        }
    }
    assert_eq!(toggles, classes.len() / 2);
}
