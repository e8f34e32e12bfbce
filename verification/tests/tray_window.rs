use windows::Win32::UI::WindowsAndMessaging as wm;
use windows_multitool::tray::{
    autorun_enabled, autorun_toggle, tray_menu, window_action, AutorunChange, MenuEntry, WindowAction, MF_BYPOSITION,
    MF_CHECKED, MF_SEPARATOR, MF_STRING, MF_UNCHECKED, TRAY_AUTORUN_ID, TRAY_EXIT_ID, TRAY_SETTINGS_ID, WM_APP,
    WM_COMMAND, WM_DESTROY, WM_LBUTTONUP, WM_RBUTTONUP, WM_RELOAD_SETTINGS, WM_TRAYICON,
};

#[test]
fn message_numbers_match_the_system() {
    assert_eq!(WM_APP, wm::WM_APP);
    assert_eq!(WM_TRAYICON, wm::WM_APP + 1);
    assert_eq!(WM_RELOAD_SETTINGS, wm::WM_APP + 2);
    assert_eq!(WM_RELOAD_SETTINGS, 0x8002);
    assert_eq!(WM_COMMAND, wm::WM_COMMAND);
    assert_eq!(WM_DESTROY, wm::WM_DESTROY);
    assert_eq!(WM_LBUTTONUP, wm::WM_LBUTTONUP);
    assert_eq!(WM_RBUTTONUP, wm::WM_RBUTTONUP);
    assert_eq!(MF_BYPOSITION, wm::MF_BYPOSITION.0);
    assert_eq!(MF_STRING, wm::MF_STRING.0);
    assert_eq!(MF_CHECKED, wm::MF_CHECKED.0);
    assert_eq!(MF_UNCHECKED, wm::MF_UNCHECKED.0);
    assert_eq!(MF_SEPARATOR, wm::MF_SEPARATOR.0);
}

#[test]
fn tray_icon_events() {
    assert_eq!(window_action(WM_RELOAD_SETTINGS, 0, 0), WindowAction::ReloadSettings);
    assert_eq!(window_action(WM_TRAYICON, 0, 0x0202), WindowAction::ToggleIcons);
    assert_eq!(window_action(WM_TRAYICON, 0, 0x0205), WindowAction::ShowTrayMenu);
    assert_eq!(window_action(WM_TRAYICON, 0, 0x0200), WindowAction::Handled);
    assert_eq!(window_action(WM_TRAYICON, 0, (5isize << 32) | 0x0202), WindowAction::ToggleIcons);
}

#[test]
fn menu_commands() {
    assert_eq!(window_action(WM_COMMAND, 1001, 0), WindowAction::Quit);
    assert_eq!(window_action(WM_COMMAND, 1002, 0), WindowAction::ToggleAutorun);
    assert_eq!(window_action(WM_COMMAND, 1004, 0), WindowAction::OpenSettings);
    assert_eq!(window_action(WM_COMMAND, 0x0001_0000 | 1004, 0), WindowAction::OpenSettings);
    assert_eq!(window_action(WM_COMMAND, 1003, 0), WindowAction::Handled);
    assert_eq!(window_action(WM_DESTROY, 0, 0), WindowAction::Quit);
    assert_eq!(window_action(0x0400, 0, 0), WindowAction::DefaultProcessing);
}

fn entry(position: u32, flags: u32, id: usize, label: &str) -> MenuEntry {
    MenuEntry { position, flags, id, label: label.to_string() }
}

#[test]
fn tray_menu_with_autorun_on() {
    let menu = tray_menu(true);
    assert_eq!(
        menu,
        vec![
            entry(0, 0x400, 1004, "Settings..."),
            entry(1, 0xC00, 0, ""),
            entry(2, 0x408, 1002, "Run at startup"),
            entry(3, 0xC00, 0, ""),
            entry(4, 0x400, 1001, "Exit"),
        ]
    );
    for e in &menu {
        if e.flags & MF_SEPARATOR == 0 {
            let action = window_action(WM_COMMAND, e.id, 0);
            assert_ne!(action, WindowAction::Handled);
        }
    }
}

#[test]
fn tray_menu_with_autorun_off() {
    let menu = tray_menu(false);
    assert_eq!(menu[2], entry(2, 0x400, TRAY_AUTORUN_ID, "Run at startup"));
    assert_eq!(menu[0].id, TRAY_SETTINGS_ID);
    assert_eq!(menu[4].id, TRAY_EXIT_ID);
}

#[test]
fn autorun_detection() {
    let exe = Some("C:\\Tools\\windows_multitool.exe".to_string());
    assert!(autorun_enabled(&exe, &exe));
    assert!(!autorun_enabled(&Some("C:\\Old\\tool.exe".to_string()), &exe));
    assert!(!autorun_enabled(&None, &exe));
    assert!(!autorun_enabled(&exe, &None));
}

#[test]
fn autorun_toggle_flips() {
    let exe = Some("C:\\Tools\\windows_multitool.exe".to_string());
    assert_eq!(autorun_toggle(&exe, &exe), AutorunChange::Remove);
    let change = autorun_toggle(&None, &exe);
    assert_eq!(change, AutorunChange::Register("C:\\Tools\\windows_multitool.exe".to_string()));
    let registered = match change {
        AutorunChange::Register(p) => Some(p),
        _ => None,
    };
    assert!(autorun_enabled(&registered, &exe));
    assert_eq!(autorun_toggle(&Some("elsewhere".to_string()), &exe), AutorunChange::Register(exe.clone().unwrap()));
    assert_eq!(autorun_toggle(&None, &None), AutorunChange::Unchanged);
}

#[test]
fn window_class_name() {
    assert_eq!(windows_multitool::tray::main_window_class(), "DesktopTogglerClass");
}
