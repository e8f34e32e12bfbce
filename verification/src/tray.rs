use vstd::prelude::*;

verus! {

/// First message number that an application may use for itself.
pub const WM_APP: u32 = 0x8000;
/// The message that the tray icon sends to the window.
pub const WM_TRAYICON: u32 = 0x8001;
/// The message by which the settings window asks for the settings to be
/// read again.
pub const WM_RELOAD_SETTINGS: u32 = 0x8002;
/// A menu command.
pub const WM_COMMAND: u32 = 0x0111;
/// The window is being destroyed.
pub const WM_DESTROY: u32 = 0x0002;
/// The left mouse button was released over the tray icon.
pub const WM_LBUTTONUP: u32 = 0x0202;
/// The right mouse button was released over the tray icon.
pub const WM_RBUTTONUP: u32 = 0x0205;

/// Menu item flag: the item is placed by position.
pub const MF_BYPOSITION: u32 = 0x0400;
/// Menu item flag: a text item.
pub const MF_STRING: u32 = 0x0000;
/// Menu item flag: the item carries a check mark.
pub const MF_CHECKED: u32 = 0x0008;
/// Menu item flag: the item carries no check mark.
pub const MF_UNCHECKED: u32 = 0x0000;
/// Menu item flag: a separator line.
pub const MF_SEPARATOR: u32 = 0x0800;

/// Command of the tray menu item that ends the program.
pub const TRAY_EXIT_ID: usize = 1001;
/// Command of the tray menu item that switches starting with Windows.
pub const TRAY_AUTORUN_ID: usize = 1002;
/// Command of the tray menu item that opens the settings window.
pub const TRAY_SETTINGS_ID: usize = 1004;

/// The class name under which the utility registers its tray window, and by
/// which the settings window finds it to send `WM_RELOAD_SETTINGS`.
pub fn main_window_class() -> (name: String)
    ensures
        name@ == "DesktopTogglerClass"@,
{
    String::from_str("DesktopTogglerClass")
}

/// What the tray window does with a message.
#[derive(Clone, Copy, Debug, PartialEq, Eq, Structural)]
pub enum WindowAction {
    /// Read the settings file again and apply it.
    ReloadSettings,
    /// Show or hide the desktop icons.
    ToggleIcons,
    /// Open the tray menu at the cursor.
    ShowTrayMenu,
    /// End the message loop.
    Quit,
    /// Switch starting with Windows on or off.
    ToggleAutorun,
    /// Start the settings program that lies next to this one.
    OpenSettings,
    /// Nothing to do; the message counts as handled (result 0).
    Handled,
    /// Hand the message to the system's default processing.
    DefaultProcessing,
}

/// The command number carried by a menu command message: the low word.
pub open spec fn command_id(wparam: usize) -> usize {
    (wparam % 0x10000) as usize
}

/// What the tray window does with message `msg` and its parameters.
pub open spec fn window_action_spec(msg: u32, wparam: usize, lparam: isize) -> WindowAction {
    if msg == WM_RELOAD_SETTINGS {
        WindowAction::ReloadSettings
    } else if msg == WM_TRAYICON {
        let event = lparam as u32;
        if event == WM_LBUTTONUP {
            WindowAction::ToggleIcons
        } else if event == WM_RBUTTONUP {
            WindowAction::ShowTrayMenu
        } else {
            WindowAction::Handled
        }
    } else if msg == WM_COMMAND {
        let id = command_id(wparam);
        if id == TRAY_EXIT_ID {
            WindowAction::Quit
        } else if id == TRAY_AUTORUN_ID {
            WindowAction::ToggleAutorun
        } else if id == TRAY_SETTINGS_ID {
            WindowAction::OpenSettings
        } else {
            WindowAction::Handled
        }
    } else if msg == WM_DESTROY {
        WindowAction::Quit
    } else {
        WindowAction::DefaultProcessing
    }
}

/// Decides what the tray window does with a message.
pub fn window_action(msg: u32, wparam: usize, lparam: isize) -> (action: WindowAction)
    ensures
        action == window_action_spec(msg, wparam, lparam),
{
    if msg == WM_RELOAD_SETTINGS {
        WindowAction::ReloadSettings
    } else if msg == WM_TRAYICON {
        let event = lparam as u32;
        if event == WM_LBUTTONUP {
            WindowAction::ToggleIcons
        } else if event == WM_RBUTTONUP {
            WindowAction::ShowTrayMenu
        } else {
            WindowAction::Handled
        }
    } else if msg == WM_COMMAND {
        let id = wparam & 0xFFFF;
        assert(wparam & 0xFFFF == wparam % 0x10000) by (bit_vector);
        if id == TRAY_EXIT_ID {
            WindowAction::Quit
        } else if id == TRAY_AUTORUN_ID {
            WindowAction::ToggleAutorun
        } else if id == TRAY_SETTINGS_ID {
            WindowAction::OpenSettings
        } else {
            WindowAction::Handled
        }
    } else if msg == WM_DESTROY {
        WindowAction::Quit
    } else {
        WindowAction::DefaultProcessing
    }
}

/// The tray window's answers, by message number: the reload message
/// (0x8002) reloads the settings; a tray icon message (0x8001) toggles the
/// icons exactly for a left button release (0x0202) in the low 32 bits of
/// `lparam`, opens the menu exactly for a right button release (0x0205), and
/// is otherwise handled with no action; a menu command (0x0111) acts by the
/// low 16 bits of `wparam`: 1001 quits, 1002 switches starting with Windows,
/// 1004 opens the settings window, any other is handled with no action; the
/// destroy message (0x0002) quits; every other message goes to the system's
/// default processing.
pub proof fn lemma_window_actions(msg: u32, wparam: usize, lparam: isize)
    ensures
        msg == 0x8002 ==> window_action_spec(msg, wparam, lparam) == WindowAction::ReloadSettings,
        msg == 0x8001 ==> (window_action_spec(msg, wparam, lparam) == WindowAction::ToggleIcons <==> lparam as u32
            == 0x0202u32),
        msg == 0x8001 ==> (window_action_spec(msg, wparam, lparam) == WindowAction::ShowTrayMenu <==> lparam as u32
            == 0x0205u32),
        msg == 0x8001 ==> (window_action_spec(msg, wparam, lparam) == WindowAction::Handled <==> (lparam as u32
            != 0x0202u32 && lparam as u32 != 0x0205u32)),
        msg == 0x0111 ==> (window_action_spec(msg, wparam, lparam) == WindowAction::Quit <==> wparam % 0x10000
            == 1001),
        msg == 0x0111 ==> (window_action_spec(msg, wparam, lparam) == WindowAction::ToggleAutorun <==> wparam
            % 0x10000 == 1002),
        msg == 0x0111 ==> (window_action_spec(msg, wparam, lparam) == WindowAction::OpenSettings <==> wparam
            % 0x10000 == 1004),
        msg == 0x0111 ==> (window_action_spec(msg, wparam, lparam) == WindowAction::Handled <==> (wparam % 0x10000
            != 1001 && wparam % 0x10000 != 1002 && wparam % 0x10000 != 1004)),
        msg == 0x0002 ==> window_action_spec(msg, wparam, lparam) == WindowAction::Quit,
        (msg != 0x8002 && msg != 0x8001 && msg != 0x0111 && msg != 0x0002) ==> window_action_spec(
            msg,
            wparam,
            lparam,
        ) == WindowAction::DefaultProcessing,
{
}

/// One item of the tray menu, as inserted by position.
#[derive(Clone, Debug, PartialEq, Eq)]
pub struct MenuEntry {
    pub position: u32,
    pub flags: u32,
    pub id: usize,
    pub label: String,
}

/// The tray menu: "Settings...", a separator, "Run at startup" (checked when
/// starting with Windows is on), a separator, "Exit". Each entry is
/// (position, flags, command, label).
pub open spec fn tray_menu_spec(autorun_enabled: bool) -> Seq<(u32, u32, usize, Seq<char>)> {
    seq![
        (0u32, MF_BYPOSITION | MF_STRING, TRAY_SETTINGS_ID, "Settings..."@),
        (1u32, MF_BYPOSITION | MF_SEPARATOR, 0usize, ""@),
        (
            2u32,
            MF_BYPOSITION | MF_STRING | (if autorun_enabled {
                MF_CHECKED
            } else {
                MF_UNCHECKED
            }),
            TRAY_AUTORUN_ID,
            "Run at startup"@,
        ),
        (3u32, MF_BYPOSITION | MF_SEPARATOR, 0usize, ""@),
        (4u32, MF_BYPOSITION | MF_STRING, TRAY_EXIT_ID, "Exit"@),
    ]
}

pub open spec fn entry_view(e: MenuEntry) -> (u32, u32, usize, Seq<char>) {
    (e.position, e.flags, e.id, e.label@)
}

fn menu_entry(position: u32, flags: u32, id: usize, label: &str) -> (e: MenuEntry)
    ensures
        entry_view(e) == (position, flags, id, label@),
{
    MenuEntry { position, flags, id, label: String::from_str(label) }
}

/// Builds the tray menu.
pub fn tray_menu(autorun_enabled: bool) -> (menu: Vec<MenuEntry>)
    ensures
        menu@.map_values(|e: MenuEntry| entry_view(e)) == tray_menu_spec(autorun_enabled),
{
    let check: u32 = if autorun_enabled {
        MF_CHECKED
    } else {
        MF_UNCHECKED
    };
    let mut menu: Vec<MenuEntry> = Vec::new();
    menu.push(menu_entry(0, MF_BYPOSITION | MF_STRING, TRAY_SETTINGS_ID, "Settings..."));
    menu.push(menu_entry(1, MF_BYPOSITION | MF_SEPARATOR, 0, ""));
    menu.push(menu_entry(2, MF_BYPOSITION | MF_STRING | check, TRAY_AUTORUN_ID, "Run at startup"));
    menu.push(menu_entry(3, MF_BYPOSITION | MF_SEPARATOR, 0, ""));
    menu.push(menu_entry(4, MF_BYPOSITION | MF_STRING, TRAY_EXIT_ID, "Exit"));
    assert(menu@.map_values(|e: MenuEntry| entry_view(e)) =~= tray_menu_spec(autorun_enabled));
    menu
}

/// Choosing an item of the tray menu sends its command, and the tray window
/// answers that command with the item's action; the reload message of the
/// settings window makes it read the settings again.
pub proof fn lemma_menu_commands(autorun_enabled: bool, lparam: isize)
    ensures
        window_action_spec(WM_COMMAND, tray_menu_spec(autorun_enabled)[0].2, lparam) == WindowAction::OpenSettings,
        window_action_spec(WM_COMMAND, tray_menu_spec(autorun_enabled)[2].2, lparam) == WindowAction::ToggleAutorun,
        window_action_spec(WM_COMMAND, tray_menu_spec(autorun_enabled)[4].2, lparam) == WindowAction::Quit,
        window_action_spec(WM_RELOAD_SETTINGS, 0, lparam) == WindowAction::ReloadSettings,
        (tray_menu_spec(autorun_enabled)[2].1 & MF_CHECKED == MF_CHECKED) == autorun_enabled,
{
    assert((MF_BYPOSITION | MF_STRING | MF_CHECKED) & MF_CHECKED == MF_CHECKED) by (bit_vector);
    assert((MF_BYPOSITION | MF_STRING | MF_UNCHECKED) & MF_CHECKED == 0) by (bit_vector);
}

/// Whether starting with Windows is on: the value registered under the
/// program's name is the path of the running program.
pub open spec fn autorun_enabled_spec(registered: Option<Seq<char>>, exe_path: Option<Seq<char>>) -> bool {
    match (registered, exe_path) {
        (Some(r), Some(p)) => r == p,
        _ => false,
    }
}

pub open spec fn string_view(s: Option<String>) -> Option<Seq<char>> {
    match s {
        Some(v) => Some(v@),
        None => None,
    }
}

/// Decides whether starting with Windows is on, from the value found in the
/// registry (`None` when the key or the value cannot be read) and the path
/// of the running program (`None` when it cannot be found).
pub fn autorun_enabled(registered: &Option<String>, exe_path: &Option<String>) -> (on: bool)
    ensures
        on == autorun_enabled_spec(string_view(*registered), string_view(*exe_path)),
{
    match (registered, exe_path) {
        (Some(r), Some(p)) => *r == *p,
        _ => false,
    }
}

/// A change of the registered start-up value.
#[derive(Clone, Debug, PartialEq, Eq)]
pub enum AutorunChange {
    /// Delete the value.
    Remove,
    /// Register this program path.
    Register(String),
    /// Leave the registry as it is.
    Unchanged,
}

pub open spec fn apply_change(registered: Option<Seq<char>>, change: AutorunChange) -> Option<Seq<char>> {
    match change {
        AutorunChange::Remove => None,
        AutorunChange::Register(p) => Some(p@),
        AutorunChange::Unchanged => registered,
    }
}

/// Starting with Windows is on exactly when a value is registered and it is
/// the same text as the known path of the running program.
pub proof fn lemma_autorun_enabled_values(registered: Option<Seq<char>>, exe_path: Option<Seq<char>>)
    ensures
        autorun_enabled_spec(registered, exe_path) <==> (registered is Some && exe_path is Some && registered->0
            == exe_path->0),
{
}

/// The registered start-up value after switching: removed when starting
/// with Windows was on; otherwise the program path when it is known, and
/// unchanged when it is not.
pub open spec fn toggled_registration(registered: Option<Seq<char>>, exe_path: Option<Seq<char>>) -> Option<Seq<char>> {
    if autorun_enabled_spec(registered, exe_path) {
        None
    } else {
        match exe_path {
            Some(p) => Some(p),
            None => registered,
        }
    }
}

/// Switches starting with Windows: removes the registered value when it is
/// on, and otherwise registers the program path, if known.
pub fn autorun_toggle(registered: &Option<String>, exe_path: &Option<String>) -> (change: AutorunChange)
    ensures
        autorun_enabled_spec(string_view(*registered), string_view(*exe_path)) <==> change
            == AutorunChange::Remove,
        exe_path.is_none() && !autorun_enabled_spec(string_view(*registered), string_view(*exe_path)) <==> change
            == AutorunChange::Unchanged,
        apply_change(string_view(*registered), change) == toggled_registration(
            string_view(*registered),
            string_view(*exe_path),
        ),
{
    if autorun_enabled(registered, exe_path) {
        AutorunChange::Remove
    } else {
        match exe_path {
            Some(p) => AutorunChange::Register(p.clone()),
            None => AutorunChange::Unchanged,
        }
    }
}

/// Switching starting with Windows deletes the registered value when it is
/// the running program's path; otherwise it registers that path when it is
/// known, and leaves the registry untouched when it is not.
pub proof fn lemma_toggle_registration(registered: Option<Seq<char>>, exe_path: Option<Seq<char>>)
    ensures
        (registered is Some && exe_path is Some && registered->0 == exe_path->0) ==> toggled_registration(
            registered,
            exe_path,
        ) is None,
        (exe_path is Some && !(registered is Some && registered->0 == exe_path->0)) ==> toggled_registration(
            registered,
            exe_path,
        ) == exe_path,
        exe_path is None ==> toggled_registration(registered, exe_path) == registered,
{
}

/// The tray menu holds, at positions 0 to 4: "Settings..." (command 1004),
/// a separator, "Run at startup" (command 1002, checked exactly when
/// starting with Windows is on), a separator, and "Exit" (command 1001);
/// every item is placed by position.
pub proof fn lemma_tray_menu_items(autorun_enabled: bool)
    ensures
        tray_menu_spec(autorun_enabled).len() == 5,
        forall|i: int| 0 <= i < 5 ==> #[trigger] tray_menu_spec(autorun_enabled)[i].0 == i,
        forall|i: int| 0 <= i < 5 ==> #[trigger] tray_menu_spec(autorun_enabled)[i].1 & 0x0400 == 0x0400,
        tray_menu_spec(autorun_enabled)[0].2 == 1004 && tray_menu_spec(autorun_enabled)[0].3 == "Settings..."@,
        tray_menu_spec(autorun_enabled)[1].1 & 0x0800 == 0x0800 && tray_menu_spec(autorun_enabled)[3].1 & 0x0800
            == 0x0800,
        tray_menu_spec(autorun_enabled)[2].2 == 1002 && tray_menu_spec(autorun_enabled)[2].3 == "Run at startup"@,
        (tray_menu_spec(autorun_enabled)[2].1 & 0x0008 == 0x0008) == autorun_enabled,
        tray_menu_spec(autorun_enabled)[4].2 == 1001 && tray_menu_spec(autorun_enabled)[4].3 == "Exit"@,
{
    assert((0x0400u32 | 0x0000u32) & 0x0400 == 0x0400) by (bit_vector);
    assert((0x0400u32 | 0x0800u32) & 0x0400 == 0x0400) by (bit_vector);
    assert((0x0400u32 | 0x0800u32) & 0x0800 == 0x0800) by (bit_vector);
    assert((0x0400u32 | 0x0000u32 | 0x0008u32) & 0x0400 == 0x0400) by (bit_vector);
    assert((0x0400u32 | 0x0000u32 | 0x0000u32) & 0x0400 == 0x0400) by (bit_vector);
    assert((0x0400u32 | 0x0000u32 | 0x0008u32) & 0x0008 == 0x0008) by (bit_vector);
    assert((0x0400u32 | 0x0000u32 | 0x0000u32) & 0x0008 == 0) by (bit_vector);
}

/// With a known program path, switching starting with Windows turns it off
/// when it was on and on when it was off, so switching twice restores
/// whether it is on.
pub proof fn lemma_toggle_flips(registered: Option<Seq<char>>, exe_path: Seq<char>)
    ensures
        autorun_enabled_spec(toggled_registration(registered, Some(exe_path)), Some(exe_path))
            == !autorun_enabled_spec(registered, Some(exe_path)),
        autorun_enabled_spec(
            toggled_registration(toggled_registration(registered, Some(exe_path)), Some(exe_path)),
            Some(exe_path),
        ) == autorun_enabled_spec(registered, Some(exe_path)),
{
}

} // verus!
