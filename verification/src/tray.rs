//! Notification-area icon decisions: what a pointer message on the icon
//! does, and what each context-menu entry runs.
use vstd::prelude::*;
use crate::ec::{power_mode_name, PowerMode};
use crate::i18n::{t, translate, Language};

verus! {

/// Win32 `NIN_SELECT`.
pub const NIN_SELECT: u32 = 0x0400;
/// Win32 `NIN_KEYSELECT` (`NIN_SELECT | NINF_KEY`).
pub const NIN_KEYSELECT: u32 = 0x0401;
/// Win32 `WM_CONTEXTMENU`.
pub const WM_CONTEXTMENU: u32 = 0x007B;
/// Win32 `WM_LBUTTONDOWN`.
pub const WM_LBUTTONDOWN: u32 = 0x0201;
/// Win32 `WM_LBUTTONUP`.
pub const WM_LBUTTONUP: u32 = 0x0202;
/// Win32 `WM_LBUTTONDBLCLK`.
pub const WM_LBUTTONDBLCLK: u32 = 0x0203;
/// Win32 `WM_RBUTTONUP`.
pub const WM_RBUTTONUP: u32 = 0x0205;

pub const ID_QUIET: usize = 1001;
pub const ID_BALANCED: usize = 1002;
pub const ID_PERFORMANCE: usize = 1003;
pub const ID_SHOW: usize = 1004;
pub const ID_EXIT: usize = 1005;

/// What the icon tells the window.
#[derive(Debug, Clone, Copy, PartialEq, Eq, Structural)]
pub enum TrayEvent {
    ShowWindow,
    PowerModeChanged,
    Exit,
}

/// What a pointer message on the icon does.
#[derive(Debug, Clone, Copy, PartialEq, Eq, Structural)]
pub enum TrayPointerAction {
    Show,
    Menu,
    Ignore,
}

/// With notify version 4 the message sits in the low word of `lparam`.
/// Selecting the icon (mouse or keyboard), a left release or a double click
/// shows the window; an old-style left press does too; the context menu key
/// and a right release open the menu.
pub open spec fn pointer_action_spec(notify_version4: bool, lparam: u32) -> TrayPointerAction {
    let m = if notify_version4 { lparam & 0xFFFF } else { lparam };
    if m == NIN_SELECT || m == NIN_KEYSELECT || m == WM_LBUTTONUP || m == WM_LBUTTONDBLCLK {
        TrayPointerAction::Show
    } else if m == WM_LBUTTONDOWN && !notify_version4 {
        TrayPointerAction::Show
    } else if m == WM_CONTEXTMENU || m == WM_RBUTTONUP {
        TrayPointerAction::Menu
    } else {
        TrayPointerAction::Ignore
    }
}

pub fn tray_pointer_action(notify_version4: bool, lparam: u32) -> (r: TrayPointerAction)
    ensures
        r == pointer_action_spec(notify_version4, lparam),
{
    let message = if notify_version4 { lparam & 0xFFFF } else { lparam };
    if message == NIN_SELECT || message == NIN_KEYSELECT || message == WM_LBUTTONUP || message
        == WM_LBUTTONDBLCLK {
        TrayPointerAction::Show
    } else if message == WM_LBUTTONDOWN && !notify_version4 {
        TrayPointerAction::Show
    } else if message == WM_CONTEXTMENU || message == WM_RBUTTONUP {
        TrayPointerAction::Menu
    } else {
        TrayPointerAction::Ignore
    }
}

/// What a context-menu entry runs.
#[derive(Debug, Clone, Copy, PartialEq, Eq, Structural)]
pub enum MenuCommand {
    SetPowerMode(PowerMode),
    ShowWindow,
    Exit,
    Nothing,
}

pub open spec fn menu_command_spec(id: usize) -> MenuCommand {
    if id == ID_QUIET {
        MenuCommand::SetPowerMode(PowerMode::Quiet)
    } else if id == ID_BALANCED {
        MenuCommand::SetPowerMode(PowerMode::Balanced)
    } else if id == ID_PERFORMANCE {
        MenuCommand::SetPowerMode(PowerMode::Performance)
    } else if id == ID_SHOW {
        MenuCommand::ShowWindow
    } else if id == ID_EXIT {
        MenuCommand::Exit
    } else {
        MenuCommand::Nothing
    }
}

pub fn menu_command(id: usize) -> (r: MenuCommand)
    ensures
        r == menu_command_spec(id),
{
    if id == ID_QUIET {
        MenuCommand::SetPowerMode(PowerMode::Quiet)
    } else if id == ID_BALANCED {
        MenuCommand::SetPowerMode(PowerMode::Balanced)
    } else if id == ID_PERFORMANCE {
        MenuCommand::SetPowerMode(PowerMode::Performance)
    } else if id == ID_SHOW {
        MenuCommand::ShowWindow
    } else if id == ID_EXIT {
        MenuCommand::Exit
    } else {
        MenuCommand::Nothing
    }
}

/// The context menu's entries: identifier and label, a separator between
/// the power modes and the rest.
pub open spec fn menu_entries_spec(language: Language) -> Seq<Option<(usize, Seq<char>)>> {
    seq![
        Some((ID_QUIET, translate(language, "quiet"@))),
        Some((ID_BALANCED, translate(language, "balanced"@))),
        Some((ID_PERFORMANCE, translate(language, "performance"@))),
        None,
        Some((ID_SHOW, translate(language, "show_window"@))),
        Some((ID_EXIT, translate(language, "exit"@))),
    ]
}

pub open spec fn entry_views(v: Seq<Option<(usize, &'static str)>>) -> Seq<Option<(usize, Seq<char>)>> {
    v.map_values(|e: Option<(usize, &'static str)>| match e {
        Some(x) => Some((x.0, x.1@)),
        None => None,
    })
}

pub fn menu_entries(language: Language) -> (r: Vec<Option<(usize, &'static str)>>)
    ensures
        entry_views(r@) == menu_entries_spec(language),
{
    let r = vec![
        Some((ID_QUIET, t(language, "quiet"))),
        Some((ID_BALANCED, t(language, "balanced"))),
        Some((ID_PERFORMANCE, t(language, "performance"))),
        None,
        Some((ID_SHOW, t(language, "show_window"))),
        Some((ID_EXIT, t(language, "exit"))),
    ];
    assert(entry_views(r@) =~= menu_entries_spec(language));
    r
}

/// Every power-mode entry of the menu sets the mode it is labelled with.
pub proof fn lemma_menu_power_entries_match_labels(language: Language, i: int)
    requires
        0 <= i < 3,
    ensures
        menu_entries_spec(language)[i] matches Some(e) && menu_command_spec(e.0) matches MenuCommand::SetPowerMode(m)
            && e.1 == translate(language, power_mode_name(m)),
{
}

} // verus!
