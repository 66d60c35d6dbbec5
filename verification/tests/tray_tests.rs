use evox2_control::ec::PowerMode;
use evox2_control::i18n::{t, Language};
use evox2_control::tray::{
    menu_command, menu_entries, tray_pointer_action, MenuCommand, TrayPointerAction, ID_EXIT,
    ID_QUIET, ID_SHOW, NIN_KEYSELECT, NIN_SELECT, WM_CONTEXTMENU, WM_LBUTTONDBLCLK,
    WM_LBUTTONDOWN, WM_LBUTTONUP, WM_RBUTTONUP,
};

#[test]
fn version4_left_click_shows_window() {
    assert_eq!(
        tray_pointer_action(true, NIN_SELECT),
        TrayPointerAction::Show
    );
    assert_eq!(
        tray_pointer_action(true, NIN_KEYSELECT),
        TrayPointerAction::Show
    );
    assert_eq!(
        tray_pointer_action(true, WM_LBUTTONDBLCLK),
        TrayPointerAction::Show
    );
}

#[test]
fn version4_context_menu_opens_menu() {
    assert_eq!(
        tray_pointer_action(true, WM_CONTEXTMENU),
        TrayPointerAction::Menu
    );
    assert_eq!(
        tray_pointer_action(true, WM_RBUTTONUP),
        TrayPointerAction::Menu
    );
}

#[test]
fn legacy_left_button_still_shows_window() {
    assert_eq!(
        tray_pointer_action(false, WM_LBUTTONUP),
        TrayPointerAction::Show
    );
    assert_eq!(
        tray_pointer_action(false, WM_LBUTTONDOWN),
        TrayPointerAction::Show
    );
}

#[test]
fn version4_reads_the_low_word_only() {
    assert_eq!(
        tray_pointer_action(true, 0x0012_0000 | WM_RBUTTONUP),
        TrayPointerAction::Menu
    );
    assert_eq!(
        tray_pointer_action(true, WM_LBUTTONDOWN),
        TrayPointerAction::Ignore
    );
    assert_eq!(
        tray_pointer_action(false, 0x0012_0000 | WM_RBUTTONUP),
        TrayPointerAction::Ignore
    );
}

#[test]
fn menu_entries_and_commands() {
    assert_eq!(menu_command(ID_QUIET), MenuCommand::SetPowerMode(PowerMode::Quiet));
    assert_eq!(menu_command(ID_SHOW), MenuCommand::ShowWindow);
    assert_eq!(menu_command(ID_EXIT), MenuCommand::Exit);
    assert_eq!(menu_command(7), MenuCommand::Nothing);
    let entries = menu_entries(Language::En);
    assert_eq!(entries.len(), 6);
    assert_eq!(entries[0], Some((ID_QUIET, t(Language::En, "quiet"))));
    assert_eq!(entries[3], None);
}
