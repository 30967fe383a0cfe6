use clipboard_herald::shell::{
    classify, high_word, low_word, Event, TrayButton, WM_CLIPBOARDUPDATE, WM_COMMAND,
    WM_CONTEXTMENU, WM_CREATE, WM_DESTROY, WM_TRAYICON,
};
use windows::Win32::UI::WindowsAndMessaging as sys;

#[test]
fn the_menu_has_two_entries() {
    assert_eq!(TrayButton::try_from(0), Ok(TrayButton::OpenDir));
    assert_eq!(TrayButton::try_from(1), Ok(TrayButton::Exit));
    assert_eq!(TrayButton::try_from(2), Err(()));
    assert_eq!(TrayButton::try_from(u16::MAX), Err(()));
}

#[test]
fn an_entry_stands_under_its_number() {
    assert_eq!(TrayButton::OpenDir.id(), 0);
    assert_eq!(TrayButton::Exit.id(), 1);
    assert_eq!(TrayButton::try_from(TrayButton::OpenDir.id()), Ok(TrayButton::OpenDir));
    assert_eq!(TrayButton::try_from(TrayButton::Exit.id()), Ok(TrayButton::Exit));
}

#[test]
fn words_of_a_machine_word() {
    assert_eq!(high_word(0), 0);
    assert_eq!(low_word(0), 0);
    assert_eq!(high_word(0x1234_5678), 0x1234);
    assert_eq!(low_word(0x1234_5678), 0x5678);
    assert_eq!(high_word(0xFFFF), 0);
    assert_eq!(low_word(0xFFFF), 0xFFFF);
    assert_eq!(high_word(0x1_0000), 1);
    assert_eq!(low_word(0x1_0000), 0);
    assert_eq!(high_word(0xFFFF_FFFF), 0xFFFF);
    assert_eq!(low_word(0xFFFF_FFFF), 0xFFFF);
    assert_eq!(high_word(usize::MAX), 0xFFFF);
    assert_eq!(low_word(usize::MAX), 0xFFFF);
}

#[test]
fn the_message_numbers_are_those_of_the_system() {
    assert_eq!(WM_CREATE, sys::WM_CREATE);
    assert_eq!(WM_DESTROY, sys::WM_DESTROY);
    assert_eq!(WM_COMMAND, sys::WM_COMMAND);
    assert_eq!(WM_CONTEXTMENU, sys::WM_CONTEXTMENU);
    assert_eq!(WM_CLIPBOARDUPDATE, sys::WM_CLIPBOARDUPDATE);
    assert_eq!(WM_TRAYICON, sys::WM_USER + 1);
}

#[test]
fn messages_of_the_window() {
    assert_eq!(classify(WM_CREATE, 0, 0), Event::Created);
    assert_eq!(classify(WM_CREATE, 7, -3), Event::Created);
    assert_eq!(classify(WM_DESTROY, 0, 0), Event::Destroyed);
    assert_eq!(classify(WM_CLIPBOARDUPDATE, 0, 0), Event::ClipboardChanged);
    assert_eq!(classify(0, 0, 0), Event::Other);
    assert_eq!(classify(0x000F, 0, 0), Event::Other);
    assert_eq!(classify(WM_CONTEXTMENU, 0, 0), Event::Other);
}

#[test]
fn the_tray_icon_asks_for_its_menu() {
    assert_eq!(classify(WM_TRAYICON, 0, 0x007B), Event::MenuRequested);
    assert_eq!(classify(WM_TRAYICON, 0, 0x0001_007B), Event::MenuRequested);
    assert_eq!(classify(WM_TRAYICON, 0, 0x0200), Event::Other);
    assert_eq!(classify(WM_TRAYICON, 0x007B, 0), Event::Other);
    assert_eq!(classify(WM_TRAYICON, 0, 0x007B_0000), Event::Other);
    assert_eq!(classify(WM_TRAYICON, 0, -1), Event::Other);
    assert_eq!(classify(WM_TRAYICON, 0, -65536 + 0x7B), Event::MenuRequested);
}

#[test]
fn a_menu_choice_carries_the_number_of_the_entry() {
    assert_eq!(classify(WM_COMMAND, 0, 0), Event::Chosen(0));
    assert_eq!(classify(WM_COMMAND, 1, 0), Event::Chosen(1));
    assert_eq!(classify(WM_COMMAND, 7, 99), Event::Chosen(7));
    assert_eq!(classify(WM_COMMAND, 0xFFFF, 0), Event::Chosen(0xFFFF));
    assert_eq!(classify(WM_COMMAND, 0x1_0000, 0), Event::Other);
    assert_eq!(classify(WM_COMMAND, 0x1_0001, 0), Event::Other);
    assert_eq!(classify(WM_COMMAND, 0x1_0000_0001, 0), Event::Chosen(1));
}
