use focus_volume::tray::{keeps_running, loword, menu_event, TrayEvent, IDM_EXIT, IDM_PRINT};

#[test]
fn loword_keeps_the_low_sixteen_bits() {
    assert_eq!(loword(0), 0);
    assert_eq!(loword(0xFFFF), 0xFFFF);
    assert_eq!(loword(0x1_0000), 0);
    assert_eq!(loword(0xABCD_03E8), 0x03E8);
    assert_eq!(loword(u32::MAX), 0xFFFF);
}

#[test]
fn menu_commands_map_to_events() {
    assert_eq!(menu_event(IDM_PRINT), Some(TrayEvent::Print));
    assert_eq!(menu_event(IDM_EXIT), Some(TrayEvent::Quit));
    assert_eq!(menu_event(0x0001_0000 + 1000), Some(TrayEvent::Print));
    assert_eq!(menu_event(0xFFFF_0000 + 1001), Some(TrayEvent::Quit));
    assert_eq!(menu_event(999), None);
    assert_eq!(menu_event(1002), None);
    assert_eq!(menu_event(0), None);
}

#[test]
fn message_loop_ends_on_quit() {
    assert!(keeps_running(TrayEvent::Print));
    assert!(!keeps_running(TrayEvent::Quit));
}
