use tray_controller::{
    build_menu, create_tray, menu_action, ocr_label, pin_label, tray_icon_ops, update_available,
    update_label, window_ops, ClickKind, MenuAction, MenuItemId, PinnedEventPayload, TrayConfig,
    TrayError, TrayState, WindowOp,
};

fn labels_of(menu: &tray_controller::TrayMenu) -> Vec<(MenuItemId, String)> {
    menu.entries.iter().map(|e| (e.id, e.label.clone())).collect()
}

#[test]
fn ocr_label_without_hotkey() {
    assert_eq!(ocr_label(None), "OCR");
}

#[test]
fn ocr_label_with_hotkey() {
    assert_eq!(ocr_label(Some("CommandOrControl+Shift+O")), "OCR (CommandOrControl+Shift+O)");
    assert_eq!(ocr_label(Some("")), "OCR ()");
}

#[test]
fn pin_label_follows_pinned_state() {
    assert_eq!(pin_label(true), "Unpin");
    assert_eq!(pin_label(false), "Pin");
}

#[test]
fn update_label_shows_attention_only_when_version_found() {
    let unchecked: Option<Option<String>> = None;
    let up_to_date: Option<Option<String>> = Some(None);
    let found: Option<Option<String>> = Some(Some("1.2.0".to_string()));
    assert_eq!(update_label(&unchecked), "Check for Updates...");
    assert_eq!(update_label(&up_to_date), "Check for Updates...");
    assert_eq!(update_label(&found), "\u{1F4A1} New version available!");
    assert!(!update_available(&unchecked));
    assert!(!update_available(&up_to_date));
    assert!(update_available(&found));
}

#[test]
fn menu_has_fixed_order_and_labels() {
    let menu = build_menu(Some("F2"), true, true);
    assert_eq!(
        labels_of(&menu),
        vec![
            (MenuItemId::CheckForUpdates, "\u{1F4A1} New version available!".to_string()),
            (MenuItemId::Settings, "Settings".to_string()),
            (MenuItemId::Ocr, "OCR (F2)".to_string()),
            (MenuItemId::Show, "Show".to_string()),
            (MenuItemId::Hide, "Hide".to_string()),
            (MenuItemId::Pin, "Unpin".to_string()),
            (MenuItemId::Quit, "Quit".to_string()),
        ]
    );
    let plain = build_menu(None, false, false);
    assert_eq!(plain.entries[0].label, "Check for Updates...");
    assert_eq!(plain.entries[2].label, "OCR");
    assert_eq!(plain.entries[5].label, "Pin");
}

#[test]
fn keys_round_trip() {
    let ids = [
        MenuItemId::CheckForUpdates,
        MenuItemId::Settings,
        MenuItemId::Ocr,
        MenuItemId::Show,
        MenuItemId::Hide,
        MenuItemId::Pin,
        MenuItemId::Quit,
    ];
    for id in ids {
        assert_eq!(MenuItemId::from_key(id.key()), Some(id));
    }
    assert_eq!(MenuItemId::Ocr.key(), "ocr");
    assert_eq!(MenuItemId::from_key("exit"), None);
}

#[test]
fn menu_clicks_map_to_actions() {
    assert_eq!(menu_action("check_for_updates"), MenuAction::OpenUpdaterWindow);
    assert_eq!(menu_action("settings"), MenuAction::OpenSettingsWindow);
    assert_eq!(menu_action("ocr"), MenuAction::RunOcr);
    assert_eq!(menu_action("show"), MenuAction::ShowMainWindow);
    assert_eq!(menu_action("hide"), MenuAction::HideMainWindow);
    assert_eq!(menu_action("pin"), MenuAction::TogglePin);
    assert_eq!(menu_action("unknown"), MenuAction::Ignore);
    assert_eq!(menu_action(""), MenuAction::Ignore);
    assert_eq!(menu_action("Quit"), MenuAction::Ignore);
}

#[test]
fn quit_exits_with_code_zero() {
    assert_eq!(menu_action("quit"), MenuAction::Exit(0));
}

#[test]
fn window_ops_for_show_and_hide() {
    assert_eq!(
        window_ops(MenuAction::ShowMainWindow),
        vec![WindowOp::Focus, WindowOp::Unminimize, WindowOp::Show]
    );
    assert_eq!(
        window_ops(MenuAction::HideMainWindow),
        vec![WindowOp::Focus, WindowOp::Unminimize, WindowOp::Hide]
    );
    assert!(window_ops(MenuAction::RunOcr).is_empty());
    assert!(window_ops(MenuAction::Exit(0)).is_empty());
}

#[test]
fn only_left_click_on_icon_shows_window() {
    assert_eq!(
        tray_icon_ops(ClickKind::Left),
        vec![WindowOp::Unminimize, WindowOp::Show, WindowOp::Focus]
    );
    assert!(tray_icon_ops(ClickKind::Right).is_empty());
    assert!(tray_icon_ops(ClickKind::Double).is_empty());
}

#[test]
fn handlers_attached_once_over_many_refreshes() {
    let mut state = TrayState::new();
    let config: Result<TrayConfig, String> = Ok(TrayConfig { ocr_hotkey: None });
    let update: Option<Option<String>> = None;
    let mut attached = 0;
    for _ in 0..5 {
        let refresh = create_tray(&mut state, &config, &update).unwrap();
        if refresh.attach_handlers {
            attached += 1;
        }
        assert_eq!(refresh.menu.entries.len(), 7);
    }
    assert_eq!(attached, 1);
    assert!(state.registered);
}

#[test]
fn refresh_reflects_state_and_config() {
    let mut state = TrayState::new();
    state.pin_from_tray(true);
    let config: Result<TrayConfig, String> =
        Ok(TrayConfig { ocr_hotkey: Some("Alt+X".to_string()) });
    let update: Option<Option<u32>> = Some(Some(3));
    let refresh = create_tray(&mut state, &config, &update).unwrap();
    assert!(refresh.attach_handlers);
    assert_eq!(refresh.menu.entries[0].label, "\u{1F4A1} New version available!");
    assert_eq!(refresh.menu.entries[2].label, "OCR (Alt+X)");
    assert_eq!(refresh.menu.entries[5].label, "Unpin");
}

#[test]
fn missing_config_fails_and_keeps_state() {
    let mut state = TrayState::new();
    let config: Result<TrayConfig, String> = Err("no config".to_string());
    let update: Option<Option<String>> = None;
    let r = create_tray(&mut state, &config, &update);
    assert!(matches!(r, Err(TrayError::ConfigUnavailable)));
    assert_eq!(state, TrayState { pinned: false, registered: false });
    let ok: Result<TrayConfig, String> = Ok(TrayConfig { ocr_hotkey: None });
    assert!(create_tray(&mut state, &ok, &update).unwrap().attach_handlers);
}

#[test]
fn pin_round_trip_through_window_event() {
    let mut tray_side = TrayState::new();
    let payload = tray_side.pin_from_tray(true);
    assert_eq!(payload, PinnedEventPayload { pinned: true });
    assert!(tray_side.pinned);

    let mut other = TrayState { pinned: false, registered: true };
    other.pin_from_window(&payload);
    assert!(other.pinned);
    assert!(other.registered);
    other.pin_from_window(&payload);
    assert_eq!(other, TrayState { pinned: true, registered: true });

    let unpin = tray_side.pin_from_tray(false);
    other.pin_from_window(&unpin);
    assert!(!other.pinned);
}
