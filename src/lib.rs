//! Decision logic of a system-tray menu for a desktop translation and OCR
//! utility: which text each menu item shows, which menu entries exist and in
//! what order, what a click on an item asks the host to do, and when the
//! tray's event handlers are to be attached.
//!
//! Everything here works on plain values. The host application owns the
//! tray, the windows and the event bus; it feeds events in and carries out
//! the actions that come back.

pub mod controller;
pub mod labels;
pub mod menu;

pub use labels::{ocr_label, pin_label, update_available, update_label};
pub use menu::{build_menu, lemma_key_round_trip, MenuEntry, MenuItemId, TrayMenu};
pub use controller::{
    create_tray, lemma_handlers_attached_once, lemma_pin_round_trip, lemma_quit_exits_with_zero,
    menu_action, tray_icon_ops, window_ops, ClickKind, MenuAction, PinnedEventPayload, TrayConfig,
    TrayError, TrayRefresh, TrayState, WindowOp,
};
