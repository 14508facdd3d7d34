use vstd::prelude::*;

use crate::labels::{spec_update_available, update_available};
use crate::menu::{build_menu, opt_str_view, spec_menu, MenuItemId, TrayMenu};

verus! {

/// What the tray reads from the application's configuration.
pub struct TrayConfig {
    pub ocr_hotkey: Option<String>,
}

/// Why a tray operation did not go through.
#[derive(Clone, Copy, Debug, PartialEq, Eq, Structural)]
pub enum TrayError {
    /// The configuration could not be loaded.
    ConfigUnavailable,
    /// A call into the windowing toolkit failed.
    ToolkitOperationFailed,
    /// A cross-window event carried a payload that could not be read.
    EventPayloadMalformed,
}

/// Process-wide tray state: whether the main window is pinned (always on top),
/// and whether the tray's event handlers have been attached.
#[derive(Clone, Copy, Debug, PartialEq, Eq, Structural)]
pub struct TrayState {
    pub pinned: bool,
    pub registered: bool,
}

/// Payload of the pin events exchanged between the tray and the main window.
#[derive(Clone, Copy, Debug, PartialEq, Eq, Structural)]
pub struct PinnedEventPayload {
    pub pinned: bool,
}

/// What a refresh of the tray asks of the host: attach `menu` to the tray,
/// and attach the event handlers when `attach_handlers` holds.
pub struct TrayRefresh {
    pub menu: TrayMenu,
    pub attach_handlers: bool,
}

/// What a click on a menu entry asks of the host.
#[derive(Clone, Copy, Debug, PartialEq, Eq, Structural)]
pub enum MenuAction {
    OpenUpdaterWindow,
    OpenSettingsWindow,
    RunOcr,
    ShowMainWindow,
    HideMainWindow,
    /// Toggle always-on-top on the main window, then report the new value
    /// through `TrayState::pin_from_tray`.
    TogglePin,
    /// End the process with this exit code.
    Exit(i32),
    Ignore,
}

/// One operation on the main window.
#[derive(Clone, Copy, Debug, PartialEq, Eq, Structural)]
pub enum WindowOp {
    Focus,
    Unminimize,
    Show,
    Hide,
}

/// Kind of a click on the tray icon.
#[derive(Clone, Copy, Debug, PartialEq, Eq, Structural)]
pub enum ClickKind {
    Left,
    Right,
    Double,
}

/// State after a successful refresh: handlers are attached from then on.
pub open spec fn spec_after_refresh(s: TrayState) -> TrayState {
    TrayState { pinned: s.pinned, registered: true }
}

/// Whether a successful refresh from `s` attaches the event handlers.
pub open spec fn spec_attaches(s: TrayState) -> bool {
    !s.registered
}

/// State after the pinned flag was set to `pinned`.
pub open spec fn spec_with_pinned(s: TrayState, pinned: bool) -> TrayState {
    TrayState { pinned, registered: s.registered }
}

/// How many times the event handlers get attached over `n` successful refreshes
/// starting from `s`.
pub open spec fn spec_attachments(s: TrayState, n: nat) -> nat
    decreases n,
{
    if n == 0 {
        0
    } else {
        (if spec_attaches(s) {
            1nat
        } else {
            0nat
        }) + spec_attachments(spec_after_refresh(s), (n - 1) as nat)
    }
}

pub open spec fn spec_action_of(id: MenuItemId) -> MenuAction {
    match id {
        MenuItemId::CheckForUpdates => MenuAction::OpenUpdaterWindow,
        MenuItemId::Settings => MenuAction::OpenSettingsWindow,
        MenuItemId::Ocr => MenuAction::RunOcr,
        MenuItemId::Show => MenuAction::ShowMainWindow,
        MenuItemId::Hide => MenuAction::HideMainWindow,
        MenuItemId::Pin => MenuAction::TogglePin,
        MenuItemId::Quit => MenuAction::Exit(0),
    }
}

/// The action for a click on the entry with key `key`; unknown keys do nothing.
pub open spec fn spec_menu_action(key: Seq<char>) -> MenuAction {
    match MenuItemId::spec_from_key(key) {
        Some(id) => spec_action_of(id),
        None => MenuAction::Ignore,
    }
}

/// The window operations, in order, that carry out a menu action.
pub open spec fn spec_window_ops(action: MenuAction) -> Seq<WindowOp> {
    match action {
        MenuAction::ShowMainWindow => seq![WindowOp::Focus, WindowOp::Unminimize, WindowOp::Show],
        MenuAction::HideMainWindow => seq![WindowOp::Focus, WindowOp::Unminimize, WindowOp::Hide],
        _ => seq![],
    }
}

/// The window operations, in order, for a click on the tray icon.
pub open spec fn spec_tray_icon_ops(click: ClickKind) -> Seq<WindowOp> {
    match click {
        ClickKind::Left => seq![WindowOp::Unminimize, WindowOp::Show, WindowOp::Focus],
        _ => seq![],
    }
}

pub open spec fn spec_config_hotkey(config: TrayConfig) -> Option<Seq<char>> {
    match config.ocr_hotkey {
        Some(h) => Some(h@),
        None => None,
    }
}

impl TrayState {
    /// State at process start: not pinned, no handlers attached.
    pub fn new() -> (r: TrayState)
        ensures
            r == (TrayState { pinned: false, registered: false }),
    {
        TrayState { pinned: false, registered: false }
    }

    /// The main window was pinned or unpinned from the tray; `pinned` is the
    /// value that the window now has. Returns the payload to broadcast to the
    /// main window. The host then rebuilds the tray.
    pub fn pin_from_tray(&mut self, pinned: bool) -> (r: PinnedEventPayload)
        ensures
            r == (PinnedEventPayload { pinned }),
            *final(self) == spec_with_pinned(*old(self), pinned),
    {
        self.pinned = pinned;
        PinnedEventPayload { pinned }
    }

    /// The main window reports a new pinned value. The host then rebuilds the tray.
    pub fn pin_from_window(&mut self, payload: &PinnedEventPayload)
        ensures
            *final(self) == spec_with_pinned(*old(self), payload.pinned),
    {
        self.pinned = payload.pinned;
    }
}

/// Rebuilds the tray from the configuration (`Err` when it could not be
/// loaded) and the stored result of the last update check. The menu is built
/// whole from the configured hotkey, the update result and the pinned flag.
/// Handlers are to be attached only by the first successful refresh of the
/// process; later ones only replace the menu.
pub fn create_tray<E, T>(
    state: &mut TrayState,
    config: &Result<TrayConfig, E>,
    update_result: &Option<Option<T>>,
) -> (r: Result<TrayRefresh, TrayError>)
    ensures
        config is Err ==> r == Err::<TrayRefresh, TrayError>(TrayError::ConfigUnavailable),
        config is Err ==> *final(state) == *old(state),
        config is Ok <==> r is Ok,
        r is Ok ==> r->Ok_0.menu@ == spec_menu(
            spec_config_hotkey(config->Ok_0),
            spec_update_available(*update_result),
            old(state).pinned,
        ),
        r is Ok ==> r->Ok_0.attach_handlers == spec_attaches(*old(state)),
        r is Ok ==> *final(state) == spec_after_refresh(*old(state)),
{
    match config {
        Err(_) => Err(TrayError::ConfigUnavailable),
        Ok(c) => {
            let hotkey: Option<&str> = match &c.ocr_hotkey {
                Some(h) => Some(h.as_str()),
                None => None,
            };
            let menu = build_menu(hotkey, update_available(update_result), state.pinned);
            let attach_handlers = !state.registered;
            state.registered = true;
            Ok(TrayRefresh { menu, attach_handlers })
        },
    }
}

/// The action for a click on the menu entry whose key is `key`.
pub fn menu_action(key: &str) -> (r: MenuAction)
    ensures
        r == spec_menu_action(key@),
{
    match MenuItemId::from_key(key) {
        Some(MenuItemId::CheckForUpdates) => MenuAction::OpenUpdaterWindow,
        Some(MenuItemId::Settings) => MenuAction::OpenSettingsWindow,
        Some(MenuItemId::Ocr) => MenuAction::RunOcr,
        Some(MenuItemId::Show) => MenuAction::ShowMainWindow,
        Some(MenuItemId::Hide) => MenuAction::HideMainWindow,
        Some(MenuItemId::Pin) => MenuAction::TogglePin,
        Some(MenuItemId::Quit) => MenuAction::Exit(0),
        None => MenuAction::Ignore,
    }
}

/// The window operations, in order, that carry out `action`; none for
/// actions that leave the main window alone.
pub fn window_ops(action: MenuAction) -> (r: Vec<WindowOp>)
    ensures
        r@ == spec_window_ops(action),
{
    let r = match action {
        MenuAction::ShowMainWindow => vec![WindowOp::Focus, WindowOp::Unminimize, WindowOp::Show],
        MenuAction::HideMainWindow => vec![WindowOp::Focus, WindowOp::Unminimize, WindowOp::Hide],
        _ => Vec::new(),
    };
    assert(r@ =~= spec_window_ops(action));
    r
}

/// The window operations, in order, for a click on the tray icon: only a
/// left click brings the main window up.
pub fn tray_icon_ops(click: ClickKind) -> (r: Vec<WindowOp>)
    ensures
        r@ == spec_tray_icon_ops(click),
{
    let r = match click {
        ClickKind::Left => vec![WindowOp::Unminimize, WindowOp::Show, WindowOp::Focus],
        _ => Vec::new(),
    };
    assert(r@ =~= spec_tray_icon_ops(click));
    r
}

/// However often the tray is refreshed, the event handlers are attached once
/// in the process: by the first refresh when none were attached yet, and by
/// none of the later ones. So each click reaches one handler and runs one action.
pub proof fn lemma_handlers_attached_once(s: TrayState, n: nat)
    requires
        n >= 1,
    ensures
        spec_attachments(s, n) == (if s.registered {
            0nat
        } else {
            1nat
        }),
    decreases n,
{
    if n > 1 {
        lemma_handlers_attached_once(spec_after_refresh(s), (n - 1) as nat);
    } else {
        assert(spec_attachments(spec_after_refresh(s), 0) == 0);
    }
}

/// A pin toggled from the tray and fed back as the main window's event leaves
/// the same pinned value, whatever the state it is applied to, and applying it
/// a second time changes nothing.
pub proof fn lemma_pin_round_trip(s: TrayState, t: TrayState, pinned: bool)
    ensures
        ({
            let payload = PinnedEventPayload { pinned };
            let after_tray = spec_with_pinned(s, pinned);
            let once = spec_with_pinned(t, payload.pinned);
            &&& once.pinned == after_tray.pinned
            &&& once.registered == t.registered
            &&& spec_with_pinned(once, payload.pinned) == once
        }),
{
}

/// Quitting from the menu ends the process with exit code 0.
pub proof fn lemma_quit_exits_with_zero()
    ensures
        spec_menu_action("quit"@) == MenuAction::Exit(0),
{
    crate::menu::lemma_key_round_trip(MenuItemId::Quit);
}

} // verus!
