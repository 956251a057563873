use vstd::prelude::*;

verus! {

/// Application id: Wayland app_id, X11 WM_CLASS and the tray item's id.
pub const APP_ID: &'static str = "pw-eq-imgui";

/// Window title and tray title.
pub const APP_TITLE: &'static str = "PipeWire Equalizer";

/// Icon of the tray item.
pub const ICON_NAME: &'static str = "audio-headphones";

/// Icon of the tray menu's quit entry.
pub const QUIT_ICON_NAME: &'static str = "application-exit";

/// What a click on the tray icon or one of its menu entries asks of the application.
#[derive(Debug, Clone, Copy, PartialEq, Eq, Structural)]
pub enum TrayEvent {
    ToggleWindow,
    ToggleBypass,
    Quit,
}

/// The state the tray icon shows: whether the window is up, whether the EQ is bypassed,
/// and the name of the loaded EQ.
pub struct Tray {
    pub window_shown: bool,
    pub bypass: bool,
    pub eq_name: String,
}

/// The kinds of entries in the tray menu.
#[derive(Debug, Clone, Copy, PartialEq, Eq, Structural)]
pub enum MenuEntryKind {
    Standard,
    Checkmark,
    Separator,
}

/// One entry of the tray menu, as plain values.
pub struct MenuEntry {
    pub kind: MenuEntryKind,
    pub label: String,
    pub icon_name: String,
    pub checked: bool,
    pub event: Option<TrayEvent>,
}

/// The tool tip's description for an EQ named `eq_name`.
pub open spec fn tool_tip_text(eq_name: Seq<char>, bypass: bool) -> Seq<char> {
    if eq_name.len() == 0 {
        "No EQ loaded"@
    } else if bypass {
        eq_name + " (bypassed)"@
    } else {
        eq_name
    }
}

/// The label of the menu entry that shows or hides the window.
pub open spec fn window_label(window_shown: bool) -> Seq<char> {
    if window_shown {
        "Hide"@
    } else {
        "Show"@
    }
}

impl Tray {
    /// A tray for a window that is shown or not, with no EQ loaded and no bypass.
    pub fn new(window_shown: bool) -> (t: Tray)
        ensures
            t.window_shown == window_shown,
            !t.bypass,
            t.eq_name@ == Seq::<char>::empty(),
    {
        Tray { window_shown, bypass: false, eq_name: String::new() }
    }

    /// The description in the tool tip.
    pub fn tool_tip_description(&self) -> (d: String)
        ensures
            d@ == tool_tip_text(self.eq_name@, self.bypass),
    {
        if self.eq_name.unicode_len() == 0 {
            String::from_str("No EQ loaded")
        } else if self.bypass {
            let mut d = self.eq_name.clone();
            d.append(" (bypassed)");
            d
        } else {
            self.eq_name.clone()
        }
    }

    /// A left click on the icon toggles the window.
    pub fn activate(&self) -> (e: TrayEvent)
        ensures
            e == TrayEvent::ToggleWindow,
    {
        TrayEvent::ToggleWindow
    }

    /// A middle click on the icon toggles the bypass.
    pub fn secondary_activate(&self) -> (e: TrayEvent)
        ensures
            e == TrayEvent::ToggleBypass,
    {
        TrayEvent::ToggleBypass
    }

    /// The tray menu: show/hide, a bypass checkmark, a separator and quit.
    pub fn menu(&self) -> (m: Vec<MenuEntry>)
        ensures
            m@.len() == 4,
            m@[0].kind == MenuEntryKind::Standard,
            m@[0].label@ == window_label(self.window_shown),
            m@[0].icon_name@ == Seq::<char>::empty(),
            !m@[0].checked,
            m@[0].event == Some(TrayEvent::ToggleWindow),
            m@[1].kind == MenuEntryKind::Checkmark,
            m@[1].label@ == "Bypass"@,
            m@[1].icon_name@ == Seq::<char>::empty(),
            m@[1].checked == self.bypass,
            m@[1].event == Some(TrayEvent::ToggleBypass),
            m@[2].kind == MenuEntryKind::Separator,
            m@[2].label@ == Seq::<char>::empty(),
            m@[2].icon_name@ == Seq::<char>::empty(),
            !m@[2].checked,
            m@[2].event.is_none(),
            m@[3].kind == MenuEntryKind::Standard,
            m@[3].label@ == "Quit"@,
            m@[3].icon_name@ == QUIT_ICON_NAME@,
            !m@[3].checked,
            m@[3].event == Some(TrayEvent::Quit),
    {
        let label = if self.window_shown {
            String::from_str("Hide")
        } else {
            String::from_str("Show")
        };
        let mut m: Vec<MenuEntry> = Vec::new();
        m.push(
            MenuEntry {
                kind: MenuEntryKind::Standard,
                label,
                icon_name: String::new(),
                checked: false,
                event: Some(TrayEvent::ToggleWindow),
            },
        );
        m.push(
            MenuEntry {
                kind: MenuEntryKind::Checkmark,
                label: String::from_str("Bypass"),
                icon_name: String::new(),
                checked: self.bypass,
                event: Some(TrayEvent::ToggleBypass),
            },
        );
        m.push(
            MenuEntry {
                kind: MenuEntryKind::Separator,
                label: String::new(),
                icon_name: String::new(),
                checked: false,
                event: None,
            },
        );
        m.push(
            MenuEntry {
                kind: MenuEntryKind::Standard,
                label: String::from_str("Quit"),
                icon_name: String::from_str(QUIT_ICON_NAME),
                checked: false,
                event: Some(TrayEvent::Quit),
            },
        );
        m
    }
}

} // verus!
