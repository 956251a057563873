use vstd::prelude::*;

use crate::filter::{FilterWindowState, FilterWindowView};
use crate::tray::{Tray, TrayEvent};

verus! {

/// Frames drawn after an event so that hover, focus and auto-resize state settles.
pub const SETTLE_FRAMES: u8 = 2;

/// Actions requested from inside a frame (menu items, shortcuts, closing the window).
#[derive(Debug, Clone, Copy, PartialEq, Eq, Structural)]
pub enum Action {
    HideWindow,
    Quit,
}

/// What the application does with the window or itself in answer to an action or a tray
/// event.
#[derive(Debug, Clone, Copy, PartialEq, Eq, Structural)]
pub enum Response {
    HideWindow,
    ShowWindow,
    ToggleBypass,
    Quit,
}

/// The window events the application tells apart.
#[derive(Debug, Clone, Copy, PartialEq, Eq, Structural)]
pub enum WindowEventKind {
    Resized { width: u32, height: u32 },
    CloseRequested,
    Keyboard { pressed: bool, repeat: bool, escape: bool },
    RedrawRequested,
    Destroyed,
    Other,
}

/// What a window event asks for.
#[derive(Debug, Clone, Copy, PartialEq, Eq, Structural)]
pub enum WindowResponse {
    /// Resize the surface (when `resize_surface`) and settle.
    Resize { resize_surface: bool },
    /// Act on the action.
    Act(Action),
    /// Draw a frame.
    Render,
    /// Let the interface settle.
    Settle,
    /// Nothing.
    Ignore,
}

/// The keys held with Ctrl in a frame, for the global shortcuts.
#[derive(Debug, Clone, Copy, PartialEq, Eq, Structural)]
pub struct Shortcuts {
    pub ctrl: bool,
    pub toggle_autoeq: bool,
    pub toggle_filter: bool,
    pub hide: bool,
    pub quit: bool,
}

/// The updates to send to PipeWire.
#[derive(Debug, Clone, Copy, PartialEq, Eq, Structural)]
pub struct SyncPlan {
    /// Load the filter-chain module anew (the band count changed).
    pub load_module: bool,
    /// Send every filter to this node.
    pub update_all: Option<u32>,
    /// Send the preamp to this node.
    pub update_preamp: Option<u32>,
}

/// The decisions of the application around its window, tray icon and redraws.
pub struct AppState {
    start_hidden: bool,
    tray_available: bool,
    initialized: bool,
    window_shown: bool,
    exiting: bool,
    settle_frames: u8,
    pending_action: Option<Action>,
    tray_state: Option<(bool, bool, String)>,
}

/// The model of an [`AppState`].
pub struct AppView {
    /// Start with only the tray icon.
    pub start_hidden: bool,
    /// A tray icon exists.
    pub tray_available: bool,
    /// The window, GL context, ImGui and PipeWire were set up.
    pub initialized: bool,
    /// An OS window exists.
    pub window_shown: bool,
    /// The application is shutting down.
    pub exiting: bool,
    /// Frames still to draw after the last event.
    pub settle_frames: u8,
    /// The action a frame asked for, done after the frame.
    pub pending_action: Option<Action>,
    /// The last (window shown, bypass, EQ name) pushed to the tray.
    pub tray_state: Option<(bool, bool, Seq<char>)>,
}

impl View for AppState {
    type V = AppView;

    closed spec fn view(&self) -> AppView {
        AppView {
            start_hidden: self.start_hidden,
            tray_available: self.tray_available,
            initialized: self.initialized,
            window_shown: self.window_shown,
            exiting: self.exiting,
            settle_frames: self.settle_frames,
            pending_action: self.pending_action,
            tray_state: match self.tray_state {
                Some(t) => Some((t.0, t.1, t.2@)),
                None => None,
            },
        }
    }
}

impl AppView {
    /// The states the application can be in: it starts hidden only with a tray icon; a
    /// running application without a window always has a tray icon to bring it back; there
    /// is no window before setup; and no settle frames are owed without a window.
    pub open spec fn wf(self) -> bool {
        &&& self.start_hidden ==> self.tray_available
        &&& (self.initialized && !self.exiting && !self.window_shown) ==> self.tray_available
        &&& !self.initialized ==> !self.window_shown
        &&& !self.window_shown ==> self.settle_frames == 0
    }

    /// The state after a redraw with `settle` settle frames was asked for.
    pub open spec fn after_redraw_request(self, settle: u8) -> AppView {
        if self.window_shown {
            AppView {
                settle_frames: if self.settle_frames >= settle {
                    self.settle_frames
                } else {
                    settle
                },
                ..self
            }
        } else {
            self
        }
    }

    /// The state after the window was destroyed.
    pub open spec fn after_hide(self) -> AppView {
        AppView { window_shown: false, settle_frames: 0, ..self }
    }

    /// The answer to `action`: hiding needs a tray icon to come back from; without one, and
    /// for a quit, the application quits.
    pub open spec fn action_response(self, action: Action) -> Response {
        if action == Action::HideWindow && self.tray_available {
            Response::HideWindow
        } else {
            Response::Quit
        }
    }

    /// The answer to a tray event.
    pub open spec fn tray_response(self, event: TrayEvent) -> Response {
        match event {
            TrayEvent::ToggleWindow => if self.window_shown {
                Response::HideWindow
            } else {
                Response::ShowWindow
            },
            TrayEvent::ToggleBypass => Response::ToggleBypass,
            TrayEvent::Quit => Response::Quit,
        }
    }

    /// The state after answering with `response`: a quit starts the shutdown.
    pub open spec fn after_response(self, response: Response) -> AppView {
        if response == Response::Quit {
            AppView { exiting: true, ..self }
        } else {
            self
        }
    }

    /// What the tray shows for `bypass` and `eq_name` in this state.
    pub open spec fn tray_snapshot(self, bypass: bool, eq_name: Seq<char>) -> (bool, bool, Seq<char>) {
        (self.window_shown, bypass, eq_name)
    }

    /// Whether the tray must be told about `bypass` and `eq_name`: there is a tray and a set
    /// up application, and what it shows differs from what it was last told.
    pub open spec fn tray_push_needed(self, bypass: bool, eq_name: Seq<char>) -> bool {
        self.tray_available && self.initialized && self.tray_state != Some(
            self.tray_snapshot(bypass, eq_name),
        )
    }

    /// The state after the tray was (or was not) told about `bypass` and `eq_name`.
    pub open spec fn after_tray_sync(self, bypass: bool, eq_name: Seq<char>) -> AppView {
        if self.tray_push_needed(bypass, eq_name) {
            AppView { tray_state: Some(self.tray_snapshot(bypass, eq_name)), ..self }
        } else {
            self
        }
    }

    /// The state after the global shortcuts `keys` were read.
    pub open spec fn after_shortcuts(self, keys: Shortcuts) -> AppView {
        if !keys.ctrl {
            self
        } else if keys.quit {
            AppView { pending_action: Some(Action::Quit), ..self }
        } else if keys.hide && self.tray_available {
            AppView { pending_action: Some(Action::HideWindow), ..self }
        } else {
            self
        }
    }
}

/// The answer to a window event.
pub open spec fn window_response(kind: WindowEventKind) -> WindowResponse {
    match kind {
        WindowEventKind::Resized { width, height } => WindowResponse::Resize {
            resize_surface: width > 0 && height > 0,
        },
        WindowEventKind::CloseRequested => WindowResponse::Act(Action::HideWindow),
        WindowEventKind::Keyboard { pressed, repeat, escape } => if pressed && !repeat && escape {
            WindowResponse::Act(Action::HideWindow)
        } else {
            WindowResponse::Settle
        },
        WindowEventKind::RedrawRequested => WindowResponse::Render,
        WindowEventKind::Destroyed => WindowResponse::Ignore,
        WindowEventKind::Other => WindowResponse::Settle,
    }
}

/// What a window event asks for: a resize of a non-empty size resizes the surface; closing
/// the window or pressing Escape (not a repeat) hides it; a redraw request draws a frame;
/// the window's destruction asks nothing; anything else lets the interface settle.
pub fn respond_to_window_event(kind: WindowEventKind) -> (r: WindowResponse)
    ensures
        r == window_response(kind),
{
    match kind {
        WindowEventKind::Resized { width, height } => WindowResponse::Resize {
            resize_surface: width > 0 && height > 0,
        },
        WindowEventKind::CloseRequested => WindowResponse::Act(Action::HideWindow),
        WindowEventKind::Keyboard { pressed, repeat, escape } => {
            if pressed && !repeat && escape {
                WindowResponse::Act(Action::HideWindow)
            } else {
                WindowResponse::Settle
            }
        },
        WindowEventKind::RedrawRequested => WindowResponse::Render,
        WindowEventKind::Destroyed => WindowResponse::Ignore,
        WindowEventKind::Other => WindowResponse::Settle,
    }
}

/// The updates that pending changes ask of PipeWire: a module load when the band count
/// `bands` changed, and, when a node `active_node` is known, the pending full and preamp
/// updates (which are kept pending while no node is known).
pub fn sync_pipewire(filter: &mut FilterWindowState, bands: usize, active_node: Option<u32>) -> (plan: SyncPlan)
    ensures
        plan.load_module == old(filter)@.module_load_needed(bands),
        match active_node {
            Some(node) => {
                &&& plan.update_all == (if old(filter)@.sync_all {
                    Some(node)
                } else {
                    None
                })
                &&& plan.update_preamp == (if old(filter)@.sync_preamp {
                    Some(node)
                } else {
                    None
                })
                &&& final(filter)@ == old(filter)@.after_module_check(
                    bands,
                ).after_sync_all().after_sync_preamp()
            },
            None => {
                &&& plan.update_all.is_none()
                &&& plan.update_preamp.is_none()
                &&& final(filter)@ == old(filter)@.after_module_check(bands)
            },
        },
{
    let load_module = filter.need_module_load(bands);
    match active_node {
        Some(node) => {
            let all = filter.take_sync_all();
            let preamp = filter.take_sync_preamp();
            SyncPlan {
                load_module,
                update_all: if all {
                    Some(node)
                } else {
                    None
                },
                update_preamp: if preamp {
                    Some(node)
                } else {
                    None
                },
            }
        },
        None => SyncPlan { load_module, update_all: None, update_preamp: None },
    }
}

impl AppState {
    /// A state before setup. Starting hidden is only honoured with a tray icon: without one
    /// the window could never be brought back.
    pub fn new(start_hidden: bool, tray_available: bool) -> (s: AppState)
        ensures
            s@ == (AppView {
                start_hidden: start_hidden && tray_available,
                tray_available,
                initialized: false,
                window_shown: false,
                exiting: false,
                settle_frames: 0,
                pending_action: None,
                tray_state: None,
            }),
            s@.wf(),
    {
        AppState {
            start_hidden: start_hidden && tray_available,
            tray_available,
            initialized: false,
            window_shown: false,
            exiting: false,
            settle_frames: 0,
            pending_action: None,
            tray_state: None,
        }
    }

    /// Whether the application starts with only the tray icon.
    pub fn start_hidden(&self) -> (b: bool)
        ensures
            b == self@.start_hidden,
    {
        self.start_hidden
    }

    /// Whether there is a tray icon.
    pub fn tray_available(&self) -> (b: bool)
        ensures
            b == self@.tray_available,
    {
        self.tray_available
    }

    /// Whether the setup ran.
    pub fn initialized(&self) -> (b: bool)
        ensures
            b == self@.initialized,
    {
        self.initialized
    }

    /// Whether an OS window exists.
    pub fn window_shown(&self) -> (b: bool)
        ensures
            b == self@.window_shown,
    {
        self.window_shown
    }

    /// Whether the application is shutting down.
    pub fn exiting(&self) -> (b: bool)
        ensures
            b == self@.exiting,
    {
        self.exiting
    }

    /// The frames still to draw.
    pub fn settle_frames(&self) -> (n: u8)
        ensures
            n == self@.settle_frames,
    {
        self.settle_frames
    }

    /// The setup (window, GL context, ImGui, PipeWire) succeeded: the window exists.
    pub fn init_succeeded(&mut self)
        requires
            old(self)@.wf(),
            !old(self)@.initialized,
        ensures
            final(self)@ == (AppView { initialized: true, window_shown: true, ..old(self)@ }),
            final(self)@.wf(),
    {
        self.initialized = true;
        self.window_shown = true;
    }

    /// The setup failed: the application exits.
    pub fn init_failed(&mut self)
        requires
            old(self)@.wf(),
        ensures
            final(self)@ == (AppView { exiting: true, ..old(self)@ }),
            final(self)@.wf(),
    {
        self.exiting = true;
    }

    /// A redraw with `settle` frames to follow is asked for. Returns whether there is a
    /// window to ask it of; the frames owed become the larger of the two counts.
    pub fn request_redraw(&mut self, settle: u8) -> (ask_window: bool)
        requires
            old(self)@.wf(),
        ensures
            ask_window == old(self)@.window_shown,
            final(self)@ == old(self)@.after_redraw_request(settle),
            final(self)@.wf(),
    {
        if self.window_shown {
            if self.settle_frames < settle {
                self.settle_frames = settle;
            }
            true
        } else {
            false
        }
    }

    /// The window is to be destroyed (hidden to the tray, or on the way out). Returns
    /// whether there was one; no frames are owed afterwards.
    pub fn hide_window(&mut self) -> (had_window: bool)
        requires
            old(self)@.wf(),
            old(self)@.tray_available || old(self)@.exiting,
        ensures
            had_window == old(self)@.window_shown,
            final(self)@ == (if had_window {
                old(self)@.after_hide()
            } else {
                old(self)@
            }),
            final(self)@.wf(),
    {
        if !self.window_shown {
            return false;
        }
        self.window_shown = false;
        self.settle_frames = 0;
        true
    }

    /// A window is to be shown: whether one must be created.
    pub fn show_window(&self) -> (create: bool)
        ensures
            create == !self@.window_shown,
    {
        !self.window_shown
    }

    /// A window was created again: it owes the settle frames and one more.
    pub fn window_created(&mut self)
        requires
            old(self)@.wf(),
            old(self)@.initialized,
        ensures
            final(self)@ == (AppView { window_shown: true, ..old(self)@ }).after_redraw_request(
                (SETTLE_FRAMES + 1) as u8,
            ),
            final(self)@.wf(),
    {
        self.window_shown = true;
        let _ = self.request_redraw(SETTLE_FRAMES + 1);
    }

    /// The answer to `action`; a quit starts the shutdown.
    pub fn handle_action(&mut self, action: Action) -> (r: Response)
        requires
            old(self)@.wf(),
        ensures
            r == old(self)@.action_response(action),
            final(self)@ == old(self)@.after_response(r),
            final(self)@.wf(),
    {
        let r = match action {
            Action::HideWindow => if self.tray_available {
                Response::HideWindow
            } else {
                Response::Quit
            },
            Action::Quit => Response::Quit,
        };
        if r == Response::Quit {
            self.exiting = true;
        }
        r
    }

    /// The answer to an event from the tray icon (which exists, as it sent the event); a
    /// quit starts the shutdown.
    pub fn handle_tray_event(&mut self, event: TrayEvent) -> (r: Response)
        requires
            old(self)@.wf(),
            old(self)@.tray_available,
        ensures
            r == old(self)@.tray_response(event),
            final(self)@ == old(self)@.after_response(r),
            final(self)@.wf(),
    {
        let r = match event {
            TrayEvent::ToggleWindow => if self.window_shown {
                Response::HideWindow
            } else {
                Response::ShowWindow
            },
            TrayEvent::ToggleBypass => Response::ToggleBypass,
            TrayEvent::Quit => Response::Quit,
        };
        if r == Response::Quit {
            self.exiting = true;
        }
        r
    }

    /// A frame asked for `action` (a later request in the same frame replaces it).
    pub fn request_action(&mut self, action: Action)
        requires
            old(self)@.wf(),
        ensures
            final(self)@ == (AppView { pending_action: Some(action), ..old(self)@ }),
            final(self)@.wf(),
    {
        self.pending_action = Some(action);
    }

    /// Applies the global shortcuts of a frame: with Ctrl, A and F toggle the AutoEQ and
    /// filter windows, H hides to the tray when there is one, and Q quits (over H).
    pub fn apply_shortcuts(&mut self, keys: Shortcuts, show_autoeq: &mut bool, show_filter: &mut bool)
        requires
            old(self)@.wf(),
        ensures
            *final(show_autoeq) == (if keys.ctrl && keys.toggle_autoeq {
                !*old(show_autoeq)
            } else {
                *old(show_autoeq)
            }),
            *final(show_filter) == (if keys.ctrl && keys.toggle_filter {
                !*old(show_filter)
            } else {
                *old(show_filter)
            }),
            final(self)@ == old(self)@.after_shortcuts(keys),
            final(self)@.wf(),
    {
        if keys.ctrl {
            if keys.toggle_autoeq {
                *show_autoeq = !*show_autoeq;
            }
            if keys.toggle_filter {
                *show_filter = !*show_filter;
            }
            if self.tray_available && keys.hide {
                self.pending_action = Some(Action::HideWindow);
            }
            if keys.quit {
                self.pending_action = Some(Action::Quit);
            }
        }
    }

    /// Takes the action the last frame asked for.
    pub fn take_pending_action(&mut self) -> (a: Option<Action>)
        requires
            old(self)@.wf(),
        ensures
            a == old(self)@.pending_action,
            final(self)@ == (AppView { pending_action: None, ..old(self)@ }),
            final(self)@.wf(),
    {
        self.pending_action.take()
    }

    /// One owed frame was drawn: the count drops by one, and the window is asked for the
    /// next frame while frames are owed.
    pub fn settle_step(&mut self) -> (redraw: bool)
        requires
            old(self)@.wf(),
        ensures
            redraw == (old(self)@.settle_frames > 0),
            final(self)@ == (AppView {
                settle_frames: if old(self)@.settle_frames > 0 {
                    (old(self)@.settle_frames - 1) as u8
                } else {
                    0
                },
                ..old(self)@
            }),
            final(self)@.wf(),
    {
        if self.settle_frames > 0 {
            self.settle_frames = self.settle_frames - 1;
            true
        } else {
            false
        }
    }

    /// What the tray must be told: the window's state, `bypass` and `eq_name`, when there
    /// is a tray and it shows something else; nothing otherwise.
    pub fn sync_tray(&mut self, bypass: bool, eq_name: &String) -> (update: Option<Tray>)
        requires
            old(self)@.wf(),
        ensures
            match update {
                Some(t) => {
                    &&& old(self)@.tray_push_needed(bypass, eq_name@)
                    &&& t.window_shown == old(self)@.window_shown
                    &&& t.bypass == bypass
                    &&& t.eq_name@ == eq_name@
                },
                None => !old(self)@.tray_push_needed(bypass, eq_name@),
            },
            final(self)@ == old(self)@.after_tray_sync(bypass, eq_name@),
            final(self)@.wf(),
    {
        if !self.tray_available || !self.initialized {
            return None;
        }
        let same = match &self.tray_state {
            Some(t) => t.0 == self.window_shown && t.1 == bypass && t.2 == *eq_name,
            None => false,
        };
        if same {
            return None;
        }
        self.tray_state = Some((self.window_shown, bypass, eq_name.clone()));
        Some(Tray { window_shown: self.window_shown, bypass, eq_name: eq_name.clone() })
    }
}

} // verus!
