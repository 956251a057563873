use vstd::prelude::*;

verus! {

/// The integer and flag state of the filter window: what it shows, whether the EQ is
/// bypassed, and which updates to PipeWire are pending.
pub struct FilterWindowState {
    pub show_window: bool,
    bypass: bool,
    preamp_enable: bool,
    should_sync_all: bool,
    should_sync_preamp: bool,
    prev_bands: Option<usize>,
    sample_rate: u32,
}

/// The model of a [`FilterWindowState`].
pub struct FilterWindowView {
    pub show_window: bool,
    pub bypass: bool,
    pub preamp_enable: bool,
    /// A full update of every filter is due.
    pub sync_all: bool,
    /// An update of the preamp is due.
    pub sync_preamp: bool,
    /// The band count the filter-chain module was last loaded with.
    pub prev_bands: Option<usize>,
    pub sample_rate: u32,
}

impl View for FilterWindowState {
    type V = FilterWindowView;

    closed spec fn view(&self) -> FilterWindowView {
        FilterWindowView {
            show_window: self.show_window,
            bypass: self.bypass,
            preamp_enable: self.preamp_enable,
            sync_all: self.should_sync_all,
            sync_preamp: self.should_sync_preamp,
            prev_bands: self.prev_bands,
            sample_rate: self.sample_rate,
        }
    }
}

impl FilterWindowView {
    /// The state of a new window at `sample_rate`.
    pub open spec fn initial(sample_rate: u32) -> FilterWindowView {
        FilterWindowView {
            show_window: true,
            bypass: false,
            preamp_enable: true,
            sync_all: false,
            sync_preamp: false,
            prev_bands: None,
            sample_rate,
        }
    }

    /// The state after the bypass switch was set to `bypass` while the EQ's own bypass
    /// flag was `eq_bypassed`: a full update is scheduled only when the EQ changes.
    pub open spec fn with_bypass(self, bypass: bool, eq_bypassed: bool) -> FilterWindowView {
        FilterWindowView { bypass, sync_all: self.sync_all || eq_bypassed != bypass, ..self }
    }

    /// Whether the filter-chain module must be (re)loaded for `bands` bands.
    pub open spec fn module_load_needed(self, bands: usize) -> bool {
        self.prev_bands != Some(bands)
    }

    /// The state after the module was checked against `bands` bands.
    pub open spec fn after_module_check(self, bands: usize) -> FilterWindowView {
        FilterWindowView { prev_bands: Some(bands), ..self }
    }

    /// The state after the pending full update was taken.
    pub open spec fn after_sync_all(self) -> FilterWindowView {
        FilterWindowView { sync_all: false, ..self }
    }

    /// The state after the pending preamp update was taken.
    pub open spec fn after_sync_preamp(self) -> FilterWindowView {
        FilterWindowView { sync_preamp: false, ..self }
    }

    /// The state after the filters changed: a full update is due.
    pub open spec fn after_filters_changed(self) -> FilterWindowView {
        FilterWindowView { sync_all: true, ..self }
    }

    /// The state after the preamp changed: a preamp update is due.
    pub open spec fn after_preamp_changed(self) -> FilterWindowView {
        FilterWindowView { sync_preamp: true, ..self }
    }
}

/// One call on a [`FilterWindowState`] that changes it, with its arguments (for
/// `set_bypass`, the EQ's bypass flag at the time of the call).
pub enum FilterOp {
    SetBypass { bypass: bool, eq_bypassed: bool },
    ToggleBypass { eq_bypassed: bool },
    ModuleCheck { bands: usize },
    TakeSyncAll,
    TakeSyncPreamp,
    FiltersChanged,
    PreampChanged,
    PreampToggled { enable: bool },
    SetSampleRate { sample_rate: u32 },
    SetShowWindow { show: bool },
}

impl FilterWindowView {
    /// The state after `op`, as the method that makes the call states it.
    pub open spec fn step(self, op: FilterOp) -> FilterWindowView {
        match op {
            FilterOp::SetBypass { bypass, eq_bypassed } => self.with_bypass(bypass, eq_bypassed),
            FilterOp::ToggleBypass { eq_bypassed } => self.with_bypass(!self.bypass, eq_bypassed),
            FilterOp::ModuleCheck { bands } => self.after_module_check(bands),
            FilterOp::TakeSyncAll => self.after_sync_all(),
            FilterOp::TakeSyncPreamp => self.after_sync_preamp(),
            FilterOp::FiltersChanged => self.after_filters_changed(),
            FilterOp::PreampChanged => self.after_preamp_changed(),
            FilterOp::PreampToggled { enable } => FilterWindowView {
                preamp_enable: enable,
                ..self.after_preamp_changed()
            },
            FilterOp::SetSampleRate { sample_rate } => FilterWindowView { sample_rate, ..self },
            FilterOp::SetShowWindow { show } => FilterWindowView { show_window: show, ..self },
        }
    }

    /// The state after the calls `ops`, in order.
    pub open spec fn run(self, ops: Seq<FilterOp>) -> FilterWindowView
        decreases ops.len(),
    {
        if ops.len() == 0 {
            self
        } else {
            self.run(ops.drop_last()).step(ops.last())
        }
    }
}

/// The bypass that the calls `ops` leave, if one of them sets or toggles it: `start` is the
/// bypass before the calls.
pub open spec fn bypass_after(start: bool, ops: Seq<FilterOp>) -> bool
    decreases ops.len(),
{
    if ops.len() == 0 {
        start
    } else {
        match ops.last() {
            FilterOp::SetBypass { bypass, .. } => bypass,
            FilterOp::ToggleBypass { .. } => !bypass_after(start, ops.drop_last()),
            _ => bypass_after(start, ops.drop_last()),
        }
    }
}

/// The last value that a `SetBypass` among `ops` sets, if there is one.
pub open spec fn last_set_bypass(ops: Seq<FilterOp>) -> Option<bool>
    decreases ops.len(),
{
    if ops.len() == 0 {
        None
    } else {
        match ops.last() {
            FilterOp::SetBypass { bypass, .. } => Some(bypass),
            _ => last_set_bypass(ops.drop_last()),
        }
    }
}

/// The bypass a frame asks for: the checkbox's state, flipped by Ctrl+B.
pub open spec fn requested_bypass(checked: bool, ctrl: bool, key_b: bool) -> bool {
    if ctrl && key_b {
        !checked
    } else {
        checked
    }
}

/// The bypass a frame asks for, from the checkbox's state and the Ctrl+B shortcut.
pub fn bypass_request(checked: bool, ctrl: bool, key_b: bool) -> (b: bool)
    ensures
        b == requested_bypass(checked, ctrl, key_b),
{
    if ctrl && key_b {
        !checked
    } else {
        checked
    }
}

/// The filter table row under the mouse, from the table's hovered row (the header is
/// row 0, and a negative row means none).
pub open spec fn hovered_filter(hovered_row: i32) -> Option<usize> {
    if hovered_row > 0 {
        Some((hovered_row - 1) as usize)
    } else {
        None
    }
}

/// The filter that the table row `hovered_row` shows, if any.
pub fn hovered_selection(hovered_row: i32) -> (r: Option<usize>)
    ensures
        r == hovered_filter(hovered_row),
{
    if hovered_row > 0 {
        Some((hovered_row - 1) as usize)
    } else {
        None
    }
}

impl FilterWindowState {
    /// A shown window at `sample_rate`, not bypassed, preamp enabled, nothing pending.
    pub fn new(sample_rate: u32) -> (s: FilterWindowState)
        ensures
            s@ == FilterWindowView::initial(sample_rate),
    {
        FilterWindowState {
            show_window: true,
            bypass: false,
            preamp_enable: true,
            should_sync_all: false,
            should_sync_preamp: false,
            prev_bands: None,
            sample_rate,
        }
    }

    /// Whether the EQ is bypassed.
    pub fn bypass(&self) -> (b: bool)
        ensures
            b == self@.bypass,
    {
        self.bypass
    }

    /// Sets the bypass switch and the EQ's bypass flag `eq_bypassed`, and schedules a full
    /// filter update when the EQ's flag changes (nothing is scheduled if unchanged).
    pub fn set_bypass(&mut self, bypass: bool, eq_bypassed: &mut bool)
        ensures
            final(self)@ == old(self)@.with_bypass(bypass, *old(eq_bypassed)),
            *final(eq_bypassed) == bypass,
    {
        self.bypass = bypass;
        if *eq_bypassed != bypass {
            *eq_bypassed = bypass;
            self.should_sync_all = true;
        }
    }

    /// Flips the bypass (the tray's middle click and its bypass entry), with the EQ's bypass
    /// flag `eq_bypassed` following it.
    pub fn toggle_bypass(&mut self, eq_bypassed: &mut bool)
        ensures
            final(self)@ == old(self)@.step(FilterOp::ToggleBypass { eq_bypassed: *old(eq_bypassed) }),
            final(self)@.bypass == !old(self)@.bypass,
            *final(eq_bypassed) == !old(self)@.bypass,
    {
        let bypass = !self.bypass;
        self.set_bypass(bypass, eq_bypassed);
    }

    /// Whether the filter-chain module must be loaded for an EQ of `bands` bands; remembers
    /// `bands`, so that the same count asks for no second load.
    pub fn need_module_load(&mut self, bands: usize) -> (r: bool)
        ensures
            r == old(self)@.module_load_needed(bands),
            final(self)@ == old(self)@.after_module_check(bands),
    {
        if self.prev_bands != Some(bands) {
            self.prev_bands = Some(bands);
            return true;
        }
        false
    }

    /// Takes the pending full filter update: whether one is due, which is then cleared.
    pub fn take_sync_all(&mut self) -> (r: bool)
        ensures
            r == old(self)@.sync_all,
            final(self)@ == old(self)@.after_sync_all(),
    {
        let r = self.should_sync_all;
        self.should_sync_all = false;
        r
    }

    /// Takes the pending preamp update: whether one is due, which is then cleared.
    pub fn take_sync_preamp(&mut self) -> (r: bool)
        ensures
            r == old(self)@.sync_preamp,
            final(self)@ == old(self)@.after_sync_preamp(),
    {
        let r = self.should_sync_preamp;
        self.should_sync_preamp = false;
        r
    }

    /// Records that the filters changed (a new EQ, or an edit in the table).
    pub fn filters_changed(&mut self)
        ensures
            final(self)@ == old(self)@.after_filters_changed(),
    {
        self.should_sync_all = true;
    }

    /// Records that the preamp slider moved.
    pub fn preamp_changed(&mut self)
        ensures
            final(self)@ == old(self)@.after_preamp_changed(),
    {
        self.should_sync_preamp = true;
    }

    /// Whether the preamp is enabled.
    pub fn preamp_enable(&self) -> (b: bool)
        ensures
            b == self@.preamp_enable,
    {
        self.preamp_enable
    }

    /// Records that the preamp checkbox was toggled to `enable`, schedules a preamp update,
    /// and says whether the EQ's preamp follows the slider (`true`) or is zero (`false`).
    pub fn preamp_enable_toggled(&mut self, enable: bool) -> (follow_slider: bool)
        ensures
            follow_slider == enable,
            final(self)@ == (FilterWindowView {
                preamp_enable: enable,
                ..old(self)@.after_preamp_changed()
            }),
    {
        self.preamp_enable = enable;
        self.should_sync_preamp = true;
        enable
    }

    /// The sample rate that updates are computed for.
    pub fn sample_rate(&self) -> (r: u32)
        ensures
            r == self@.sample_rate,
    {
        self.sample_rate
    }

    /// Follows the graph's sample rate.
    pub fn set_sample_rate(&mut self, sample_rate: u32)
        ensures
            final(self)@ == (FilterWindowView { sample_rate, ..old(self)@ }),
    {
        self.sample_rate = sample_rate;
    }
}

} // verus!
