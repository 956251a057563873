use vstd::prelude::*;

use crate::filter::{FilterWindowState, FilterWindowView};

verus! {

/// The sample rate assumed until the graph reports one.
pub const DEFAULT_SAMPLE_RATE: u32 = 48000;

/// The PipeWire module that runs the EQ.
pub const FILTER_CHAIN_MODULE: &'static str = "libpipewire-module-filter-chain";

/// How many notifications may wait in the channel from the PipeWire thread.
pub const NOTIF_CHANNEL_CAPACITY: usize = 100;

/// What the application knows of the PipeWire graph: the sample rate and the EQ's node.
pub struct PipewireState {
    pub sample_rate: u32,
    pub active_node_id: Option<u32>,
}

impl PipewireState {
    /// The default sample rate and no EQ node yet.
    pub fn new() -> (s: PipewireState)
        ensures
            s.sample_rate == DEFAULT_SAMPLE_RATE,
            s.active_node_id.is_none(),
    {
        PipewireState { sample_rate: DEFAULT_SAMPLE_RATE, active_node_id: None }
    }

    /// The filter-chain module was loaded and its output node `node_id` found: it becomes
    /// the node updates go to, and the pending full update is taken for it. Returns whether
    /// a full update must be sent to `node_id`.
    pub fn module_loaded(&mut self, node_id: u32, filter: &mut FilterWindowState) -> (send_all: bool)
        ensures
            final(self).active_node_id == Some(node_id),
            final(self).sample_rate == old(self).sample_rate,
            send_all == old(filter)@.sync_all,
            final(filter)@ == old(filter)@.after_sync_all(),
    {
        self.active_node_id = Some(node_id);
        filter.take_sync_all()
    }
}

} // verus!
