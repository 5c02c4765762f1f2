//! The records that the tools report.

use vstd::prelude::*;

verus! {

/// Scene information returned from `list_scenes`.
#[derive(Debug, Clone)]
pub struct SceneInfo {
    pub index: u32,
    pub name: String,
}

/// Device information returned from `list_devices`.
#[derive(Debug, Clone)]
pub struct DeviceInfo {
    pub index: u32,
    pub name: String,
    pub class_name: String,
}

/// Track capability information.
#[derive(Debug, Clone)]
pub struct TrackCapabilities {
    pub can_be_armed: bool,
    pub has_audio_input: bool,
    pub has_audio_output: bool,
    pub has_midi_input: bool,
    pub has_midi_output: bool,
    pub is_foldable: bool,
    pub is_grouped: bool,
    pub is_visible: bool,
}

/// Routing options for a track.
#[derive(Debug, Clone)]
pub struct RoutingOptions {
    pub available_types: Vec<String>,
    pub available_channels: Vec<String>,
    pub current_type: String,
    pub current_channel: String,
}

} // verus!
