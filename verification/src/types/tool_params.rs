//! The inputs of the tools that take parameters.
//!
//! One struct per shape of input. Indices are 0-based and count from the
//! left or the top of the Live set.

use vstd::prelude::*;

verus! {

/// Parameters for `set_metronome` tool.
#[derive(Debug)]
pub struct SetMetronomeParams {
    /// Whether to enable the metronome.
    pub enabled: bool,
}

/// Parameters for tools that only require a track index.
#[derive(Debug)]
pub struct TrackParams {
    /// Track index (0-based).
    pub track: u32,
}

/// Parameters for `mute_track` tool.
#[derive(Debug)]
pub struct MuteTrackParams {
    /// Track index (0-based).
    pub track: u32,
    /// Whether to mute the track.
    pub mute: bool,
}

/// Parameters for `solo_track` tool.
#[derive(Debug)]
pub struct SoloTrackParams {
    /// Track index (0-based).
    pub track: u32,
    /// Whether to solo the track.
    pub solo: bool,
}

/// Parameters for `arm_track` tool.
#[derive(Debug)]
pub struct ArmTrackParams {
    /// Track index (0-based).
    pub track: u32,
    /// Whether to arm the track.
    pub arm: bool,
}

/// Parameters for `create_midi_track` and `create_audio_track` tools.
#[derive(Debug)]
pub struct CreateTrackParams {
    /// Optional index to insert the track at.
    pub index: Option<i32>,
}

/// Parameters for `set_track_name` tool.
#[derive(Debug)]
pub struct SetTrackNameParams {
    /// Track index (0-based).
    pub track: u32,
    /// New name for the track.
    pub name: String,
}

/// Parameters for `get_track_send` tool.
#[derive(Debug)]
pub struct GetTrackSendParams {
    /// Track index (0-based).
    pub track: u32,
    /// Send index (0-based).
    pub send: u32,
}

/// Parameters for `set_track_color` tool.
#[derive(Debug)]
pub struct SetTrackColorParams {
    /// Track index (0-based).
    pub track: u32,
    /// RGB color as integer.
    pub color: i32,
}

/// Parameters for `set_track_monitoring` tool.
#[derive(Debug)]
pub struct SetTrackMonitoringParams {
    /// Track index (0-based).
    pub track: u32,
    /// Monitoring state (0=In, 1=Auto, 2=Off).
    pub state: i32,
}

/// Parameters for `set_track_fold_state` tool.
#[derive(Debug)]
pub struct SetTrackFoldStateParams {
    /// Track index (0-based).
    pub track: u32,
    /// Whether to fold the track.
    pub folded: bool,
}

/// Parameters for `set_track_input_routing_type` and `set_track_output_routing_type` tools.
#[derive(Debug)]
pub struct SetTrackRoutingTypeParams {
    /// Track index (0-based).
    pub track: u32,
    /// Routing type name.
    pub routing_type: String,
}

/// Parameters for `set_track_input_routing_channel` and `set_track_output_routing_channel` tools.
#[derive(Debug)]
pub struct SetTrackRoutingChannelParams {
    /// Track index (0-based).
    pub track: u32,
    /// Routing channel name.
    pub channel: String,
}

/// Parameters for tools that require track and slot indices.
#[derive(Debug)]
pub struct ClipSlotParams {
    /// Track index (0-based).
    pub track: u32,
    /// Clip slot index (0-based).
    pub slot: u32,
}

/// Parameters for `set_clip_name` tool.
#[derive(Debug)]
pub struct SetClipNameParams {
    /// Track index (0-based).
    pub track: u32,
    /// Clip slot index (0-based).
    pub slot: u32,
    /// New name for the clip.
    pub name: String,
}

/// Parameters for `set_clip_color` tool.
#[derive(Debug)]
pub struct SetClipColorParams {
    /// Track index (0-based).
    pub track: u32,
    /// Clip slot index (0-based).
    pub slot: u32,
    /// RGB color as integer.
    pub color: i32,
}

/// Parameters for `set_clip_pitch` tool.
#[derive(Debug)]
pub struct SetClipPitchParams {
    /// Track index (0-based).
    pub track: u32,
    /// Clip slot index (0-based).
    pub slot: u32,
    /// Pitch in semitones (-48 to +48).
    pub semitones: i32,
}

/// Parameters for `set_clip_warp` tool.
#[derive(Debug)]
pub struct SetClipWarpParams {
    /// Track index (0-based).
    pub track: u32,
    /// Clip slot index (0-based).
    pub slot: u32,
    /// Whether to enable warping.
    pub enabled: bool,
}

/// Parameters for `set_clip_warp_mode` tool.
#[derive(Debug)]
pub struct SetClipWarpModeParams {
    /// Track index (0-based).
    pub track: u32,
    /// Clip slot index (0-based).
    pub slot: u32,
    /// Warp mode (0=Beats, 1=Tones, 2=Texture, 3=Re-Pitch, 4=Complex, 5=Complex Pro).
    pub mode: i32,
}

/// Parameters for `set_clip_launch_mode` tool.
#[derive(Debug)]
pub struct SetClipLaunchModeParams {
    /// Track index (0-based).
    pub track: u32,
    /// Clip slot index (0-based).
    pub slot: u32,
    /// Launch mode (0=Trigger, 1=Gate, 2=Toggle, 3=Repeat).
    pub mode: i32,
}

/// Parameters for `set_clip_launch_quantization` tool.
#[derive(Debug)]
pub struct SetClipLaunchQuantizationParams {
    /// Track index (0-based).
    pub track: u32,
    /// Clip slot index (0-based).
    pub slot: u32,
    /// Quantization value.
    pub quantization: i32,
}

/// Parameters for `duplicate_clip_to` tool.
#[derive(Debug)]
pub struct DuplicateClipToParams {
    /// Source track index (0-based).
    pub src_track: u32,
    /// Source clip slot index (0-based).
    pub src_slot: u32,
    /// Destination track index (0-based).
    pub dst_track: u32,
    /// Destination clip slot index (0-based).
    pub dst_slot: u32,
}

/// Parameters for `set_clip_slot_has_stop_button` tool.
#[derive(Debug)]
pub struct SetClipSlotHasStopButtonParams {
    /// Track index (0-based).
    pub track: u32,
    /// Clip slot index (0-based).
    pub slot: u32,
    /// Whether the slot has a stop button.
    pub has_stop_button: bool,
}

/// Parameters for `set_clip_looping` tool.
#[derive(Debug)]
pub struct SetClipLoopingParams {
    /// Track index (0-based).
    pub track: u32,
    /// Clip slot index (0-based).
    pub slot: u32,
    /// Whether looping is enabled.
    pub looping: bool,
}

/// Parameters for `set_clip_muted` tool.
#[derive(Debug)]
pub struct SetClipMutedParams {
    /// Track index (0-based).
    pub track: u32,
    /// Clip slot index (0-based).
    pub slot: u32,
    /// Whether the clip is muted.
    pub muted: bool,
}

/// Parameters for `set_clip_legato` tool.
#[derive(Debug)]
pub struct SetClipLegatoParams {
    /// Track index (0-based).
    pub track: u32,
    /// Clip slot index (0-based).
    pub slot: u32,
    /// Whether legato is enabled.
    pub legato: bool,
}

/// Parameters for `set_clip_color_index` tool.
#[derive(Debug)]
pub struct SetClipColorIndexParams {
    /// Track index (0-based).
    pub track: u32,
    /// Clip slot index (0-based).
    pub slot: u32,
    /// Color index.
    pub color_index: i32,
}

/// Parameters for `set_clip_ram_mode` tool.
#[derive(Debug)]
pub struct SetClipRamModeParams {
    /// Track index (0-based).
    pub track: u32,
    /// Clip slot index (0-based).
    pub slot: u32,
    /// Whether RAM mode is enabled.
    pub enabled: bool,
}

/// Parameters for tools that only require a scene index.
#[derive(Debug)]
pub struct SceneParams {
    /// Scene index (0-based).
    pub scene: u32,
}

/// Parameters for `create_scene` tool.
#[derive(Debug)]
pub struct CreateSceneParams {
    /// Optional index to insert the scene at.
    pub index: Option<i32>,
}

/// Parameters for `set_scene_name` tool.
#[derive(Debug)]
pub struct SetSceneNameParams {
    /// Scene index (0-based).
    pub scene: u32,
    /// New name for the scene.
    pub name: String,
}

/// Parameters for `set_scene_color` tool.
#[derive(Debug)]
pub struct SetSceneColorParams {
    /// Scene index (0-based).
    pub scene: u32,
    /// RGB color as integer.
    pub color: i32,
}

/// Parameters for `set_scene_tempo_enabled` tool.
#[derive(Debug)]
pub struct SetSceneTempoEnabledParams {
    /// Scene index (0-based).
    pub scene: u32,
    /// Whether scene tempo is enabled.
    pub enabled: bool,
}

/// Parameters for `set_scene_time_signature` tool.
#[derive(Debug)]
pub struct SetSceneTimeSignatureParams {
    /// Scene index (0-based).
    pub scene: u32,
    /// Time signature numerator.
    pub numerator: i32,
    /// Time signature denominator.
    pub denominator: i32,
}

/// Parameters for `set_scene_time_sig_enabled` tool.
#[derive(Debug)]
pub struct SetSceneTimeSigEnabledParams {
    /// Scene index (0-based).
    pub scene: u32,
    /// Whether scene time signature is enabled.
    pub enabled: bool,
}

/// Parameters for tools that require track and device indices.
#[derive(Debug)]
pub struct DeviceParams {
    /// Track index (0-based).
    pub track: u32,
    /// Device index (0-based).
    pub device: u32,
}

/// Parameters for `set_device_enabled` tool.
#[derive(Debug)]
pub struct SetDeviceEnabledParams {
    /// Track index (0-based).
    pub track: u32,
    /// Device index (0-based).
    pub device: u32,
    /// Whether to enable the device.
    pub enabled: bool,
}

/// Parameters for `get_parameter_value_string` tool.
#[derive(Debug)]
pub struct GetParameterValueStringParams {
    /// Track index (0-based).
    pub track: u32,
    /// Device index (0-based).
    pub device: u32,
    /// Parameter index (0-based).
    pub param: u32,
}

/// Parameters for `set_loop_enabled` tool.
#[derive(Debug)]
pub struct SetLoopEnabledParams {
    /// Whether to enable loop playback.
    pub enabled: bool,
}

/// Parameters for `set_quantization` tool.
#[derive(Debug)]
pub struct SetQuantizationParams {
    /// Quantization value (0=None, 1=8 Bars, 2=4 Bars, 3=2 Bars, 4=1 Bar, 5=1/2, etc.).
    pub quantization: i32,
}

/// Parameters for `set_signature_numerator` tool.
#[derive(Debug)]
pub struct SetSignatureNumeratorParams {
    /// Time signature numerator.
    pub numerator: i32,
}

/// Parameters for `set_signature_denominator` tool.
#[derive(Debug)]
pub struct SetSignatureDenominatorParams {
    /// Time signature denominator.
    pub denominator: i32,
}

/// Parameters for boolean toggle tools (punch in/out, overdub, session record, etc.).
#[derive(Debug)]
pub struct SetEnabledParams {
    /// Whether to enable the feature.
    pub enabled: bool,
}

/// Parameters for `delete_return_track` tool.
#[derive(Debug)]
pub struct DeleteReturnTrackParams {
    /// Return track index (0-based).
    pub index: u32,
}

/// Parameters for `set_root_note` tool.
#[derive(Debug)]
pub struct SetRootNoteParams {
    /// Root note (0-11, where 0=C).
    pub root_note: i32,
}

/// Parameters for `set_scale_name` tool.
#[derive(Debug)]
pub struct SetScaleNameParams {
    /// Scale name (e.g., "Major", "Minor", "Dorian").
    pub scale_name: String,
}

/// Parameters for `set_selected_clip` tool.
#[derive(Debug)]
pub struct SetSelectedClipParams {
    /// Track index (0-based).
    pub track: u32,
    /// Clip slot index (0-based).
    pub slot: u32,
}

/// Parameters for `set_selected_device` tool.
#[derive(Debug)]
pub struct SetSelectedDeviceParams {
    /// Track index (0-based).
    pub track: u32,
    /// Device index (0-based).
    pub device: u32,
}

/// Parameters for `jump_to_cue_point` tool.
#[derive(Debug)]
pub struct JumpToCuePointParams {
    /// Cue point index (0-based).
    pub index: u32,
}

/// Parameters for `set_cue_point_name` tool.
#[derive(Debug)]
pub struct SetCuePointNameParams {
    /// Cue point index (0-based).
    pub index: u32,
    /// New name for the cue point.
    pub name: String,
}

/// Parameters for tools that require a name (instrument, effect, sound, etc.).
#[derive(Debug)]
pub struct LoadByNameParams {
    /// Name of the item to load.
    pub name: String,
}

/// Parameters for `load_drum_kit` tool.
#[derive(Debug)]
pub struct LoadDrumKitParams {
    /// Optional drum kit name (loads default if not specified).
    pub name: Option<String>,
}

/// Parameters for `list_samples` and `list_clips` tools.
#[derive(Debug)]
pub struct ListWithOptionalCategoryParams {
    /// Optional category to filter items.
    pub category: Option<String>,
}

/// Parameters for `browse` tool.
#[derive(Debug)]
pub struct BrowseParams {
    /// Category to browse: instruments, drums, sounds, effects, etc.
    pub category: String,
}

/// Parameters for `browse_path` tool.
#[derive(Debug)]
pub struct BrowsePathParams {
    /// Category to browse.
    pub category: String,
    /// Path within the category.
    pub path: String,
}

/// Parameters for `search_browser` tool.
#[derive(Debug)]
pub struct SearchBrowserParams {
    /// Search query.
    pub query: String,
}

/// Parameters for `get_browser_item` tool.
#[derive(Debug)]
pub struct GetBrowserItemParams {
    /// Category containing the item.
    pub category: String,
    /// Name of the item.
    pub name: String,
}

/// Parameters for `load_user_preset` tool.
#[derive(Debug)]
pub struct LoadUserPresetParams {
    /// Path to the preset in user library.
    pub path: String,
}

/// Parameters for `hotswap_start` tool.
#[derive(Debug)]
pub struct HotswapStartParams {
    /// Track index (0-based).
    pub track: u32,
    /// Device index (0-based).
    pub device: u32,
}

/// Parameters for `show_message` tool.
#[derive(Debug)]
pub struct ShowMessageParams {
    /// Message to display in Ableton's status bar.
    pub message: String,
}

/// Parameters for `map_midi_cc` tool.
#[derive(Debug)]
pub struct MapMidiCcParams {
    /// Track index (0-based).
    pub track: u32,
    /// Device index (0-based).
    pub device: u32,
    /// Parameter index (0-based).
    pub parameter: u32,
    /// MIDI channel (0-15).
    pub channel: u32,
    /// MIDI CC number (0-127).
    pub cc: u32,
}

} // verus!
