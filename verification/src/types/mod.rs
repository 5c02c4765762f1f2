//! The data that the tools of the server take and return.

pub mod ids;
pub mod params;
pub mod tool_params;

pub use ids::{ClipSlotId, DeviceId, ParameterId, SceneId, TrackId};
pub use params::{
    DeviceInfo,
    RoutingOptions,
    SceneInfo,
    TrackCapabilities,
};
pub use tool_params::{
    ArmTrackParams,
    BrowseParams,
    BrowsePathParams,
    ClipSlotParams,
    CreateSceneParams,
    CreateTrackParams,
    DeleteReturnTrackParams,
    DeviceParams,
    DuplicateClipToParams,
    GetBrowserItemParams,
    GetParameterValueStringParams,
    GetTrackSendParams,
    HotswapStartParams,
    JumpToCuePointParams,
    ListWithOptionalCategoryParams,
    LoadByNameParams,
    LoadDrumKitParams,
    LoadUserPresetParams,
    MapMidiCcParams,
    MuteTrackParams,
    SceneParams,
    SearchBrowserParams,
    SetClipColorIndexParams,
    SetClipColorParams,
    SetClipLaunchModeParams,
    SetClipLaunchQuantizationParams,
    SetClipLegatoParams,
    SetClipLoopingParams,
    SetClipMutedParams,
    SetClipNameParams,
    SetClipPitchParams,
    SetClipRamModeParams,
    SetClipSlotHasStopButtonParams,
    SetClipWarpModeParams,
    SetClipWarpParams,
    SetCuePointNameParams,
    SetDeviceEnabledParams,
    SetEnabledParams,
    SetLoopEnabledParams,
    SetMetronomeParams,
    SetQuantizationParams,
    SetRootNoteParams,
    SetScaleNameParams,
    SetSceneColorParams,
    SetSceneNameParams,
    SetSceneTempoEnabledParams,
    SetSceneTimeSigEnabledParams,
    SetSceneTimeSignatureParams,
    SetSelectedClipParams,
    SetSelectedDeviceParams,
    SetSignatureDenominatorParams,
    SetSignatureNumeratorParams,
    SetTrackColorParams,
    SetTrackFoldStateParams,
    SetTrackMonitoringParams,
    SetTrackNameParams,
    SetTrackRoutingChannelParams,
    SetTrackRoutingTypeParams,
    ShowMessageParams,
    SoloTrackParams,
    TrackParams,
};
