//! Newtype wrappers for the indices that address parts of a Live set.
//!
//! An index travels to the peer as a 32-bit signed OSC integer. The
//! conversion keeps the 32 bits: an index above `i32::MAX` comes out negative.

use vstd::prelude::*;
use vstd::std_specs::convert::FromSpecImpl;

verus! {

/// The signed integer with the same 32 bits as `v`.
pub open spec fn same_bits(v: u32) -> i32 {
    if v <= 0x7fff_ffff {
        v as i32
    } else {
        (v - 0x1_0000_0000) as i32
    }
}

/// The signed integer with the same 32 bits as `v`.
pub fn to_signed(v: u32) -> (r: i32)
    ensures
        r == same_bits(v),
{
    if v <= 0x7fff_ffff {
        v as i32
    } else {
        (v as i64 - 0x1_0000_0000) as i32
    }
}

/// Track index (0-based).
#[derive(Clone, Copy, Debug, PartialEq, Eq)]
pub struct TrackId(pub u32);

impl From<TrackId> for i32 {
    fn from(id: TrackId) -> (r: i32) {
        to_signed(id.0)
    }
}

impl FromSpecImpl<TrackId> for i32 {
    open spec fn obeys_from_spec() -> bool {
        true
    }

    open spec fn from_spec(id: TrackId) -> i32 {
        same_bits(id.0)
    }
}

impl From<u32> for TrackId {
    fn from(v: u32) -> (r: TrackId) {
        TrackId(v)
    }
}

impl FromSpecImpl<u32> for TrackId {
    open spec fn obeys_from_spec() -> bool {
        true
    }

    open spec fn from_spec(v: u32) -> TrackId {
        TrackId(v)
    }
}

/// Clip slot index (0-based).
#[derive(Clone, Copy, Debug, PartialEq, Eq)]
pub struct ClipSlotId(pub u32);

impl From<ClipSlotId> for i32 {
    fn from(id: ClipSlotId) -> (r: i32) {
        to_signed(id.0)
    }
}

impl FromSpecImpl<ClipSlotId> for i32 {
    open spec fn obeys_from_spec() -> bool {
        true
    }

    open spec fn from_spec(id: ClipSlotId) -> i32 {
        same_bits(id.0)
    }
}

impl From<u32> for ClipSlotId {
    fn from(v: u32) -> (r: ClipSlotId) {
        ClipSlotId(v)
    }
}

impl FromSpecImpl<u32> for ClipSlotId {
    open spec fn obeys_from_spec() -> bool {
        true
    }

    open spec fn from_spec(v: u32) -> ClipSlotId {
        ClipSlotId(v)
    }
}

/// Scene index (0-based).
#[derive(Clone, Copy, Debug, PartialEq, Eq)]
pub struct SceneId(pub u32);

impl From<SceneId> for i32 {
    fn from(id: SceneId) -> (r: i32) {
        to_signed(id.0)
    }
}

impl FromSpecImpl<SceneId> for i32 {
    open spec fn obeys_from_spec() -> bool {
        true
    }

    open spec fn from_spec(id: SceneId) -> i32 {
        same_bits(id.0)
    }
}

impl From<u32> for SceneId {
    fn from(v: u32) -> (r: SceneId) {
        SceneId(v)
    }
}

impl FromSpecImpl<u32> for SceneId {
    open spec fn obeys_from_spec() -> bool {
        true
    }

    open spec fn from_spec(v: u32) -> SceneId {
        SceneId(v)
    }
}

/// Device index (0-based).
#[derive(Clone, Copy, Debug, PartialEq, Eq)]
pub struct DeviceId(pub u32);

impl From<DeviceId> for i32 {
    fn from(id: DeviceId) -> (r: i32) {
        to_signed(id.0)
    }
}

impl FromSpecImpl<DeviceId> for i32 {
    open spec fn obeys_from_spec() -> bool {
        true
    }

    open spec fn from_spec(id: DeviceId) -> i32 {
        same_bits(id.0)
    }
}

impl From<u32> for DeviceId {
    fn from(v: u32) -> (r: DeviceId) {
        DeviceId(v)
    }
}

impl FromSpecImpl<u32> for DeviceId {
    open spec fn obeys_from_spec() -> bool {
        true
    }

    open spec fn from_spec(v: u32) -> DeviceId {
        DeviceId(v)
    }
}

/// Parameter index (0-based).
#[derive(Clone, Copy, Debug, PartialEq, Eq)]
pub struct ParameterId(pub u32);

impl From<ParameterId> for i32 {
    fn from(id: ParameterId) -> (r: i32) {
        to_signed(id.0)
    }
}

impl FromSpecImpl<ParameterId> for i32 {
    open spec fn obeys_from_spec() -> bool {
        true
    }

    open spec fn from_spec(id: ParameterId) -> i32 {
        same_bits(id.0)
    }
}

impl From<u32> for ParameterId {
    fn from(v: u32) -> (r: ParameterId) {
        ParameterId(v)
    }
}

impl FromSpecImpl<u32> for ParameterId {
    open spec fn obeys_from_spec() -> bool {
        true
    }

    open spec fn from_spec(v: u32) -> ParameterId {
        ParameterId(v)
    }
}

} // verus!
