//! Guest timelines and host cache maintenance.

use vstd::prelude::*;

verus! {

/// Identity of one guest syncpoint.
#[derive(Clone, Copy, Debug, PartialEq, Eq, Hash, Structural)]
pub struct GuestSyncpointId(pub u32);

impl GuestSyncpointId {
    #[must_use]
    pub fn new(id: u32) -> (r: GuestSyncpointId)
        ensures
            r.0 == id,
    {
        GuestSyncpointId(id)
    }

    pub open spec fn spec_get(self) -> u32 {
        self.0
    }

    #[must_use]
    #[verifier::when_used_as_spec(spec_get)]
    pub fn get(self) -> (r: u32)
        ensures
            r == self.0,
    {
        self.0
    }
}

/// One value of a guest syncpoint timeline.
#[derive(Clone, Copy, Debug, PartialEq, Eq, Hash, Structural)]
pub struct GuestTimelinePoint {
    pub syncpoint: GuestSyncpointId,
    pub value: u32,
}

impl GuestTimelinePoint {
    #[must_use]
    pub fn new(syncpoint: GuestSyncpointId, value: u32) -> (r: GuestTimelinePoint)
        ensures
            r == (GuestTimelinePoint { syncpoint, value }),
    {
        GuestTimelinePoint { syncpoint, value }
    }

    #[must_use]
    pub fn syncpoint(self) -> (r: GuestSyncpointId)
        ensures
            r == self.syncpoint,
    {
        self.syncpoint
    }

    #[must_use]
    pub fn value(self) -> (r: u32)
        ensures
            r == self.value,
    {
        self.value
    }
}

/// A timeline point that its owner publishes once the work it stands for is complete.
#[derive(Clone, Copy, Debug, PartialEq, Eq, Hash, Structural)]
pub struct ReservedTimelinePoint {
    pub point: GuestTimelinePoint,
}

impl ReservedTimelinePoint {
    #[must_use]
    pub fn new(point: GuestTimelinePoint) -> (r: ReservedTimelinePoint)
        ensures
            r == (ReservedTimelinePoint { point }),
    {
        ReservedTimelinePoint { point }
    }

    #[must_use]
    pub fn point(&self) -> (r: GuestTimelinePoint)
        ensures
            r == self.point,
    {
        self.point
    }
}

/// Cache maintenance requested of the host.
#[derive(Clone, Copy, Debug, PartialEq, Eq, Hash, Structural)]
pub enum CacheMaintenanceOperation {
    InvalidateShaderCaches { instruction: bool, global_data: bool, constant: bool },
    InvalidateTextureReadCaches,
    InvalidateTextureHeaderCaches,
    InvalidateSamplerCaches,
}

} // verus!
