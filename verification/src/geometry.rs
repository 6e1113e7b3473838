//! Geometry negotiation and the mapping plan.
//!
//! The engine is authoritative on ring sizes and region layout: it may round
//! a requested entry count up, and it reports the byte offsets of every
//! header field. This module turns the raw parameter block the engine filled
//! in into a validated [`RingGeometry`] — whose invariant every later index
//! computation relies on — and computes the exact byte length of each region
//! to map, from the reported offsets and entry counts alone, never from a
//! locally guessed constant.
use vstd::prelude::*;

use crate::abi::{io_cqring_offsets, io_sqring_offsets, io_uring_params};
use crate::errors::{MapError, SetupError};

verus! {

/// Byte size of one submission entry on the wire.
pub const SQE_SIZE: u64 = 64;

/// Byte size of one completion entry on the wire.
pub const CQE_SIZE: u64 = 16;

/// Mapping offset that selects the submission-ring header region.
pub const IORING_OFF_SQ_RING: u64 = 0;

/// Mapping offset that selects the completion-ring header region.
pub const IORING_OFF_CQ_RING: u64 = 0x8000000;

/// Mapping offset that selects the submission-entry array region.
pub const IORING_OFF_SQES: u64 = 0x10000000;

/// `x` is a power of two: nonzero, and clearing its lowest set bit leaves
/// nothing.
pub open spec fn is_pow2(x: u32) -> bool {
    x != 0 && x & ((x - 1) as u32) == 0
}

/// Runtime check matching [`is_pow2`].
pub fn power_of_two(x: u32) -> (b: bool)
    ensures
        b == is_pow2(x),
{
    x != 0 && x & (x - 1) == 0
}

/// Opaque handle to the engine-side ring storage, returned by negotiation and
/// owned by the process until the ring is closed.
#[derive(Clone, Copy, Debug, PartialEq, Eq, Structural)]
pub struct RingIdentity {
    pub fd: i32,
}

/// The authoritative ring shape reported by the engine. All subsequent
/// arithmetic uses these fields, never the requested size.
#[derive(Clone, Copy, Debug, PartialEq)]
pub struct RingGeometry {
    pub sq_entries: u32,
    pub cq_entries: u32,
    pub sq_off: io_sqring_offsets,
    pub cq_off: io_cqring_offsets,
}

impl RingGeometry {
    /// Invariant of every negotiated geometry: both entry counts are powers
    /// of two, and each ring's mask is its entry count minus one.
    pub open spec fn wf(self) -> bool {
        &&& is_pow2(self.sq_entries)
        &&& is_pow2(self.cq_entries)
        &&& self.sq_off.ring_entries == self.sq_entries
        &&& self.cq_off.ring_entries == self.cq_entries
        &&& self.sq_off.ring_mask == self.sq_entries - 1
        &&& self.cq_off.ring_mask == self.cq_entries - 1
    }
}

/// The engine-filled parameter block satisfies the geometry invariant.
pub open spec fn params_geometry_ok(p: io_uring_params) -> bool {
    &&& is_pow2(p.sq_entries)
    &&& is_pow2(p.cq_entries)
    &&& p.sq_off.ring_entries == p.sq_entries
    &&& p.cq_off.ring_entries == p.cq_entries
    &&& p.sq_off.ring_mask == p.sq_entries - 1
    &&& p.cq_off.ring_mask == p.cq_entries - 1
}

/// Validates the parameter block the engine filled in and extracts the
/// authoritative geometry. Returns `Some` exactly when the block satisfies
/// the ring invariant (entry counts powers of two, each mask one less than
/// its entry count); the returned geometry copies the block's fields
/// unchanged.
pub fn geometry_from_params(p: &io_uring_params) -> (r: Option<RingGeometry>)
    ensures
        r is Some <==> params_geometry_ok(*p),
        match r {
            Some(g) => {
                &&& g.wf()
                &&& g.sq_entries == p.sq_entries
                &&& g.cq_entries == p.cq_entries
                &&& g.sq_off == p.sq_off
                &&& g.cq_off == p.cq_off
            },
            None => true,
        },
{
    let sq_ok = power_of_two(p.sq_entries) && p.sq_off.ring_entries == p.sq_entries
        && p.sq_off.ring_mask == p.sq_entries - 1;
    let cq_ok = power_of_two(p.cq_entries) && p.cq_off.ring_entries == p.cq_entries
        && p.cq_off.ring_mask == p.cq_entries - 1;
    if sq_ok && cq_ok {
        Some(
            RingGeometry {
                sq_entries: p.sq_entries,
                cq_entries: p.cq_entries,
                sq_off: p.sq_off,
                cq_off: p.cq_off,
            },
        )
    } else {
        None
    }
}

/// Interprets the raw status of the negotiation call: a negative status is a
/// rejection with that code, a non-negative status is the ring identity.
pub fn interpret_setup(ret: i64) -> (r: Result<RingIdentity, SetupError>)
    requires
        ret <= i32::MAX,
        ret >= i32::MIN,
    ensures
        ret >= 0 <==> r is Ok,
        match r {
            Ok(id) => id.fd == ret,
            Err(e) => e.code == ret,
        },
{
    if ret >= 0 {
        Ok(RingIdentity { fd: ret as i32 })
    } else {
        Err(SetupError { code: ret as i32 })
    }
}

/// One region to map: a mapping offset naming the region and the exact byte
/// length to request.
#[derive(Clone, Copy, Debug, PartialEq, Eq, Structural)]
pub struct MapRequest {
    pub offset: u64,
    pub len: u64,
}

/// The three regions a negotiated ring needs mapped.
#[derive(Clone, Copy, Debug, PartialEq, Eq, Structural)]
pub struct MapPlan {
    pub sq_ring: MapRequest,
    pub sqes: MapRequest,
    pub cq_ring: MapRequest,
}

/// Byte length of the submission-ring header region: it ends with the index
/// array, one 32-bit word per entry, starting at the reported array offset.
pub open spec fn spec_sq_ring_bytes(g: RingGeometry) -> int {
    g.sq_off.array + g.sq_entries * 4
}

/// Byte length of the submission-entry region.
pub open spec fn spec_sqes_bytes(g: RingGeometry) -> int {
    g.sq_entries * SQE_SIZE
}

/// Byte length of the completion-ring region: it ends with the entry array,
/// one entry per slot, starting at the reported entry-array offset.
pub open spec fn spec_cq_ring_bytes(g: RingGeometry) -> int {
    g.cq_off.cqes + g.cq_entries * CQE_SIZE
}

/// Computes the mapping plan for a negotiated geometry: each region's
/// engine-defined mapping offset, and its byte length derived from the
/// reported offsets and entry counts.
pub fn map_plan(g: &RingGeometry) -> (p: MapPlan)
    ensures
        p.sq_ring.offset == IORING_OFF_SQ_RING,
        p.sq_ring.len == spec_sq_ring_bytes(*g),
        p.sqes.offset == IORING_OFF_SQES,
        p.sqes.len == spec_sqes_bytes(*g),
        p.cq_ring.offset == IORING_OFF_CQ_RING,
        p.cq_ring.len == spec_cq_ring_bytes(*g),
{
    MapPlan {
        sq_ring: MapRequest {
            offset: IORING_OFF_SQ_RING,
            len: g.sq_off.array as u64 + g.sq_entries as u64 * 4,
        },
        sqes: MapRequest { offset: IORING_OFF_SQES, len: g.sq_entries as u64 * SQE_SIZE },
        cq_ring: MapRequest {
            offset: IORING_OFF_CQ_RING,
            len: g.cq_off.cqes as u64 + g.cq_entries as u64 * CQE_SIZE,
        },
    }
}

/// Interprets the outcome the region mapper reports for one mapping
/// attempt: a failure carries the errno and must unwind everything already
/// acquired (see [`crate::lifecycle`]); success carries nothing.
pub fn interpret_map(failed: bool, errno: i32) -> (r: Result<(), MapError>)
    ensures
        failed <==> r is Err,
        match r {
            Err(m) => m.errno == errno,
            Ok(u) => true,
        },
{
    if failed {
        Err(MapError { errno })
    } else {
        Ok(())
    }
}

} // verus!
