use io_uring::abi::{io_cqring_offsets, io_sqring_offsets, io_uring_params};
use io_uring::geometry::{
    geometry_from_params, interpret_map, interpret_setup, map_plan, power_of_two, RingIdentity,
    IORING_OFF_CQ_RING, IORING_OFF_SQES, IORING_OFF_SQ_RING,
};
use io_uring::notify::interpret_enter;

/// A parameter block as the engine would fill it in for the given (already
/// rounded) ring sizes, with typical header offsets.
fn engine_params(sq_entries: u32, cq_entries: u32) -> io_uring_params {
    io_uring_params {
        sq_entries,
        cq_entries,
        flags: 0,
        sq_thread_cpu: 0,
        sq_thread_idle: 0,
        features: 0,
        wq_fd: 0,
        resv: [0, 0, 0],
        sq_off: io_sqring_offsets {
            head: 0,
            tail: 64,
            ring_mask: sq_entries.wrapping_sub(1),
            ring_entries: sq_entries,
            flags: 116,
            dropped: 120,
            array: 128,
            resv1: 0,
            user_addr: 0,
        },
        cq_off: io_cqring_offsets {
            head: 0,
            tail: 64,
            ring_mask: cq_entries.wrapping_sub(1),
            ring_entries: cq_entries,
            overflow: 120,
            cqes: 128,
            resv1: 0,
            user_addr: 0,
        },
    }
}

#[test]
fn mask_is_entries_minus_one_for_rounded_request() {
    // A request of 5 is not a power of two; the engine rounds it up to 8.
    // The geometry the library accepts always satisfies mask == entries - 1
    // on both rings.
    let p = engine_params(8, 16);
    let g = geometry_from_params(&p).expect("engine-rounded geometry must validate");
    assert_eq!(g.sq_entries, 8);
    assert_eq!(g.cq_entries, 16);
    assert_eq!(g.sq_off.ring_mask, g.sq_off.ring_entries - 1);
    assert_eq!(g.cq_off.ring_mask, g.cq_off.ring_entries - 1);
}

#[test]
fn geometry_rejects_non_power_of_two_entries() {
    let p = engine_params(12, 16);
    assert!(geometry_from_params(&p).is_none());
}

#[test]
fn geometry_rejects_inconsistent_mask() {
    let mut p = engine_params(8, 16);
    p.sq_off.ring_mask = 6;
    assert!(geometry_from_params(&p).is_none());
    let mut q = engine_params(8, 16);
    q.cq_off.ring_mask = 16;
    assert!(geometry_from_params(&q).is_none());
}

#[test]
fn geometry_rejects_zero_entries() {
    let p = engine_params(0, 16);
    assert!(geometry_from_params(&p).is_none());
}

#[test]
fn power_of_two_table() {
    assert!(power_of_two(1));
    assert!(power_of_two(2));
    assert!(power_of_two(8));
    assert!(power_of_two(0x8000_0000));
    assert!(!power_of_two(0));
    assert!(!power_of_two(3));
    assert!(!power_of_two(12));
}

#[test]
fn map_plan_uses_reported_offsets_and_counts() {
    let p = engine_params(8, 16);
    let g = geometry_from_params(&p).unwrap();
    let plan = map_plan(&g);
    assert_eq!(plan.sq_ring.offset, IORING_OFF_SQ_RING);
    // header up to the index array, plus one 32-bit word per entry
    assert_eq!(plan.sq_ring.len, 128 + 8 * 4);
    assert_eq!(plan.sqes.offset, IORING_OFF_SQES);
    assert_eq!(plan.sqes.len, 8 * 64);
    assert_eq!(plan.cq_ring.offset, IORING_OFF_CQ_RING);
    // header up to the entry array, plus one 16-byte entry per slot
    assert_eq!(plan.cq_ring.len, 128 + 16 * 16);
}

#[test]
fn setup_status_splits_on_sign() {
    assert_eq!(interpret_setup(4), Ok(RingIdentity { fd: 4 }));
    let err = interpret_setup(-22).unwrap_err();
    assert_eq!(err.code, -22);
    assert_eq!(interpret_setup(0), Ok(RingIdentity { fd: 0 }));
}

#[test]
fn map_failure_reports_errno() {
    let err = interpret_map(true, 9).unwrap_err();
    assert_eq!(err.errno, 9);
    assert!(interpret_map(false, 0).is_ok());
}

#[test]
fn enter_status_splits_on_sign() {
    assert_eq!(interpret_enter(1), Ok(1));
    assert_eq!(interpret_enter(0), Ok(0));
    let err = interpret_enter(-9).unwrap_err();
    assert_eq!(err.code, -9);
}
