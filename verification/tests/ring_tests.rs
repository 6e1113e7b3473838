use io_uring::abi::{io_cqring_offsets, io_sqring_offsets, io_uring_cqe, io_uring_params};
use io_uring::entry::make_nop;
use io_uring::errors::SubmitError;
use io_uring::geometry::geometry_from_params;
use io_uring::ring::{
    advance, consumer_slot, producer_slot, ring_index, ring_used, run_loopback, CqRing, SqRing,
};

fn engine_params(sq_entries: u32, cq_entries: u32) -> io_uring_params {
    io_uring_params {
        sq_entries,
        cq_entries,
        flags: 0,
        sq_thread_cpu: 0,
        sq_thread_idle: 0,
        features: 0,
        wq_fd: 0,
        resv: [0, 0, 0],
        sq_off: io_sqring_offsets {
            head: 0,
            tail: 64,
            ring_mask: sq_entries - 1,
            ring_entries: sq_entries,
            flags: 116,
            dropped: 120,
            array: 128,
            resv1: 0,
            user_addr: 0,
        },
        cq_off: io_cqring_offsets {
            head: 0,
            tail: 64,
            ring_mask: cq_entries - 1,
            ring_entries: cq_entries,
            overflow: 120,
            cqes: 128,
            resv1: 0,
            user_addr: 0,
        },
    }
}

#[test]
fn tokens_observed_exactly_once() {
    // Distinct correlation tokens in, exactly one completion per token out.
    let tokens: Vec<u64> = vec![11, 3, 99, 42, 7, 1000, 23, 8];
    let subs: Vec<_> = tokens.iter().map(|&t| make_nop(t)).collect();
    let out = run_loopback(&subs, 8, 0);
    assert_eq!(out.len(), tokens.len());
    for &t in &tokens {
        let observed = out.iter().filter(|c| c.user_data == t).count();
        assert_eq!(observed, 1);
    }
}

#[test]
fn wraparound_indices_stay_in_bounds() {
    // Cursor values straddling the 32-bit boundary mask to in-bounds slots.
    let head: u32 = 0xFFFF_FFFE;
    let mask: u32 = 7;
    for k in 0..6u32 {
        let v = head.wrapping_add(k);
        let i = ring_index(v, mask);
        assert!(i < 8);
    }
    assert_eq!(ring_index(0xFFFF_FFFE, 7), 6);
    assert_eq!(ring_index(0xFFFF_FFFF, 7), 7);
    assert_eq!(ring_index(0xFFFF_FFFF_u32.wrapping_add(1), 7), 0);
    // occupancy is wraparound-safe too
    assert_eq!(ring_used(0xFFFF_FFFE, 1), 3);
    assert_eq!(advance(0xFFFF_FFFF), 0);
}

#[test]
fn loopback_continues_past_the_wrap() {
    // Both rings start two slots below the wrap; five entries cross it with
    // no special-casing and arrive in order.
    let tokens: Vec<u64> = vec![1, 2, 3, 4, 5];
    let subs: Vec<_> = tokens.iter().map(|&t| make_nop(t)).collect();
    let out = run_loopback(&subs, 8, 0xFFFF_FFFE);
    assert_eq!(out.len(), 5);
    for (i, c) in out.iter().enumerate() {
        assert_eq!(c.user_data, tokens[i]);
        assert_eq!(c.res, 0);
    }
}

#[test]
fn empty_poll_is_idempotent() {
    // head == tail: repeated polls never mutate the head and never emit.
    let mut cq = CqRing::new(8);
    let head_before = cq.head;
    for _ in 0..100 {
        assert!(cq.pop().is_none());
    }
    assert_eq!(cq.head, head_before);
    assert_eq!(cq.tail, head_before);

    let p = engine_params(8, 8);
    let g = geometry_from_params(&p).unwrap();
    assert!(consumer_slot(5, 5, &g).is_none());
}

#[test]
fn full_ring_refuses_submission() {
    // A slow consumer: the engine drains nothing while we push. The
    // capacity-th push succeeds; one more must fail with Full and leave the
    // ring untouched.
    let mut sq = SqRing::new(4);
    for t in 0..4u64 {
        assert!(sq.push(make_nop(t)).is_ok());
    }
    let tail_before = sq.tail;
    match sq.push(make_nop(99)) {
        Err(SubmitError::Full) => {}
        other => panic!("expected Full, got {:?}", other),
    }
    assert_eq!(sq.tail, tail_before);
    // Once the engine consumes one entry, a slot opens up again.
    let drained = sq.engine_pop().expect("ring holds entries");
    assert_eq!(drained.user_data, 0);
    assert!(sq.push(make_nop(99)).is_ok());
}

#[test]
fn producer_slot_reports_full() {
    let p = engine_params(8, 8);
    let g = geometry_from_params(&p).unwrap();
    // tail - head == ring_entries: no slot.
    assert!(producer_slot(16, 24, &g).is_none());
    // one free slot left
    assert_eq!(producer_slot(17, 24, &g), Some(0));
    // near the wrap
    assert_eq!(producer_slot(0xFFFF_FFFE, 0xFFFF_FFFF, &g), Some(7));
}

#[test]
fn engine_drains_through_index_array_in_order() {
    let mut sq = SqRing::new(8);
    for t in 10..15u64 {
        sq.push(make_nop(t)).unwrap();
    }
    for t in 10..15u64 {
        let e = sq.engine_pop().expect("entry pending");
        assert_eq!(e.user_data, t);
    }
    assert!(sq.engine_pop().is_none());
}

#[test]
fn completions_pop_in_delivery_order() {
    let mut cq = CqRing::new(8);
    for t in [5u64, 6, 7] {
        cq.engine_push(io_uring_cqe { user_data: t, res: 0, flags: 0 });
    }
    assert_eq!(cq.pop().unwrap().user_data, 5);
    assert_eq!(cq.pop().unwrap().user_data, 6);
    assert_eq!(cq.pop().unwrap().user_data, 7);
    assert!(cq.pop().is_none());
}

#[test]
fn end_to_end_rounded_ring_five_nops() {
    // Negotiate with requested size 8: the engine reports a power-of-two
    // geometry of at least 8. Submit five no-ops with tokens 1..=5; expect
    // five completions, res == 0, tokens {1,2,3,4,5} in submission order.
    let p = engine_params(8, 16);
    let g = geometry_from_params(&p).expect("negotiated geometry is valid");
    assert!(g.sq_entries >= 8);
    assert!(g.sq_entries.is_power_of_two());

    let subs: Vec<_> = (1..=5u64).map(make_nop).collect();
    let out = run_loopback(&subs, g.sq_entries, 0);
    assert_eq!(out.len(), 5);
    for (i, c) in out.iter().enumerate() {
        assert_eq!(c.res, 0);
        assert_eq!(c.user_data, (i + 1) as u64);
    }
}
