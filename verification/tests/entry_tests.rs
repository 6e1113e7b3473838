use io_uring::abi::{
    io_uring_cqe, io_uring_sqe, u1, u1_struct, u2, u2_struct, u5, u5_struct1, u5_struct2, u6,
    u6_struct1, u6_struct2,
};
use io_uring::entry::{build_sqe, decode_cqe, encode_cqe, encode_sqe, make_nop, IORING_OP_NOP};

#[test]
fn nop_encodes_to_exact_wire_bytes() {
    let e = make_nop(5);
    let b = encode_sqe(&e);
    let mut expected = vec![0u8; 64];
    // fd = -1 in two's complement at bytes 4..8
    expected[4] = 0xFF;
    expected[5] = 0xFF;
    expected[6] = 0xFF;
    expected[7] = 0xFF;
    // user_data = 5, little-endian, at bytes 32..40
    expected[32] = 5;
    assert_eq!(b, expected);
}

#[test]
fn builder_rejects_unknown_opcode() {
    let r = build_sqe(99, -1, 0, 0, 0, 1);
    let err = r.expect_err("opcode outside the closed table");
    assert_eq!(err.opcode, 99);
}

#[test]
fn builder_accepts_nop_with_operands() {
    let e = build_sqe(IORING_OP_NOP, -1, 0, 0, 0, 7).expect("no-op is a known opcode");
    assert_eq!(e.opcode, IORING_OP_NOP);
    assert_eq!(e.fd, -1);
    assert_eq!(e.len, 0);
    assert_eq!(e.user_data, 7);
    assert_eq!(e, make_nop(7));
}

#[test]
fn zeroed_entry_is_all_zero_on_the_wire() {
    let b = encode_sqe(&io_uring_sqe::zeroed());
    assert_eq!(b, vec![0u8; 64]);
}

#[test]
fn union_arms_encode_their_aliased_bytes() {
    let mut e = io_uring_sqe::zeroed();
    e.u1 = u1::u1_struct(u1_struct { cmp_op: 1, _pad1: 0 });
    e.u2 = u2::u2_struct(u2_struct { level: 2, optname: 3 });
    e.u5 = u5::u5_struct1(u5_struct1 { addr_len: 0x0405, _pad3: 0 });
    e.u6 = u6::u6_struct2(u6_struct2 { attr_ptr: 6, attr_type_mask: 7 });
    let b = encode_sqe(&e);
    assert_eq!(b.len(), 64);
    assert_eq!(&b[8..12], &[1, 0, 0, 0]); // cmp_op
    assert_eq!(&b[16..20], &[2, 0, 0, 0]); // level
    assert_eq!(&b[20..24], &[3, 0, 0, 0]); // optname
    assert_eq!(&b[44..46], &[5, 4]); // addr_len, little-endian
    assert_eq!(&b[48..56], &[6, 0, 0, 0, 0, 0, 0, 0]); // attr_ptr
    assert_eq!(&b[56..64], &[7, 0, 0, 0, 0, 0, 0, 0]); // attr_type_mask

    let mut f = io_uring_sqe::zeroed();
    f.u1 = u1::addr2(0x1122334455667788);
    f.u5 = u5::u5_struct2(u5_struct2 { write_stream: 9 });
    f.u6 = u6::u6_struct1(u6_struct1 { addr3: 0x10, _pad2: 0 });
    let c = encode_sqe(&f);
    assert_eq!(&c[8..16], &[0x88, 0x77, 0x66, 0x55, 0x44, 0x33, 0x22, 0x11]);
    assert_eq!(&c[44..48], &[9, 0, 0, 0]); // write_stream plus zero padding
    assert_eq!(&c[48..52], &[0x10, 0, 0, 0]);
}

#[test]
fn cqe_round_trips_through_its_wire_bytes() {
    let c = io_uring_cqe { user_data: 0xDEAD_BEEF_0000_0005, res: -11, flags: 3 };
    let b = encode_cqe(&c);
    assert_eq!(b.len(), 16);
    let d = decode_cqe(&b);
    assert_eq!(d, c);
}

#[test]
fn cqe_decodes_little_endian_fields() {
    let mut b = vec![0u8; 16];
    b[0] = 9; // user_data = 9
    b[8] = 0xF5; // res = -11 in two's complement
    b[9] = 0xFF;
    b[10] = 0xFF;
    b[11] = 0xFF;
    b[12] = 1; // flags = 1
    let c = decode_cqe(&b);
    assert_eq!(c.user_data, 9);
    assert_eq!(c.res, -11);
    assert_eq!(c.flags, 1);
}
