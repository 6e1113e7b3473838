//! The entry builder and the wire encoding.
//!
//! The rings are a wire protocol: a submission entry occupies exactly 64
//! bytes and a completion entry exactly 16, little-endian, with every byte
//! the engine does not read set to zero. The builder keeps a closed opcode
//! table and refuses anything outside it rather than emitting an ambiguous
//! zero-filled record; the encoders state, byte for byte, what reaches the
//! shared memory.
use vstd::bytes::{
    spec_u16_to_le_bytes, spec_u32_from_le_bytes, spec_u32_to_le_bytes, spec_u64_from_le_bytes,
    spec_u64_to_le_bytes, u16_to_le_bytes, u32_from_le_bytes, u32_to_le_bytes, u64_from_le_bytes,
    u64_to_le_bytes,
};
use vstd::prelude::*;
use vstd::slice::slice_subrange;

use crate::abi::{
    io_uring_cqe, io_uring_sqe, u1, u2, u5, u6,
};
use crate::errors::BuildError;

verus! {

/// The no-op request: the one opcode of the minimal transport.
pub const IORING_OP_NOP: u8 = 0;

/// The closed opcode table: everything the builder knows how to encode.
pub open spec fn known_opcode(opcode: u8) -> bool {
    opcode == IORING_OP_NOP
}

/// Wire bytes of the first operand word (8 bytes).
pub open spec fn spec_u1_bytes(w: u1) -> Seq<u8> {
    match w {
        u1::off(x) => spec_u64_to_le_bytes(x),
        u1::addr2(x) => spec_u64_to_le_bytes(x),
        u1::u1_struct(s) => spec_u32_to_le_bytes(s.cmp_op) + spec_u32_to_le_bytes(s._pad1),
    }
}

/// Wire bytes of the second operand word (8 bytes).
pub open spec fn spec_u2_bytes(w: u2) -> Seq<u8> {
    match w {
        u2::addr(x) => spec_u64_to_le_bytes(x),
        u2::splice_off_in(x) => spec_u64_to_le_bytes(x),
        u2::u2_struct(s) => spec_u32_to_le_bytes(s.level) + spec_u32_to_le_bytes(s.optname),
    }
}

/// Wire bytes of the fifth operand word (4 bytes).
pub open spec fn spec_u5_bytes(w: u5) -> Seq<u8> {
    match w {
        u5::splice_fd_in(x) => spec_u32_to_le_bytes(x as u32),
        u5::file_index(x) => spec_u32_to_le_bytes(x),
        u5::u5_struct1(s) => spec_u16_to_le_bytes(s.addr_len) + spec_u16_to_le_bytes(s._pad3),
        u5::u5_struct2(s) => seq![s.write_stream, 0u8, 0u8, 0u8],
    }
}

/// Wire bytes of the sixth operand word (16 bytes).
pub open spec fn spec_u6_bytes(w: u6) -> Seq<u8> {
    match w {
        u6::u6_struct1(s) => spec_u64_to_le_bytes(s.addr3) + spec_u64_to_le_bytes(s._pad2),
        u6::u6_struct2(s) => spec_u64_to_le_bytes(s.attr_ptr) + spec_u64_to_le_bytes(
            s.attr_type_mask,
        ),
        u6::optval(x) => spec_u64_to_le_bytes(x) + spec_u64_to_le_bytes(0),
    }
}

/// The 64 wire bytes of a submission entry, in field order. A negative file
/// descriptor travels in two's complement.
pub open spec fn spec_sqe_bytes(e: io_uring_sqe) -> Seq<u8> {
    seq![e.opcode, e.flags] + spec_u16_to_le_bytes(e.ioprio) + spec_u32_to_le_bytes(e.fd as u32)
        + spec_u1_bytes(e.u1) + spec_u2_bytes(e.u2) + spec_u32_to_le_bytes(e.len)
        + spec_u32_to_le_bytes(e.u3) + spec_u64_to_le_bytes(e.user_data) + spec_u16_to_le_bytes(
        e.u4,
    ) + spec_u16_to_le_bytes(e.personality) + spec_u5_bytes(e.u5) + spec_u6_bytes(e.u6)
}

/// Encodes a submission entry into its 64 wire bytes.
#[verifier::rlimit(100)]
pub fn encode_sqe(e: &io_uring_sqe) -> (b: Vec<u8>)
    ensures
        b@ == spec_sqe_bytes(*e),
        b@.len() == 64,
{
    let mut b: Vec<u8> = Vec::new();
    b.push(e.opcode);
    b.push(e.flags);
    let mut w = u16_to_le_bytes(e.ioprio);
    b.append(&mut w);
    let mut w = u32_to_le_bytes(e.fd as u32);
    b.append(&mut w);
    match e.u1 {
        u1::off(x) => {
            let mut w = u64_to_le_bytes(x);
            b.append(&mut w);
        },
        u1::addr2(x) => {
            let mut w = u64_to_le_bytes(x);
            b.append(&mut w);
        },
        u1::u1_struct(s) => {
            let mut w = u32_to_le_bytes(s.cmp_op);
            b.append(&mut w);
            let mut w = u32_to_le_bytes(s._pad1);
            b.append(&mut w);
        },
    }
    match e.u2 {
        u2::addr(x) => {
            let mut w = u64_to_le_bytes(x);
            b.append(&mut w);
        },
        u2::splice_off_in(x) => {
            let mut w = u64_to_le_bytes(x);
            b.append(&mut w);
        },
        u2::u2_struct(s) => {
            let mut w = u32_to_le_bytes(s.level);
            b.append(&mut w);
            let mut w = u32_to_le_bytes(s.optname);
            b.append(&mut w);
        },
    }
    let mut w = u32_to_le_bytes(e.len);
    b.append(&mut w);
    let mut w = u32_to_le_bytes(e.u3);
    b.append(&mut w);
    let mut w = u64_to_le_bytes(e.user_data);
    b.append(&mut w);
    let mut w = u16_to_le_bytes(e.u4);
    b.append(&mut w);
    let mut w = u16_to_le_bytes(e.personality);
    b.append(&mut w);
    match e.u5 {
        u5::splice_fd_in(x) => {
            let mut w = u32_to_le_bytes(x as u32);
            b.append(&mut w);
        },
        u5::file_index(x) => {
            let mut w = u32_to_le_bytes(x);
            b.append(&mut w);
        },
        u5::u5_struct1(s) => {
            let mut w = u16_to_le_bytes(s.addr_len);
            b.append(&mut w);
            let mut w = u16_to_le_bytes(s._pad3);
            b.append(&mut w);
        },
        u5::u5_struct2(s) => {
            b.push(s.write_stream);
            b.push(0);
            b.push(0);
            b.push(0);
        },
    }
    match e.u6 {
        u6::u6_struct1(s) => {
            let mut w = u64_to_le_bytes(s.addr3);
            b.append(&mut w);
            let mut w = u64_to_le_bytes(s._pad2);
            b.append(&mut w);
        },
        u6::u6_struct2(s) => {
            let mut w = u64_to_le_bytes(s.attr_ptr);
            b.append(&mut w);
            let mut w = u64_to_le_bytes(s.attr_type_mask);
            b.append(&mut w);
        },
        u6::optval(x) => {
            let mut w = u64_to_le_bytes(x);
            b.append(&mut w);
            let mut w = u64_to_le_bytes(0);
            b.append(&mut w);
        },
    }
    proof {
        assert(b@ =~= spec_sqe_bytes(*e));
    }
    b
}

/// The 16 wire bytes of a completion entry: token, result (two's
/// complement), flags.
pub open spec fn spec_cqe_bytes(c: io_uring_cqe) -> Seq<u8> {
    spec_u64_to_le_bytes(c.user_data) + spec_u32_to_le_bytes(c.res as u32) + spec_u32_to_le_bytes(
        c.flags,
    )
}

/// The completion entry read from 16 wire bytes.
pub open spec fn spec_cqe_of_bytes(b: Seq<u8>) -> io_uring_cqe {
    io_uring_cqe {
        user_data: spec_u64_from_le_bytes(b.subrange(0, 8)),
        res: spec_u32_from_le_bytes(b.subrange(8, 12)) as i32,
        flags: spec_u32_from_le_bytes(b.subrange(12, 16)),
    }
}

/// Encodes a completion entry into its 16 wire bytes (the model engine and
/// the tests write completions this way).
pub fn encode_cqe(c: &io_uring_cqe) -> (b: Vec<u8>)
    ensures
        b@ == spec_cqe_bytes(*c),
        b@.len() == 16,
{
    let mut b: Vec<u8> = Vec::new();
    let mut w = u64_to_le_bytes(c.user_data);
    b.append(&mut w);
    let mut w = u32_to_le_bytes(c.res as u32);
    b.append(&mut w);
    let mut w = u32_to_le_bytes(c.flags);
    b.append(&mut w);
    proof {
        assert(b@ =~= spec_cqe_bytes(*c));
    }
    b
}

/// Reads a completion entry out of the 16 bytes of its slot.
pub fn decode_cqe(b: &[u8]) -> (c: io_uring_cqe)
    requires
        b@.len() == 16,
    ensures
        c == spec_cqe_of_bytes(b@),
{
    let user_data = u64_from_le_bytes(slice_subrange(b, 0, 8));
    let res_bits = u32_from_le_bytes(slice_subrange(b, 8, 12));
    let flags = u32_from_le_bytes(slice_subrange(b, 12, 16));
    io_uring_cqe { user_data, res: res_bits as i32, flags }
}

/// Decoding inverts encoding: a completion entry survives the trip through
/// its 16 wire bytes unchanged.
pub proof fn lemma_cqe_round_trip(c: io_uring_cqe)
    ensures
        spec_cqe_of_bytes(spec_cqe_bytes(c)) == c,
{
    vstd::bytes::lemma_auto_spec_u64_to_from_le_bytes();
    vstd::bytes::lemma_auto_spec_u32_to_from_le_bytes();
    assert(spec_cqe_bytes(c).subrange(0, 8) =~= spec_u64_to_le_bytes(c.user_data));
    assert(spec_cqe_bytes(c).subrange(8, 12) =~= spec_u32_to_le_bytes(c.res as u32));
    assert(spec_cqe_bytes(c).subrange(12, 16) =~= spec_u32_to_le_bytes(c.flags));
    let r = c.res;
    assert((r as u32) as i32 == r) by (bit_vector);
}

/// The entry a build with the given operands produces: the requested opcode
/// with its operands in the arms the opcode reads, and every other byte
/// zero.
pub open spec fn spec_build(
    opcode: u8,
    fd: i32,
    addr: u64,
    len: u32,
    op_flags: u32,
    user_data: u64,
) -> io_uring_sqe {
    io_uring_sqe {
        opcode,
        flags: 0,
        ioprio: 0,
        fd,
        u1: u1::off(0),
        u2: u2::addr(addr),
        len,
        u3: op_flags,
        user_data,
        u4: 0,
        personality: 0,
        u5: u5::splice_fd_in(0),
        u6: u6::optval(0),
    }
}

/// Builds a submission entry from a logical request. Succeeds exactly on the
/// opcodes of the closed table; an unknown opcode is rejected with a
/// [`BuildError`] naming it, never encoded as an ambiguous zeroed record.
pub fn build_sqe(opcode: u8, fd: i32, addr: u64, len: u32, op_flags: u32, user_data: u64) -> (r:
    Result<io_uring_sqe, BuildError>)
    ensures
        known_opcode(opcode) <==> r is Ok,
        match r {
            Ok(e) => e == spec_build(opcode, fd, addr, len, op_flags, user_data),
            Err(b) => b.opcode == opcode,
        },
{
    if opcode == IORING_OP_NOP {
        Ok(
            io_uring_sqe {
                opcode,
                flags: 0,
                ioprio: 0,
                fd,
                u1: u1::off(0),
                u2: u2::addr(addr),
                len,
                u3: op_flags,
                user_data,
                u4: 0,
                personality: 0,
                u5: u5::splice_fd_in(0),
                u6: u6::optval(0),
            },
        )
    } else {
        Err(BuildError { opcode })
    }
}

/// Builds the minimal no-op entry: `fd = -1`, both address operands zero,
/// zero length, and the caller's correlation token.
pub fn make_nop(user_data: u64) -> (e: io_uring_sqe)
    ensures
        e == spec_build(IORING_OP_NOP, -1i32, 0, 0, 0, user_data),
        e.opcode == IORING_OP_NOP,
        e.fd == -1i32,
        e.len == 0,
        e.user_data == user_data,
{
    let r = build_sqe(IORING_OP_NOP, -1, 0, 0, 0, user_data);
    match r {
        Ok(e) => e,
        Err(_) => {
            proof {
                assert(false);
            }
            io_uring_sqe::zeroed()
        },
    }
}

} // verus!
