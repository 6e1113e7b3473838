//! Shared record layouts of the ring transport.
//!
//! These records cross the process boundary: the completion engine fills the
//! parameter and offset blocks during negotiation, and the two rings exchange
//! fixed-size submission and completion entries. Field order and width follow
//! the engine's wire layout; the byte-level encoding itself lives in
//! [`crate::entry`], so nothing here depends on how the compiler lays the
//! structs out in memory.
use vstd::prelude::*;

verus! {

/// Negotiation parameter block: the process fills the request fields, the
/// engine fills `sq_entries`/`cq_entries`, `features` and the two offset
/// blocks.
#[derive(Clone, Copy, Debug, PartialEq)]
pub struct io_uring_params {
    pub sq_entries: u32,
    pub cq_entries: u32,
    pub flags: u32,
    pub sq_thread_cpu: u32,
    pub sq_thread_idle: u32,
    pub features: u32,
    pub wq_fd: u32,
    pub resv: [u32; 3],
    pub sq_off: io_sqring_offsets,
    pub cq_off: io_cqring_offsets,
}

/// Byte offsets of the submission-ring header fields and the index array
/// within the mapped submission-ring region. Chosen by the engine.
#[derive(Clone, Copy, Debug, PartialEq, Eq, Structural)]
pub struct io_sqring_offsets {
    pub head: u32,
    pub tail: u32,
    pub ring_mask: u32,
    pub ring_entries: u32,
    pub flags: u32,
    pub dropped: u32,
    pub array: u32,
    pub resv1: u32,
    pub user_addr: u64,
}

/// Byte offsets of the completion-ring header fields and the entry array
/// within the mapped completion-ring region. Chosen by the engine.
#[derive(Clone, Copy, Debug, PartialEq, Eq, Structural)]
pub struct io_cqring_offsets {
    pub head: u32,
    pub tail: u32,
    pub ring_mask: u32,
    pub ring_entries: u32,
    pub overflow: u32,
    pub cqes: u32,
    pub resv1: u32,
    pub user_addr: u64,
}

/// Completion entry: written by the engine, consumed exactly once by the
/// completion consumer. `user_data` echoes the correlation token of the
/// matching submission.
#[derive(Clone, Copy, Debug, PartialEq, Eq, Structural)]
pub struct io_uring_cqe {
    pub user_data: u64,
    pub res: i32,
    pub flags: u32,
}

/// First operand word of a submission entry (bytes 8..16 on the wire). The
/// engine reads the arm selected by the opcode; the build table keeps the
/// selection exhaustive.
#[derive(Clone, Copy, Debug, PartialEq, Eq, Structural)]
pub enum u1 {
    off(u64),
    addr2(u64),
    u1_struct(u1_struct),
}

/// Compare-operation arm of [`u1`]; the upper four bytes are padding and are
/// encoded as written.
#[derive(Clone, Copy, Debug, PartialEq, Eq, Structural)]
pub struct u1_struct {
    pub cmp_op: u32,
    pub _pad1: u32,
}

/// Second operand word of a submission entry (bytes 16..24 on the wire).
#[derive(Clone, Copy, Debug, PartialEq, Eq, Structural)]
pub enum u2 {
    addr(u64),
    splice_off_in(u64),
    u2_struct(u2_struct),
}

/// Socket-option arm of [`u2`].
#[derive(Clone, Copy, Debug, PartialEq, Eq, Structural)]
pub struct u2_struct {
    pub level: u32,
    pub optname: u32,
}

/// Fifth operand word of a submission entry (bytes 44..48 on the wire).
#[derive(Clone, Copy, Debug, PartialEq, Eq, Structural)]
pub enum u5 {
    splice_fd_in(i32),
    file_index(u32),
    u5_struct1(u5_struct1),
    u5_struct2(u5_struct2),
}

/// Address-length arm of [`u5`].
#[derive(Clone, Copy, Debug, PartialEq, Eq, Structural)]
pub struct u5_struct1 {
    pub addr_len: u16,
    pub _pad3: u16,
}

/// Write-stream arm of [`u5`]; the three trailing padding bytes are encoded
/// as zero.
#[derive(Clone, Copy, Debug, PartialEq, Eq, Structural)]
pub struct u5_struct2 {
    pub write_stream: u8,
}

/// Sixth operand word of a submission entry (bytes 48..64 on the wire).
#[derive(Clone, Copy, Debug, PartialEq, Eq, Structural)]
pub enum u6 {
    u6_struct1(u6_struct1),
    u6_struct2(u6_struct2),
    optval(u64),
}

/// Extended-address arm of [`u6`]; the second word is padding and is encoded
/// as written.
#[derive(Clone, Copy, Debug, PartialEq, Eq, Structural)]
pub struct u6_struct1 {
    pub addr3: u64,
    pub _pad2: u64,
}

/// Attribute-pointer arm of [`u6`].
#[derive(Clone, Copy, Debug, PartialEq, Eq, Structural)]
pub struct u6_struct2 {
    pub attr_ptr: u64,
    pub attr_type_mask: u64,
}

/// Submission entry: constructed by the entry builder, encoded into the
/// mapped entry array by the submission producer, and read only by the engine
/// thereafter. The operand unions of the wire format are represented as
/// tagged variants; the encoder maps each arm back to its aliased bytes.
#[derive(Clone, Copy, Debug, PartialEq, Eq, Structural)]
pub struct io_uring_sqe {
    pub opcode: u8,
    pub flags: u8,
    pub ioprio: u16,
    pub fd: i32,
    pub u1: u1,
    pub u2: u2,
    pub len: u32,
    /// Opcode-specific flags word (every arm of the wire union is a 32-bit
    /// flags value; a 16-bit arm is carried zero-extended).
    pub u3: u32,
    pub user_data: u64,
    /// Buffer index or buffer group id (both arms are the same 16-bit word).
    pub u4: u16,
    pub personality: u16,
    pub u5: u5,
    pub u6: u6,
}

/// The all-zero submission entry: every field zero, each union word in an
/// arm whose bytes are all zero.
pub open spec fn spec_zero_sqe() -> io_uring_sqe {
    io_uring_sqe {
        opcode: 0,
        flags: 0,
        ioprio: 0,
        fd: 0,
        u1: u1::off(0),
        u2: u2::addr(0),
        len: 0,
        u3: 0,
        user_data: 0,
        u4: 0,
        personality: 0,
        u5: u5::splice_fd_in(0),
        u6: u6::optval(0),
    }
}

impl io_uring_sqe {
    /// An entry with all bytes zero.
    pub fn zeroed() -> (e: io_uring_sqe)
        ensures
            e == spec_zero_sqe(),
    {
        io_uring_sqe {
            opcode: 0,
            flags: 0,
            ioprio: 0,
            fd: 0,
            u1: u1::off(0),
            u2: u2::addr(0),
            len: 0,
            u3: 0,
            user_data: 0,
            u4: 0,
            personality: 0,
            u5: u5::splice_fd_in(0),
            u6: u6::optval(0),
        }
    }
}

impl io_uring_cqe {
    /// A completion entry with all bytes zero.
    pub fn zeroed() -> (c: io_uring_cqe)
        ensures
            c.user_data == 0,
            c.res == 0,
            c.flags == 0,
    {
        io_uring_cqe { user_data: 0, res: 0, flags: 0 }
    }
}

} // verus!
