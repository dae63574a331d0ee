//! Models of the host server's buffer and buffer-chain structures.
//!
//! The host describes request and response bodies as singly-linked chains of
//! nodes, each node pointing at a buffer: a contiguous byte range plus a set
//! of delivery flags.  Here the byte range is held directly as the bytes
//! between the range's start and end, a possibly-null pointer is an `Option`,
//! and the bit flags are named booleans.

use vstd::prelude::*;

verus! {

/// The delivery flags of a [`Buffer`], one named boolean per host bit flag.
#[derive(Clone, Copy, Debug, PartialEq, Eq, Structural)]
pub struct BufferFlags {
    /// The buffer is the final buffer of the whole response.
    pub last_buf: bool,
    /// The buffer is the final buffer of its output chain.
    pub last_in_chain: bool,
    /// The byte range refers to plain memory, not to a file.
    pub memory: bool,
}

impl BufferFlags {
    /// True when every flag is cleared, as a freshly pool-allocated,
    /// zero-filled buffer descriptor has them.
    pub open spec fn all_clear(self) -> bool {
        self == (BufferFlags { last_buf: false, last_in_chain: false, memory: false })
    }

    /// True when every flag is set, as the response writer leaves them on its
    /// single output buffer.
    pub open spec fn all_set(self) -> bool {
        self == (BufferFlags { last_buf: true, last_in_chain: true, memory: true })
    }
}

/// A contiguous byte range with delivery flags: the model of one host buffer
/// descriptor.  The bytes stand for the range between the descriptor's start
/// and end pointers.
#[derive(Debug)]
pub struct Buffer {
    /// The bytes of the range, in order.
    pub bytes: Vec<u8>,
    /// The delivery flags.
    pub flags: BufferFlags,
}

/// One node of a buffer chain: a possibly-missing buffer and a link to the
/// next node.  A missing buffer models a null buffer pointer in the host's
/// node.
#[derive(Debug)]
pub struct ChainNode {
    /// The buffer the node points at, if any.
    pub buf: Option<Buffer>,
    /// The rest of the chain.
    pub next: Option<Box<ChainNode>>,
}

/// The number of nodes in the chain that starts at `node`.
pub open spec fn chain_len(node: ChainNode) -> nat
    decreases node,
{
    match node.next {
        None => 1,
        Some(rest) => 1 + chain_len(*rest),
    }
}

/// The number of buffers in the chain that carry both "final buffer of the
/// response" and "final buffer of the chain" flags.
pub open spec fn final_buffer_count(node: ChainNode) -> nat
    decreases node,
{
    let here: nat = match node.buf {
        Some(b) => if b.flags.last_buf && b.flags.last_in_chain {
            1nat
        } else {
            0nat
        },
        None => 0nat,
    };
    match node.next {
        None => here,
        Some(rest) => here + final_buffer_count(*rest),
    }
}

/// True when `node` is a one-node chain whose buffer holds exactly `bytes`
/// and carries all three delivery flags: the only shape of chain the response
/// writer ever emits.
pub open spec fn is_single_final_chain(node: ChainNode, bytes: Seq<u8>) -> bool {
    &&& node.next is None
    &&& node.buf matches Some(b) && b.bytes@ == bytes && b.flags.all_set()
}

/// A chain of the shape the response writer emits has exactly one node, and
/// exactly one buffer marked as both final-of-response and final-of-chain —
/// never zero and never more than one.
pub proof fn lemma_single_final_chain_counts(node: ChainNode, bytes: Seq<u8>)
    requires
        is_single_final_chain(node, bytes),
    ensures
        chain_len(node) == 1,
        final_buffer_count(node) == 1,
{
}

} // verus!
