//! Interrupt descriptors and interrupt-control requests.
//!
//! An interrupt-control request is a fixed header (data kind, action, index,
//! vector range) followed by a raw little-endian payload — here the
//! event-signaling handles to install. The builders in `device` produce these
//! requests; `apply_irq_set` models what the kernel's interrupt-control call
//! does to the per-index installation state, and the lemma at the bottom shows
//! that an enable followed by a disable of the same index leaves no vector
//! installed.

use vstd::prelude::*;

use crate::bytes::{le32_at, le32_words_bytes, le32_bytes, push_le32};
use crate::errors::VfioError;
use crate::{
    VFIO_IRQ_SET_ACTION_TRIGGER, VFIO_IRQ_SET_ACTION_UNMASK, VFIO_IRQ_SET_DATA_EVENTFD,
    VFIO_IRQ_SET_DATA_NONE, VFIO_IRQ_SET_SIZE,
};

verus! {

/// One interrupt index of a device, immutable once discovered.
#[derive(Copy, Clone, Debug, PartialEq, Eq, Structural)]
pub struct VfioIrq {
    /// Flags reported for the index.
    pub flags: u32,
    /// The index itself.
    pub index: u32,
    /// Number of interrupt vectors at this index.
    pub count: u32,
}

/// An interrupt-control request, ready to be handed to the kernel transport:
/// the fixed header fields and the trailing payload bytes, with `argsz`
/// already covering both.
#[derive(Clone, Debug, PartialEq)]
pub struct IrqSetRequest {
    /// Total byte size of the request structure, header plus payload.
    pub argsz: u32,
    /// Data-kind and action flags.
    pub flags: u32,
    /// The interrupt index the request addresses.
    pub index: u32,
    /// First vector addressed.
    pub start: u32,
    /// Number of vectors addressed.
    pub count: u32,
    /// Raw little-endian payload.
    pub data: Vec<u8>,
}

/// Mathematical model of an interrupt-control request.
pub ghost struct IrqSetModel {
    pub argsz: u32,
    pub flags: u32,
    pub index: u32,
    pub start: u32,
    pub count: u32,
    pub data: Seq<u8>,
}

impl IrqSetRequest {
    /// The model of this request.
    pub open spec fn model(self) -> IrqSetModel {
        IrqSetModel {
            argsz: self.argsz,
            flags: self.flags,
            index: self.index,
            start: self.start,
            count: self.count,
            data: self.data@,
        }
    }
}

/// The request that fires vector `vector` of `index` once, in software.
pub open spec fn trigger_request(index: u32, vector: u32) -> IrqSetModel {
    IrqSetModel {
        argsz: VFIO_IRQ_SET_SIZE,
        flags: VFIO_IRQ_SET_DATA_NONE | VFIO_IRQ_SET_ACTION_TRIGGER,
        index,
        start: vector,
        count: 1,
        data: Seq::empty(),
    }
}

/// The request that installs the given event-signaling handles as the
/// delivery targets of vectors `[0, fds.len())` of `index`.
pub open spec fn enable_request(index: u32, fds: Seq<i32>) -> IrqSetModel {
    IrqSetModel {
        argsz: (VFIO_IRQ_SET_SIZE + 4 * fds.len()) as u32,
        flags: VFIO_IRQ_SET_DATA_EVENTFD | VFIO_IRQ_SET_ACTION_TRIGGER,
        index,
        start: 0,
        count: fds.len() as u32,
        data: le32_words_bytes(fds.map_values(|f: i32| f as u32)),
    }
}

/// The request that clears every vector installation of `index`.
pub open spec fn disable_request(index: u32) -> IrqSetModel {
    IrqSetModel {
        argsz: VFIO_IRQ_SET_SIZE,
        flags: VFIO_IRQ_SET_DATA_NONE | VFIO_IRQ_SET_ACTION_TRIGGER,
        index,
        start: 0,
        count: 0,
        data: Seq::empty(),
    }
}

/// The request that clears the mask on vector 0 of `index`.
pub open spec fn unmask_request(index: u32) -> IrqSetModel {
    IrqSetModel {
        argsz: VFIO_IRQ_SET_SIZE,
        flags: VFIO_IRQ_SET_DATA_NONE | VFIO_IRQ_SET_ACTION_UNMASK,
        index,
        start: 0,
        count: 1,
        data: Seq::empty(),
    }
}

/// The first descriptor with the given index, scanning from the front.
pub open spec fn find_irq(s: Seq<VfioIrq>, index: u32) -> Option<VfioIrq>
    decreases s.len(),
{
    if s.len() == 0 {
        None
    } else if s[0].index == index {
        Some(s[0])
    } else {
        find_irq(s.drop_first(), index)
    }
}

/// The vector count at `index`, or zero when the index is absent.
pub open spec fn irq_count_of(s: Seq<VfioIrq>, index: u32) -> u32 {
    match find_irq(s, index) {
        Some(irq) => irq.count,
        None => 0,
    }
}

/// The 32-bit words carried by a request payload.
pub open spec fn payload_words(data: Seq<u8>) -> Seq<u32> {
    Seq::new(data.len() / 4, |i: int| le32_at(data, 4 * i))
}

/// What the kernel's interrupt-control call does to the per-index
/// installation state: installing event-signaling handles overwrites the
/// index's installation with the payload words; a trigger request with a
/// vector count of zero clears the index; every other request (a software
/// trigger, an unmask) leaves the installations unchanged.
pub open spec fn apply_irq_set(m: Map<u32, Seq<u32>>, r: IrqSetModel) -> Map<u32, Seq<u32>> {
    if r.flags == VFIO_IRQ_SET_DATA_EVENTFD | VFIO_IRQ_SET_ACTION_TRIGGER && r.start == 0 {
        m.insert(r.index, payload_words(r.data))
    } else if r.flags == VFIO_IRQ_SET_DATA_NONE | VFIO_IRQ_SET_ACTION_TRIGGER && r.count == 0 {
        m.insert(r.index, Seq::empty())
    } else {
        m
    }
}

/// Enabling an index and then immediately disabling it leaves no vector of
/// that index installed, whatever was installed before and whatever handles
/// the enable carried.
pub proof fn lemma_enable_then_disable(m: Map<u32, Seq<u32>>, index: u32, fds: Seq<i32>)
    ensures
        ({
            let after = apply_irq_set(
                apply_irq_set(m, enable_request(index, fds)),
                disable_request(index),
            );
            after.dom().contains(index) && after[index] == Seq::<u32>::empty()
        }),
{
    assert((VFIO_IRQ_SET_DATA_NONE | VFIO_IRQ_SET_ACTION_TRIGGER) != (VFIO_IRQ_SET_DATA_EVENTFD
        | VFIO_IRQ_SET_ACTION_TRIGGER)) by (bit_vector);
}

/// Interprets the status of an interrupt-control call: a negative status is
/// `IrqSetFailed`.
pub fn irq_set_result(status: i32) -> (r: Result<(), VfioError>)
    ensures
        match r {
            Ok(()) => status >= 0,
            Err(e) => e == VfioError::IrqSetFailed && status < 0,
        },
{
    if status < 0 {
        Err(VfioError::IrqSetFailed)
    } else {
        Ok(())
    }
}

/// Appends one 32-bit word to `ws`: the payload grows by that word's four
/// little-endian bytes.
pub proof fn lemma_le32_words_bytes_push(ws: Seq<u32>, w: u32)
    ensures
        le32_words_bytes(ws.push(w)) == le32_words_bytes(ws) + le32_bytes(w),
    decreases ws.len(),
{
    if ws.len() == 0 {
        assert(ws.push(w).drop_first() =~= Seq::<u32>::empty());
        assert(le32_bytes(w) + le32_words_bytes(Seq::<u32>::empty()) =~= le32_bytes(w));
        assert(le32_words_bytes(Seq::<u32>::empty()) + le32_bytes(w) =~= le32_bytes(w));
    } else {
        assert(ws.push(w).drop_first() =~= ws.drop_first().push(w));
        lemma_le32_words_bytes_push(ws.drop_first(), w);
        assert(le32_bytes(ws[0]) + (le32_words_bytes(ws.drop_first()) + le32_bytes(w))
            =~= (le32_bytes(ws[0]) + le32_words_bytes(ws.drop_first())) + le32_bytes(w));
    }
}

/// Encodes raw event-signaling handles as the little-endian payload the
/// interrupt-control call expects: four bytes per handle, in order.
pub fn encode_fds(fds: &Vec<i32>) -> (r: Vec<u8>)
    ensures
        r@ == le32_words_bytes(fds@.map_values(|f: i32| f as u32)),
{
    let mut out: Vec<u8> = Vec::new();
    let mut i: usize = 0;
    proof {
        assert(fds@.subrange(0, 0).map_values(|f: i32| f as u32) =~= Seq::<u32>::empty());
    }
    while i < fds.len()
        invariant
            i <= fds@.len(),
            out@ == le32_words_bytes(fds@.subrange(0, i as int).map_values(|f: i32| f as u32)),
        decreases fds@.len() - i,
    {
        let ghost prefix = fds@.subrange(0, i as int).map_values(|f: i32| f as u32);
        proof {
            assert(fds@.subrange(0, i + 1).map_values(|f: i32| f as u32)
                =~= prefix.push(fds@[i as int] as u32));
            lemma_le32_words_bytes_push(prefix, fds@[i as int] as u32);
        }
        push_le32(&mut out, fds[i] as u32);
        i = i + 1;
    }
    proof {
        assert(fds@.subrange(0, fds@.len() as int) =~= fds@);
    }
    out
}

} // verus!
