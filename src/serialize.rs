//! Byte layout of the values that the GPU backend reads.
//!
//! Numbers go over as little-endian 32-bit words. A real number travels as
//! the bit pattern of its `f32` rounding, which the caller supplies.
use vstd::prelude::*;

verus! {

/// A value that can be written into a GPU buffer.
pub trait GpuSerialize {
    /// The bytes that stand for the value.
    spec fn serialized(&self) -> Seq<u8>;

    fn serialize(&self) -> (r: Vec<u8>)
        ensures
            r@ == self.serialized(),
    ;

    fn serialized_size(&self) -> (r: usize)
        ensures
            r == self.serialized().len(),
    {
        self.serialize().len()
    }
}

/// The four bytes of `v`, least significant first.
pub open spec fn le_bytes(v: u32) -> Seq<u8> {
    seq![
        (v & 0xff) as u8,
        ((v >> 8u32) & 0xff) as u8,
        ((v >> 16u32) & 0xff) as u8,
        ((v >> 24u32) & 0xff) as u8,
    ]
}

impl GpuSerialize for u32 {
    open spec fn serialized(&self) -> Seq<u8> {
        le_bytes(*self)
    }

    fn serialize(&self) -> (r: Vec<u8>) {
        let v = *self;
        assert((v & 0xff) < 256 && ((v >> 8u32) & 0xff) < 256 && ((v >> 16u32) & 0xff) < 256
            && ((v >> 24u32) & 0xff) < 256) by (bit_vector);
        let r = vec![
            (v & 0xff) as u8,
            ((v >> 8u32) & 0xff) as u8,
            ((v >> 16u32) & 0xff) as u8,
            ((v >> 24u32) & 0xff) as u8,
        ];
        assert(r@ =~= le_bytes(v));
        assert(self.serialized() == le_bytes(v));
        r
    }
}

} // verus!
