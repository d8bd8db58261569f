use vstd::prelude::*;

verus! {

/// The scalar state of a decompression session.
///
/// The session record of the decompressor also carries pointer-valued
/// members (the input buffer and read position, the Huffman and
/// dequantizer tables, the work buffers, the memory pool, the input
/// callback and the device handle); those are not held here.
pub struct JDEC {
    /// Number of bytes available in the input buffer.
    pub dctr: u32,
    /// Current bit in the byte being read.
    pub dmsk: u8,
    /// Output scaling ratio.
    pub scale: u8,
    /// MCU width in blocks.
    pub msx: u8,
    /// MCU height in blocks.
    pub msy: u8,
    /// Quantization table ID of each component.
    pub qtid: [u8; 3],
    /// Previous DC element of each component.
    pub dcv: [i16; 3],
    /// Restart interval.
    pub nrst: u16,
    /// Width of the input image in pixels.
    pub width: u16,
    /// Height of the input image in pixels.
    pub height: u16,
    /// Bytes still available in the memory pool.
    pub sz_pool: u32,
}

impl JDEC {
    /// Whether every member of the session is zero.
    pub open spec fn is_cleared(self) -> bool {
        &&& self.dctr == 0
        &&& self.dmsk == 0
        &&& self.scale == 0
        &&& self.msx == 0
        &&& self.msy == 0
        &&& self.qtid@ == seq![0u8, 0u8, 0u8]
        &&& self.dcv@ == seq![0i16, 0i16, 0i16]
        &&& self.nrst == 0
        &&& self.width == 0
        &&& self.height == 0
        &&& self.sz_pool == 0
    }

    /// Creates a session with every member cleared.
    pub fn new() -> (d: JDEC)
        ensures
            d.is_cleared(),
    {
        let d = JDEC {
            dctr: 0,
            dmsk: 0,
            scale: 0,
            msx: 0,
            msy: 0,
            qtid: [0u8, 0u8, 0u8],
            dcv: [0i16, 0i16, 0i16],
            nrst: 0,
            width: 0,
            height: 0,
            sz_pool: 0,
        };
        assert(d.qtid@ =~= seq![0u8, 0u8, 0u8]);
        assert(d.dcv@ =~= seq![0i16, 0i16, 0i16]);
        d
    }
}

impl Default for JDEC {
    /// The default session is the one `new` creates.
    fn default() -> (d: JDEC)
        ensures
            d.is_cleared(),
    {
        JDEC::new()
    }
}

} // verus!
