use vstd::prelude::*;

verus! {

/// The device record handed to the decompressor's callbacks.
///
/// The record also carries the input file handle and the address of the
/// frame buffer; those are not held here.
#[derive(Clone, Copy, Debug, PartialEq, Eq, Structural)]
pub struct IODEV {
    /// Width of the frame buffer in pixels.
    pub wfbuf: u32,
}

impl IODEV {
    /// The cleared device record.
    pub open spec fn cleared() -> IODEV {
        IODEV { wfbuf: 0 }
    }

    /// Creates a cleared device record.
    pub fn new() -> (d: IODEV)
        ensures
            d == IODEV::cleared(),
    {
        IODEV { wfbuf: 0 }
    }
}

impl Default for IODEV {
    /// The default device record is the one `new` creates.
    fn default() -> (d: IODEV)
        ensures
            d == IODEV::cleared(),
    {
        IODEV::new()
    }
}

} // verus!
