//! Plain-value models of the state records of a tiny JPEG decompressor:
//! the decoder session (`JDEC`), the I/O device handed to its callbacks
//! (`IODEV`) and the output rectangle (`JRECT`), together with the
//! RGB888 pixel packing used to show a decoded frame.

pub mod decoder;
pub mod device;
pub mod pixel;
pub mod rect;

pub use decoder::JDEC;
pub use device::IODEV;
pub use rect::JRECT;
