use vstd::prelude::*;

verus! {

/// The 0RGB word of a pixel: red in bits 16..24, green in bits 8..16 and
/// blue in bits 0..8, the top byte zero.
pub open spec fn packed(r: u8, g: u8, b: u8) -> int {
    r * 65536 + g * 256 + b
}

/// The 0RGB words of the first `n` pixels of an RGB888 buffer, which
/// stores three bytes (red, green, blue) per pixel.
pub open spec fn unpacked_frame(frame: Seq<u8>, n: int) -> Seq<u32> {
    Seq::new(n as nat, |i: int| packed(frame[3 * i], frame[3 * i + 1], frame[3 * i + 2]) as u32)
}

/// Packs three colour channels into a 0RGB word.
pub fn from_u8_rgb(r: u8, g: u8, b: u8) -> (p: u32)
    ensures
        p == packed(r, g, b),
        p < 0x100_0000,
        p >> 16 == r as u32,
        (p >> 8) & 0xff == g as u32,
        p & 0xff == b as u32,
{
    let (r32, g32, b32) = (r as u32, g as u32, b as u32);
    let p = (r32 << 16) | (g32 << 8) | b32;
    assert(p == r32 * 65536 + g32 * 256 + b32 && p < 0x100_0000 && p >> 16 == r32 && (p >> 8)
        & 0xff == g32 && p & 0xff == b32) by (bit_vector)
        requires
            r32 < 256,
            g32 < 256,
            b32 < 256,
            p == (r32 << 16) | (g32 << 8) | b32,
    ;
    p
}

/// Packing keeps every channel: the red, green and blue bytes read back
/// from a packed word are the ones that went in, and the top byte is zero.
pub proof fn lemma_packed_channels(r: u8, g: u8, b: u8)
    ensures
        0 <= packed(r, g, b) < 0x100_0000,
        (packed(r, g, b) as u32) >> 16 == r as u32,
        ((packed(r, g, b) as u32) >> 8) & 0xff == g as u32,
        (packed(r, g, b) as u32) & 0xff == b as u32,
{
    let p: u32 = (r * 65536 + g * 256 + b) as u32;
    let (r32, g32, b32) = (r as u32, g as u32, b as u32);
    assert(p == r32 * 65536 + g32 * 256 + b32);
    assert(p >> 16 == r32 && (p >> 8) & 0xff == g32 && p & 0xff == b32) by (bit_vector)
        requires
            r32 < 256,
            g32 < 256,
            b32 < 256,
            p == r32 * 65536 + g32 * 256 + b32,
    ;
}

/// Two pixels pack to the same word only when all three channels agree.
pub proof fn lemma_packed_injective(r1: u8, g1: u8, b1: u8, r2: u8, g2: u8, b2: u8)
    requires
        packed(r1, g1, b1) == packed(r2, g2, b2),
    ensures
        r1 == r2,
        g1 == g2,
        b1 == b2,
{
    lemma_packed_channels(r1, g1, b1);
    lemma_packed_channels(r2, g2, b2);
}

/// Word `i` of the unpacked frame is the pixel stored in bytes `3*i`,
/// `3*i + 1` and `3*i + 2` of the frame, for every `i` below `n`, and the
/// unpacked frame has exactly `n` words.
pub proof fn lemma_unpacked_frame_pixel(frame: Seq<u8>, n: int, i: int)
    requires
        0 <= n,
        3 * n <= frame.len(),
        0 <= i < n,
    ensures
        unpacked_frame(frame, n).len() == n,
        unpacked_frame(frame, n)[i] == frame[3 * i] * 65536 + frame[3 * i + 1] * 256 + frame[3 * i + 2],
        unpacked_frame(frame, n)[i] >> 16 == frame[3 * i] as u32,
        (unpacked_frame(frame, n)[i] >> 8) & 0xff == frame[3 * i + 1] as u32,
        unpacked_frame(frame, n)[i] & 0xff == frame[3 * i + 2] as u32,
{
    lemma_packed_channels(frame[3 * i], frame[3 * i + 1], frame[3 * i + 2]);
}

/// Fills every word of `fb` with the pixel at the same position of the
/// RGB888 buffer `frame`: word `i` holds red `frame[3*i]`, green
/// `frame[3*i + 1]` and blue `frame[3*i + 2]`.
pub fn fill_from_rgb888(fb: &mut Vec<u32>, frame: &[u8])
    requires
        3 * old(fb).len() <= frame.len(),
    ensures
        final(fb)@ == unpacked_frame(frame@, old(fb).len() as int),
        final(fb)@.len() == old(fb)@.len(),
        forall|i: int|
            0 <= i < old(fb)@.len() ==> {
                &&& #[trigger] final(fb)@[i] == frame@[3 * i] * 65536 + frame@[3 * i + 1] * 256
                    + frame@[3 * i + 2]
                &&& final(fb)@[i] >> 16 == frame@[3 * i] as u32
                &&& (final(fb)@[i] >> 8) & 0xff == frame@[3 * i + 1] as u32
                &&& final(fb)@[i] & 0xff == frame@[3 * i + 2] as u32
            },
{
    let n = fb.len();
    let mut i: usize = 0;
    while i < n
        invariant
            n == fb.len(),
            3 * n <= frame.len(),
            i <= n,
            forall|j: int|
                0 <= j < i ==> {
                    &&& #[trigger] fb@[j] == frame@[3 * j] * 65536 + frame@[3 * j + 1] * 256
                        + frame@[3 * j + 2]
                    &&& fb@[j] >> 16 == frame@[3 * j] as u32
                    &&& (fb@[j] >> 8) & 0xff == frame@[3 * j + 1] as u32
                    &&& fb@[j] & 0xff == frame@[3 * j + 2] as u32
                },
        decreases n - i,
    {
        let off = i * 3;
        let p = from_u8_rgb(frame[off], frame[off + 1], frame[off + 2]);
        fb.set(i, p);
        i = i + 1;
    }
    assert(fb@ =~= unpacked_frame(frame@, n as int));
}

} // verus!
