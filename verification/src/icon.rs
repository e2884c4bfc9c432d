//! Icon extraction's data path: from the 32-bit device-independent bitmap
//! the operating system hands back to a PNG byte sequence.
//!
//! The operating system delivers icon pixels top-down, four bytes per pixel,
//! in BGRA byte order. This module validates the bitmap's shape, reorders
//! the channels to RGBA, and encodes the result as PNG through the `image`
//! crate. A malformed bitmap or a failed encoding yields no image at all —
//! never a corrupt one.

use vstd::prelude::*;

verus! {

/// A 32-bit-per-pixel device-independent bitmap as handed back by the
/// operating system: dimensions and top-down pixel rows in BGRA byte order.
pub struct IconBitmap {
    pub width: i32,
    pub height: i32,
    pub bgra: Vec<u8>,
}

impl IconBitmap {
    /// A well-formed bitmap: positive dimensions, and exactly four bytes in
    /// the pixel buffer for each of the `width * height` pixels.
    pub open spec fn valid(self) -> bool {
        0 < self.width && 0 < self.height && self.bgra@.len() == 4 * self.width * self.height
    }
}

/// The same pixels with the blue and red channels exchanged: within each
/// four-byte pixel, the bytes at offsets 0 and 2 swap places and the bytes
/// at offsets 1 and 3 stay.
pub open spec fn rgba_of(bgra: Seq<u8>) -> Seq<u8> {
    Seq::new(
        bgra.len(),
        |i: int|
            if i % 4 == 0 {
                bgra[i + 2]
            } else if i % 4 == 2 {
                bgra[i - 2]
            } else {
                bgra[i]
            },
    )
}

/// Reorders a BGRA pixel buffer into RGBA, pixel by pixel.
pub fn bgra_to_rgba(bgra: &Vec<u8>) -> (r: Vec<u8>)
    requires
        bgra@.len() % 4 == 0,
    ensures
        r@ == rgba_of(bgra@),
{
    let n = bgra.len();
    let mut out: Vec<u8> = Vec::new();
    let mut off: usize = 0;
    while off < n
        invariant
            bgra@.len() == n,
            n % 4 == 0,
            off % 4 == 0,
            off <= n,
            out@.len() == off,
            forall|j: int| 0 <= j < off ==> out@[j] == rgba_of(bgra@)[j],
        decreases n - off,
    {
        proof {
            assert(off + 4 <= n) by (nonlinear_arith)
                requires
                    off % 4 == 0,
                    n % 4 == 0,
                    off < n,
            ;
            assert((off + 1) % 4 == 1 && (off + 2) % 4 == 2 && (off + 3) % 4 == 3)
                by (nonlinear_arith)
                requires
                    off % 4 == 0,
            ;
        }
        let b = bgra[off];
        let g = bgra[off + 1];
        let red = bgra[off + 2];
        let a = bgra[off + 3];
        out.push(red);
        out.push(g);
        out.push(b);
        out.push(a);
        off = off + 4;
    }
    assert(out@ =~= rgba_of(bgra@));
    out
}

/// The channel reorder is its own inverse: applying it twice restores the
/// pixel buffer. In particular it only exchanges the blue and red channels
/// and loses nothing.
pub proof fn lemma_channel_swap_involutive(s: Seq<u8>)
    requires
        s.len() % 4 == 0,
    ensures
        rgba_of(rgba_of(s)) == s,
{
    let t = rgba_of(rgba_of(s));
    assert forall|i: int| 0 <= i < s.len() implies t[i] == s[i] by {
        if i % 4 == 0 {
            assert((i + 2) % 4 == 2 && i + 4 <= s.len()) by (nonlinear_arith)
                requires
                    i % 4 == 0,
                    0 <= i < s.len(),
                    s.len() % 4 == 0,
            ;
        } else if i % 4 == 2 {
            assert((i - 2) % 4 == 0 && i >= 2) by (nonlinear_arith)
                requires
                    i % 4 == 2,
                    0 <= i,
            ;
        }
    };
    assert(rgba_of(rgba_of(s)) =~= s);
}

/// What the `image` crate's PNG encoder produces for an RGBA pixel buffer
/// of the given dimensions: a function of the pixel data and the dimensions
/// alone.
pub uninterp spec fn png_of(width: u32, height: u32, rgba: Seq<u8>) -> Seq<u8>;

/// The eight bytes that open every PNG stream.
pub open spec fn png_signature() -> Seq<u8> {
    seq![137u8, 80u8, 78u8, 71u8, 13u8, 10u8, 26u8, 10u8]
}

/// Relies on `image::ImageBuffer::from_vec`, which accepts a buffer holding
/// exactly `width * height` RGBA pixels, and `ImageBuffer::write_to` with
/// `ImageFormat::Png`, which encodes those pixels losslessly as PNG — a
/// deterministic function of the dimensions and pixel bytes. Encoding into
/// an in-memory buffer fails only for zero width or height, and a produced
/// stream always opens with the PNG signature.
#[verifier::external_body]
fn encode_png(width: u32, height: u32, rgba: Vec<u8>) -> (r: Option<Vec<u8>>)
    requires
        rgba@.len() == 4 * width * height,
    ensures
        r matches Some(v) ==> v@ == png_of(width, height, rgba@),
        width > 0 && height > 0 ==> r is Some,
        r matches Some(v) ==> v@.len() >= 8 && v@.subrange(0, 8) == png_signature(),
{
    let img = match image::ImageBuffer::<image::Rgba<u8>, Vec<u8>>::from_vec(width, height, rgba) {
        Some(img) => img,
        None => return None,
    };
    let mut out: Vec<u8> = Vec::new();
    match img.write_to(&mut std::io::Cursor::new(&mut out), image::ImageFormat::Png) {
        Ok(()) => Some(out),
        Err(_) => None,
    }
}

/// Converts an icon's bitmap to a PNG byte sequence: validate the shape,
/// reorder BGRA to RGBA, encode. A well-formed bitmap is always encoded;
/// a malformed one yields `None`.
pub fn get_image_buffer(bitmap: &IconBitmap) -> (r: Option<Vec<u8>>)
    ensures
        r is Some <==> bitmap.valid(),
        r matches Some(v) ==> v@ == png_of(
            bitmap.width as u32,
            bitmap.height as u32,
            rgba_of(bitmap.bgra@),
        ) && v@.len() >= 8 && v@.subrange(0, 8) == png_signature(),
{
    if bitmap.width <= 0 || bitmap.height <= 0 {
        return None;
    }
    let w = bitmap.width as u32;
    let h = bitmap.height as u32;
    proof {
        assert(w as int == bitmap.width as int && h as int == bitmap.height as int);
        assert((4 * (w as int)) * (h as int) <= 0xffff_ffff_ffff_ffff) by (nonlinear_arith)
            requires
                w as int <= 0x7fff_ffff,
                h as int <= 0x7fff_ffff,
        ;
    }
    let expected: u64 = 4u64 * (w as u64) * (h as u64);
    if (bitmap.bgra.len() as u64) != expected {
        return None;
    }
    proof {
        assert(bitmap.bgra@.len() == 4 * (w as int) * (h as int));
        assert(4 * (w as int) * (h as int) == ((w as int) * (h as int)) * 4) by (nonlinear_arith);
        vstd::arithmetic::div_mod::lemma_mod_multiples_basic((w as int) * (h as int), 4);
        assert(bitmap.bgra@.len() % 4 == 0);
        assert(bitmap.bgra@.len() == 4 * bitmap.width * bitmap.height);
    }
    let rgba = bgra_to_rgba(&bitmap.bgra);
    encode_png(w, h, rgba)
}

/// The icon sub-step of identity resolution, given the outcome of the
/// operating system's icon lookup for the executable path. No icon — the
/// lookup failed or found none — degrades to the empty byte sequence, and
/// resolution goes on. A well-formed icon bitmap is converted and encoded,
/// always: the bytes handed on are non-empty and open with the PNG
/// signature, so they are empty exactly when no icon was extracted. A
/// malformed bitmap aborts with `None`, so that no partially built image
/// reaches the callback.
pub fn get_image_by_path(icon: Option<IconBitmap>) -> (r: Option<Vec<u8>>)
    ensures
        icon is None ==> (r matches Some(v) && v@ == Seq::<u8>::empty()),
        icon matches Some(b) && !b.valid() ==> r is None,
        icon matches Some(b) ==> (b.valid() ==> (r matches Some(v) && v@ == png_of(
            b.width as u32,
            b.height as u32,
            rgba_of(b.bgra@),
        ) && v@.len() >= 8 && v@.subrange(0, 8) == png_signature())),
{
    match icon {
        None => Some(Vec::new()),
        Some(bitmap) => get_image_buffer(&bitmap),
    }
}

} // verus!
