use rayon::iter::{IndexedParallelIterator, ParallelIterator};
use rayon::slice::{ParallelSlice, ParallelSliceMut};
use vstd::prelude::*;

verus! {

/// The detector's input for a captured buffer: for each complete pixel of four
/// bytes (blue, green, red, alpha) the three bytes red, green, blue. Bytes
/// after the last complete pixel are left out.
pub open spec fn bgra_to_rgb(bgra: Seq<u8>) -> Seq<u8> {
    Seq::new(3 * (bgra.len() / 4), |j: int| bgra[4 * (j / 3) + 2 - j % 3])
}

/// The way back: for each complete pixel of three bytes (red, green, blue) the
/// four bytes blue, green, red and an alpha of 255.
pub open spec fn rgb_to_bgra(rgb: Seq<u8>) -> Seq<u8> {
    Seq::new(
        4 * (rgb.len() / 3),
        |j: int|
            if j % 4 == 3 {
                255u8
            } else {
                rgb[3 * (j / 4) + 2 - j % 4]
            },
    )
}

/// A buffer cut or grown to `len` bytes; bytes that are new are zero.
pub open spec fn resized(buf: Seq<u8>, len: nat) -> Seq<u8> {
    Seq::new(
        len,
        |j: int|
            if j < buf.len() {
                buf[j]
            } else {
                0u8
            },
    )
}

/// The detector's input for a frame of `pixels` pixels: the buffer is set to
/// three bytes per pixel, and each pixel that the captured buffer holds in
/// full is converted. What the captured buffer does not reach keeps what the
/// buffer held there before, or zero where it is new.
pub open spec fn frame_rgb(bgra: Seq<u8>, prior: Seq<u8>, pixels: nat) -> Seq<u8> {
    Seq::new(
        3 * pixels,
        |j: int|
            if j / 3 < bgra.len() / 4 {
                bgra[4 * (j / 3) + 2 - j % 3]
            } else {
                resized(prior, 3 * pixels)[j]
            },
    )
}

/// A buffer after its pixels were converted in place: each group of three
/// bytes for which the captured buffer holds a complete pixel is that pixel's
/// red, green and blue; every other byte is what it was.
pub open spec fn chunks_converted(bgra: Seq<u8>, prior: Seq<u8>) -> Seq<u8> {
    Seq::new(
        prior.len(),
        |j: int|
            if j / 3 < prior.len() / 3 && j / 3 < bgra.len() / 4 {
                bgra[4 * (j / 3) + 2 - j % 3]
            } else {
                prior[j]
            },
    )
}

/// Converts one pixel: red, green and blue from blue, green, red and alpha.
pub fn convert_pixel(px: &[u8], out: &mut [u8])
    requires
        px@.len() == 4,
        old(out)@.len() == 3,
    ensures
        final(out)@ == seq![px@[2], px@[1], px@[0]],
{
    out[0] = px[2];
    out[1] = px[1];
    out[2] = px[0];
    assert(out@ =~= seq![px@[2], px@[1], px@[0]]);
}

/// rayon's `par_chunks_exact_mut(3)` on the output, zipped with
/// `par_chunks_exact(4)` on the captured buffer, and `for_each` with
/// `convert_pixel`. The contract takes from rayon that the chunks are the
/// consecutive groups of exactly three and four bytes, that the zip pairs
/// them by position and ends with the shorter side, that each pair is
/// visited once, and that bytes outside the chunks are left alone.
#[verifier::external_body]
fn convert_chunks(rgba: &[u8], rgb: &mut Vec<u8>)
    ensures
        final(rgb)@ == chunks_converted(rgba@, old(rgb)@),
{
    rgb.par_chunks_exact_mut(3).zip(rgba.par_chunks_exact(4)).for_each(
        |(out, px)| convert_pixel(px, out),
    );
}

/// Converts a captured buffer into the detector's input.
pub fn convert(src: &[u8], dst: &mut Vec<u8>)
    ensures
        final(dst)@ == bgra_to_rgb(src@),
{
    let pixels: usize = src.len() / 4;
    dst.clear();
    dst.resize(3 * pixels, 0u8);
    convert_chunks(src, dst);
    assert(dst@ =~= bgra_to_rgb(src@));
}

/// Expands the detector's input back to four bytes per pixel, with an alpha
/// of 255.
pub fn expand(src: &[u8], dst: &mut Vec<u8>)
    ensures
        final(dst)@ == rgb_to_bgra(src@),
{
    dst.clear();
    let n: usize = src.len() / 3;
    let mut i: usize = 0;
    while i < n
        invariant
            n == src@.len() / 3,
            3 * n <= src@.len() <= usize::MAX,
            i <= n,
            dst@.len() == 4 * i,
            forall|j: int|
                0 <= j < 4 * i ==> dst@[j] == if j % 4 == 3 {
                    255u8
                } else {
                    src@[3 * (j / 4) + 2 - j % 4]
                },
        decreases n - i,
    {
        dst.push(src[3 * i + 2]);
        dst.push(src[3 * i + 1]);
        dst.push(src[3 * i]);
        dst.push(255u8);
        i = i + 1;
    }
    assert(dst@ =~= rgb_to_bgra(src@));
}

/// Whether the detector's input for a frame of this size can be held in
/// memory at all.
pub open spec fn frame_fits(width: u32, height: u32) -> bool {
    3 * width * height <= isize::MAX
}

/// Tests `frame_fits`.
pub fn check_frame_fits(width: u32, height: u32) -> (fits: bool)
    ensures
        fits == frame_fits(width, height),
{
    assert(width * height <= 0xffff_ffff * 0xffff_ffff) by (nonlinear_arith)
        requires
            width <= 0xffff_ffff,
            height <= 0xffff_ffff,
    ;
    let pixels: u64 = (width as u64) * (height as u64);
    let limit: u64 = (isize::MAX as u64) / 3;
    assert(3 * width * height == 3 * (width * height)) by (nonlinear_arith);
    pixels <= limit
}

/// Whether a buffer of `len` bytes holds four bytes for each pixel of a frame
/// of `width` by `height` pixels, no more and no less.
pub fn holds_whole_frame(len: usize, width: u32, height: u32) -> (whole: bool)
    ensures
        whole == (len == 4 * (width * height)),
{
    assert(width * height <= 0xffff_ffff * 0xffff_ffff) by (nonlinear_arith)
        requires
            width <= 0xffff_ffff,
            height <= 0xffff_ffff,
    ;
    assert(0 <= width * height) by (nonlinear_arith);
    let pixels: u128 = (width as u128) * (height as u128);
    (len as u128) == 4 * pixels
}

/// Makes the detector's input for a frame of `width` by `height` pixels from
/// the captured buffer.
pub fn convert_frame(rgba: &Vec<u8>, rgb: &mut Vec<u8>, width: u32, height: u32)
    requires
        frame_fits(width, height),
    ensures
        final(rgb)@ == frame_rgb(rgba@, old(rgb)@, (width * height) as nat),
        rgba@.len() == 4 * width * height ==> final(rgb)@ == bgra_to_rgb(rgba@),
{
    let ghost prior = rgb@;
    assert(3 * width * height == 3 * (width * height)) by (nonlinear_arith);
    assert(0 <= width * height) by (nonlinear_arith);
    let pixels: usize = (width as usize) * (height as usize);
    rgb.resize(3 * pixels, 0u8);
    assert(rgb@ =~= resized(prior, (3 * pixels) as nat));
    convert_chunks(rgba.as_slice(), rgb);
    assert(rgb@ =~= frame_rgb(rgba@, prior, pixels as nat));
    assert(4 * width * height == 4 * (width * height)) by (nonlinear_arith);
    assert(rgba@.len() == 4 * pixels ==> rgb@ =~= bgra_to_rgb(rgba@));
}

/// Converting and expanding again gives back every colour byte of the
/// captured buffer; only the alpha is lost, which comes back as 255. This
/// holds of every buffer made of complete pixels.
pub proof fn lemma_convert_expand_round_trip(bgra: Seq<u8>)
    requires
        bgra.len() % 4 == 0,
    ensures
        rgb_to_bgra(bgra_to_rgb(bgra)).len() == bgra.len(),
        forall|j: int|
            0 <= j < bgra.len() ==> #[trigger] rgb_to_bgra(bgra_to_rgb(bgra))[j] == if j % 4 == 3 {
                255u8
            } else {
                bgra[j]
            },
{
    let rgb = bgra_to_rgb(bgra);
    let back = rgb_to_bgra(rgb);
    assert(rgb.len() == 3 * (bgra.len() / 4));
    assert(back.len() == bgra.len());
    assert forall|j: int| 0 <= j < bgra.len() implies #[trigger] back[j] == if j % 4 == 3 {
        255u8
    } else {
        bgra[j]
    } by {
        if j % 4 != 3 {
            let k = 3 * (j / 4) + 2 - j % 4;
            assert(0 <= k < rgb.len());
            assert(k / 3 == j / 4);
            assert(k % 3 == 2 - j % 4);
            assert(rgb[k] == bgra[4 * (k / 3) + 2 - k % 3]);
        }
    }
}

/// Expanding and converting again gives back the detector's input as it was,
/// for every input made of complete pixels.
pub proof fn lemma_expand_convert_round_trip(rgb: Seq<u8>)
    requires
        rgb.len() % 3 == 0,
    ensures
        bgra_to_rgb(rgb_to_bgra(rgb)) == rgb,
{
    let wide = rgb_to_bgra(rgb);
    let back = bgra_to_rgb(wide);
    assert(wide.len() == 4 * (rgb.len() / 3));
    assert(back.len() == rgb.len());
    assert forall|j: int| 0 <= j < rgb.len() implies back[j] == rgb[j] by {
        let k = 4 * (j / 3) + 2 - j % 3;
        assert(0 <= k < wide.len());
        assert(k / 4 == j / 3);
        assert(k % 4 == 2 - j % 3);
    }
    assert(back =~= rgb);
}

/// Pixels are converted independently: the conversion of two buffers laid end
/// to end, the first made of complete pixels, is the two conversions laid end
/// to end. So a buffer may be cut at any pixel boundary and its parts
/// converted in any order, or at once.
pub proof fn lemma_convert_splits(head: Seq<u8>, tail: Seq<u8>)
    requires
        head.len() % 4 == 0,
    ensures
        bgra_to_rgb(head + tail) == bgra_to_rgb(head) + bgra_to_rgb(tail),
{
    let whole = bgra_to_rgb(head + tail);
    let parts = bgra_to_rgb(head) + bgra_to_rgb(tail);
    let h = head.len() / 4;
    assert(head.len() == 4 * h);
    assert((head + tail).len() / 4 == h + tail.len() / 4);
    assert(whole.len() == parts.len());
    assert forall|j: int| 0 <= j < whole.len() implies whole[j] == parts[j] by {
        if j < 3 * h {
            assert(j / 3 < h);
        } else {
            let t = j - 3 * h;
            assert(t / 3 == j / 3 - h);
            assert(t % 3 == j % 3);
            assert(4 * (j / 3) + 2 - j % 3 - head.len() == 4 * (t / 3) + 2 - t % 3);
        }
    }
    assert(whole =~= parts);
}

} // verus!
