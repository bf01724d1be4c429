//! Validation of a frame request and assembly of the RGBA pixel buffer.
//!
//! A frame request names the raster dimensions, the plane rectangle and the
//! iteration bound; it is checked up front, before any pixel is computed.
//! Once the driver has produced the per-pixel iteration counts, in row-major
//! order, the library maps each count to one of eight gray bands and writes
//! the buffer: four bytes per pixel, red, green and blue all equal to the
//! band's shade and alpha always fully opaque.

use vstd::arithmetic::div_mod::lemma_fundamental_div_mod;
use vstd::prelude::*;

use crate::plane::Region;

verus! {

/// Why a frame request was rejected.
#[derive(Clone, Copy, Debug, PartialEq, Eq, Structural)]
pub enum RenderError {
    /// The raster is empty: width or height is zero.
    InvalidDimensions,
    /// A bound of the plane rectangle is not finite, or an axis does not run
    /// from a strictly smaller to a strictly larger value.
    InvalidRegion,
    /// The iteration bound is zero, so no step of the recurrence could be
    /// taken.
    InvalidIterationBound,
}

/// The verdict on a frame request: the first failed check in the order
/// dimensions, region, iteration bound, or acceptance.
pub open spec fn validate_spec(
    width: usize,
    height: usize,
    region: Region,
    max_iter: usize,
) -> Result<(), RenderError> {
    if width == 0 || height == 0 {
        Err(RenderError::InvalidDimensions)
    } else if !region.wf() {
        Err(RenderError::InvalidRegion)
    } else if max_iter == 0 {
        Err(RenderError::InvalidIterationBound)
    } else {
        Ok(())
    }
}

/// Checks a frame request before any computation.
pub fn validate(width: usize, height: usize, region: &Region, max_iter: usize) -> (verdict: Result<
    (),
    RenderError,
>)
    ensures
        verdict == validate_spec(width, height, *region, max_iter),
        verdict is Ok <==> width >= 1 && height >= 1 && region.wf() && max_iter >= 1,
{
    if width == 0 || height == 0 {
        Err(RenderError::InvalidDimensions)
    } else if !region.is_wf() {
        Err(RenderError::InvalidRegion)
    } else if max_iter == 0 {
        Err(RenderError::InvalidIterationBound)
    } else {
        Ok(())
    }
}

/// The gray band of an iteration count: eight bands, 32 shades apart.
pub open spec fn shade_spec(count: int) -> u8 {
    ((count % 8) * 32) as u8
}

/// Maps an iteration count to its gray band.
pub fn shade_of(count: usize) -> (shade: u8)
    ensures
        shade == shade_spec(count as int),
{
    ((count % 8) * 32) as u8
}

/// The four bytes of pixel `p` hold the gray band of its iteration count in
/// red, green and blue, and a fully opaque alpha.
pub open spec fn pixel_written(counts: Seq<usize>, buf: Seq<u8>, p: int) -> bool {
    &&& buf[4 * p] == shade_spec(counts[p] as int)
    &&& buf[4 * p + 1] == shade_spec(counts[p] as int)
    &&& buf[4 * p + 2] == shade_spec(counts[p] as int)
    &&& buf[4 * p + 3] == 255u8
}

/// The buffer is exactly the rendering of the given iteration counts: four
/// bytes per count, every pixel written.
pub open spec fn rendered(counts: Seq<usize>, buf: Seq<u8>) -> bool {
    &&& buf.len() == counts.len() * 4
    &&& forall|p: int| 0 <= p < counts.len() ==> #[trigger] pixel_written(counts, buf, p)
}

/// Writes the pixel buffer for per-pixel iteration counts given in row-major
/// order, pixel `p` standing for row `p / width`, column `p % width`.
pub fn render_pixels(width: usize, height: usize, counts: &Vec<usize>) -> (buf: Vec<u8>)
    requires
        width >= 1,
        height >= 1,
        counts@.len() == width * height,
        width * height * 4 <= usize::MAX,
    ensures
        buf@.len() == width * height * 4,
        rendered(counts@, buf@),
{
    let total = counts.len();
    let mut buf: Vec<u8> = Vec::new();
    let mut p: usize = 0;
    while p < total
        invariant
            p <= total,
            total == counts@.len(),
            total * 4 <= usize::MAX,
            buf@.len() == p * 4,
            forall|q: int| 0 <= q < p ==> #[trigger] pixel_written(counts@, buf@, q),
        decreases total - p,
    {
        let ghost prev = buf@;
        let shade = shade_of(counts[p]);
        buf.push(shade);
        buf.push(shade);
        buf.push(shade);
        buf.push(255);
        proof {
            assert forall|q: int| 0 <= q <= p implies #[trigger] pixel_written(
                counts@,
                buf@,
                q,
            ) by {
                if q < p {
                    assert(pixel_written(counts@, prev, q));
                    assert(buf@[4 * q] == prev[4 * q]);
                    assert(buf@[4 * q + 1] == prev[4 * q + 1]);
                    assert(buf@[4 * q + 2] == prev[4 * q + 2]);
                    assert(buf@[4 * q + 3] == prev[4 * q + 3]);
                } else {
                    assert(buf@[4 * q] == shade);
                    assert(buf@[4 * q + 1] == shade);
                    assert(buf@[4 * q + 2] == shade);
                    assert(buf@[4 * q + 3] == 255u8);
                }
            }
        }
        p += 1;
    }
    buf
}

/// Rendering is a function of the iteration counts: two buffers rendered
/// from the same counts are byte-identical.
pub proof fn lemma_rendered_deterministic(counts: Seq<usize>, buf1: Seq<u8>, buf2: Seq<u8>)
    requires
        rendered(counts, buf1),
        rendered(counts, buf2),
    ensures
        buf1 == buf2,
{
    assert forall|q: int| 0 <= q < buf1.len() implies buf1[q] == buf2[q] by {
        lemma_fundamental_div_mod(q, 4);
        let p = q / 4;
        assert(0 <= p < counts.len());
        assert(pixel_written(counts, buf1, p));
        assert(pixel_written(counts, buf2, p));
    }
    assert(buf1 =~= buf2);
}

/// Every fourth byte of a rendered buffer, the alpha channel, is fully
/// opaque.
pub proof fn lemma_rendered_opaque(counts: Seq<usize>, buf: Seq<u8>)
    requires
        rendered(counts, buf),
    ensures
        forall|q: int| 0 <= q < buf.len() && q % 4 == 3 ==> buf[q] == 255u8,
{
    assert forall|q: int| 0 <= q < buf.len() && q % 4 == 3 implies buf[q] == 255u8 by {
        lemma_fundamental_div_mod(q, 4);
        let p = q / 4;
        assert(0 <= p < counts.len());
        assert(pixel_written(counts, buf, p));
    }
}

} // verus!
