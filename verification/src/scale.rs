//! Nearest-neighbour scaling of a BGRA frame onto an RGB surface.
use vstd::arithmetic::div_mod::{
    lemma_div_is_ordered, lemma_div_multiples_vanish, lemma_fundamental_div_mod,
    lemma_fundamental_div_mod_converse, lemma_multiply_divide_lt,
};
use vstd::arithmetic::mul::{lemma_mul_inequality, lemma_mul_is_commutative};
use vstd::prelude::*;

verus! {

/// The source coordinate that is shown at `dst` when `src_size` is stretched to `dst_size`.
pub open spec fn source_coordinate(dst: int, src_size: int, dst_size: int) -> int {
    (dst * src_size) / dst_size
}

/// Offset, in a frame of four bytes per pixel, of the pixel that is shown at `(x, y)`.
pub open spec fn source_offset(
    x: int,
    y: int,
    src_width: int,
    src_height: int,
    dst_width: int,
    dst_height: int,
) -> int {
    (source_coordinate(y, src_height, dst_height) * src_width + source_coordinate(
        x,
        src_width,
        dst_width,
    )) * 4
}

/// The BGRA pixel at `offset` of `frame`, as `0x00RRGGBB`.
pub open spec fn rgb_at(frame: Seq<u8>, offset: int) -> u32 {
    (frame[offset + 2] * 0x1_0000 + frame[offset + 1] * 0x100 + frame[offset]) as u32
}

/// What the surface holds once the frame has been drawn over `before`: each of the first
/// `dst_width * dst_height` pixels, row by row, shows its source pixel if the frame has that
/// pixel in full; everything else is as before.
pub open spec fn scaled(
    frame: Seq<u8>,
    src_width: int,
    src_height: int,
    dst_width: int,
    dst_height: int,
    before: Seq<u32>,
) -> Seq<u32> {
    Seq::new(
        before.len(),
        |i: int|
            {
                let offset = source_offset(
                    i % dst_width,
                    i / dst_width,
                    src_width,
                    src_height,
                    dst_width,
                    dst_height,
                );
                if i < dst_width * dst_height && offset + 3 < frame.len() {
                    rgb_at(frame, offset)
                } else {
                    before[i]
                }
            },
    )
}

/// Whether every product that scaling computes fits into a `usize`.
pub open spec fn scaling_fits(
    src_width: int,
    src_height: int,
    dst_width: int,
    dst_height: int,
) -> bool {
    &&& dst_width * dst_height <= usize::MAX
    &&& dst_height > 0 ==> (dst_height - 1) * src_height <= usize::MAX
    &&& dst_width > 0 && dst_height > 0 ==> (dst_width - 1) * src_width <= usize::MAX
    &&& dst_width > 0 && dst_height > 0 ==> source_offset(
        dst_width - 1,
        dst_height - 1,
        src_width,
        src_height,
        dst_width,
        dst_height,
    ) + 3 <= usize::MAX
}

/// Whether everything that drawing on a buffer of `len` pixels computes fits into a `usize`. Where
/// the buffer is too small for the surface, that is only the size of the surface.
pub open spec fn drawing_fits(
    src_width: int,
    src_height: int,
    dst_width: int,
    dst_height: int,
    len: int,
) -> bool {
    &&& dst_width * dst_height <= usize::MAX
    &&& len >= dst_width * dst_height ==> scaling_fits(
        src_width,
        src_height,
        dst_width,
        dst_height,
    )
}

/// Source coordinates grow with destination coordinates.
pub proof fn source_coordinate_is_monotonic(a: int, b: int, src_size: int, dst_size: int)
    requires
        0 <= a <= b,
        0 <= src_size,
        0 < dst_size,
    ensures
        0 <= a * src_size <= b * src_size,
        0 <= source_coordinate(a, src_size, dst_size) <= source_coordinate(b, src_size, dst_size),
{
    lemma_mul_inequality(a, b, src_size);
    lemma_mul_inequality(0, a, src_size);
    lemma_div_is_ordered(a * src_size, b * src_size, dst_size);
    lemma_div_is_ordered(0, a * src_size, dst_size);
}

/// Every destination coordinate shows a coordinate of the source.
pub proof fn source_coordinate_is_in_range(dst: int, src_size: int, dst_size: int)
    requires
        0 <= dst < dst_size,
        0 < src_size,
    ensures
        0 <= source_coordinate(dst, src_size, dst_size) < src_size,
{
    source_coordinate_is_monotonic(0, dst, src_size, dst_size);
    assert(dst * src_size < dst_size * src_size) by (nonlinear_arith)
        requires
            dst < dst_size,
            0 < src_size,
    ;
    lemma_mul_is_commutative(dst_size, src_size);
    lemma_multiply_divide_lt(dst * src_size, dst_size, src_size);
}

proof fn source_offset_is_monotonic(
    x: int,
    y: int,
    src_width: int,
    src_height: int,
    dst_width: int,
    dst_height: int,
)
    requires
        0 <= x < dst_width,
        0 <= y < dst_height,
        0 <= src_width,
        0 <= src_height,
    ensures
        0 <= source_coordinate(y, src_height, dst_height) * src_width,
        0 <= source_offset(x, y, src_width, src_height, dst_width, dst_height) <= source_offset(
            dst_width - 1,
            dst_height - 1,
            src_width,
            src_height,
            dst_width,
            dst_height,
        ),
{
    source_coordinate_is_monotonic(x, dst_width - 1, src_width, dst_width);
    source_coordinate_is_monotonic(y, dst_height - 1, src_height, dst_height);
    let low = source_coordinate(y, src_height, dst_height);
    let high = source_coordinate(dst_height - 1, src_height, dst_height);
    lemma_mul_inequality(low, high, src_width);
    lemma_mul_inequality(0, low, src_width);
}

proof fn row_index(x: int, y: int, width: int, height: int)
    requires
        0 <= x < width,
        0 <= y < height,
    ensures
        0 <= y * width,
        y * width + x < width * height,
        (y * width + x) / width == y,
        (y * width + x) % width == x,
{
    lemma_mul_inequality(0, y, width);
    lemma_mul_inequality(y + 1, height, width);
    assert((y + 1) * width == y * width + width) by (nonlinear_arith);
    lemma_mul_is_commutative(width, height);
    lemma_fundamental_div_mod_converse(y * width + x, width, y, x);
}

/// Packs three colour channels into `0x00RRGGBB`.
fn pack_rgb(red: u8, green: u8, blue: u8) -> (pixel: u32)
    ensures
        pixel == red * 0x1_0000 + green * 0x100 + blue,
{
    let r: u32 = red as u32;
    let g: u32 = green as u32;
    let b: u32 = blue as u32;
    assert((r << 16) | (g << 8) | b == r * 0x1_0000 + g * 0x100 + b) by (bit_vector)
        requires
            r < 0x100,
            g < 0x100,
            b < 0x100,
    ;
    (r << 16) | (g << 8) | b
}

fn last_coordinate(src_size: u32, dst_size: u32) -> (last: u128)
    requires
        0 < dst_size,
    ensures
        last == source_coordinate(dst_size - 1, src_size as int, dst_size as int),
        last <= src_size,
{
    let src: u128 = src_size as u128;
    let dst: u128 = dst_size as u128;
    assert((dst - 1) * src <= 0xffff_ffff * 0xffff_ffff) by (nonlinear_arith)
        requires
            0 < dst <= 0xffff_ffff,
            src <= 0xffff_ffff,
    ;
    proof {
        if src_size > 0 {
            source_coordinate_is_in_range(dst_size - 1, src_size as int, dst_size as int);
        } else {
            source_coordinate_is_monotonic(0, dst_size - 1, src_size as int, dst_size as int);
            assert((dst_size - 1) * src_size == 0) by (nonlinear_arith)
                requires
                    src_size == 0,
            ;
        }
    }
    (dst - 1) * src / dst
}

fn product(a: u32, b: u32) -> (value: u128)
    ensures
        value == a * b,
        value <= 0xffff_ffff * 0xffff_ffff,
{
    assert(0 <= a * b <= 0xffff_ffff * 0xffff_ffff) by (nonlinear_arith)
        requires
            0 <= a <= 0xffff_ffff,
            0 <= b <= 0xffff_ffff,
    ;
    a as u128 * b as u128
}

/// Tests [`drawing_fits`].
pub fn drawing_is_possible(
    src_width: u32,
    src_height: u32,
    dst_width: u32,
    dst_height: u32,
    len: usize,
) -> (possible: bool)
    ensures
        possible == drawing_fits(
            src_width as int,
            src_height as int,
            dst_width as int,
            dst_height as int,
            len as int,
        ),
{
    let most: u128 = usize::MAX as u128;
    let surface: u128 = product(dst_width, dst_height);
    if surface > most {
        return false;
    }
    if (len as u128) < surface || dst_height == 0 {
        return true;
    }
    if product(dst_height - 1, src_height) > most {
        return false;
    }
    if dst_width == 0 {
        return true;
    }
    if product(dst_width - 1, src_width) > most {
        return false;
    }
    let x: u128 = last_coordinate(src_width, dst_width);
    let y: u128 = last_coordinate(src_height, dst_height);
    let width: u128 = src_width as u128;
    assert(0 <= y * width <= 0xffff_ffff * 0xffff_ffff) by (nonlinear_arith)
        requires
            0 <= y <= 0xffff_ffff,
            0 <= width <= 0xffff_ffff,
    ;
    (y * width + x) * 4 + 3 <= most
}

/// Draws a BGRA frame of `src_width` by `src_height` pixels onto the surface `buffer` of
/// `dst_width` by `dst_height` pixels. A buffer that is too small for the surface is left alone,
/// and the result tells whether it was drawn on.
pub fn scale_frame(
    frame: &[u8],
    src_width: u32,
    src_height: u32,
    dst_width: u32,
    dst_height: u32,
    buffer: &mut [u32],
) -> (drawn: bool)
    requires
        drawing_fits(
            src_width as int,
            src_height as int,
            dst_width as int,
            dst_height as int,
            old(buffer)@.len() as int,
        ),
    ensures
        drawn == (old(buffer)@.len() >= dst_width * dst_height),
        !drawn ==> final(buffer)@ == old(buffer)@,
        drawn ==> final(buffer)@ == scaled(
            frame@,
            src_width as int,
            src_height as int,
            dst_width as int,
            dst_height as int,
            old(buffer)@,
        ),
{
    let sw: usize = src_width as usize;
    let sh: usize = src_height as usize;
    let dw: usize = dst_width as usize;
    let dh: usize = dst_height as usize;
    let expected_size: usize = dw * dh;
    if buffer.len() < expected_size {
        return false;
    }
    let ghost before = buffer@;
    let ghost target = scaled(frame@, sw as int, sh as int, dw as int, dh as int, before);
    let mut y: usize = 0;
    while y < dh
        invariant
            y <= dh,
            dw * dh == expected_size <= before.len(),
            scaling_fits(sw as int, sh as int, dw as int, dh as int),
            target == scaled(frame@, sw as int, sh as int, dw as int, dh as int, before),
            buffer@.len() == before.len(),
            forall|i: int| 0 <= i < y * dw ==> buffer@[i] == target[i],
            forall|i: int| y * dw <= i < before.len() ==> buffer@[i] == before[i],
        decreases dh - y,
    {
        proof {
            source_coordinate_is_monotonic(y as int, dh - 1, sh as int, dh as int);
        }
        let src_y: usize = (y * sh) / dh;
        let mut x: usize = 0;
        while x < dw
            invariant
                x <= dw,
                y < dh,
                dw * dh == expected_size <= before.len(),
                scaling_fits(sw as int, sh as int, dw as int, dh as int),
                src_y == source_coordinate(y as int, sh as int, dh as int),
                target == scaled(frame@, sw as int, sh as int, dw as int, dh as int, before),
                buffer@.len() == before.len(),
                forall|i: int| 0 <= i < y * dw + x ==> buffer@[i] == target[i],
                forall|i: int| y * dw + x <= i < before.len() ==> buffer@[i] == before[i],
            decreases dw - x,
        {
            proof {
                source_coordinate_is_monotonic(x as int, dw - 1, sw as int, dw as int);
                source_offset_is_monotonic(
                    x as int,
                    y as int,
                    sw as int,
                    sh as int,
                    dw as int,
                    dh as int,
                );
                row_index(x as int, y as int, dw as int, dh as int);
            }
            let src_x: usize = (x * sw) / dw;
            let src_idx: usize = (src_y * sw + src_x) * 4;
            let dst_idx: usize = y * dw + x;
            if src_idx + 3 < frame.len() && dst_idx < buffer.len() {
                let pixel = pack_rgb(frame[src_idx + 2], frame[src_idx + 1], frame[src_idx]);
                buffer[dst_idx] = pixel;
            }
            x = x + 1;
        }
        assert((y + 1) * dw == y * dw + dw) by (nonlinear_arith);
        y = y + 1;
    }
    assert(buffer@ =~= target) by {
        assert(y * dw == dw * dh) by (nonlinear_arith)
            requires
                y == dh,
        ;
    }
    true
}

/// A frame drawn at its own size is copied pixel by pixel.
pub proof fn same_size_is_a_copy(frame: Seq<u8>, width: int, height: int, before: Seq<u32>, i: int)
    requires
        0 < width,
        0 < height,
        0 <= i < width * height <= before.len(),
        frame.len() >= width * height * 4,
    ensures
        scaled(frame, width, height, width, height, before)[i] == rgb_at(frame, 4 * i),
{
    let x = i % width;
    let y = i / width;
    lemma_fundamental_div_mod(i, width);
    lemma_mul_is_commutative(width, y);
    lemma_div_multiples_vanish(x, width);
    lemma_mul_is_commutative(width, x);
    lemma_div_multiples_vanish(y, height);
    lemma_mul_is_commutative(height, y);
}

/// A complete frame leaves no pixel of the surface undrawn.
pub proof fn complete_frame_covers_surface(
    frame: Seq<u8>,
    src_width: int,
    src_height: int,
    dst_width: int,
    dst_height: int,
    before: Seq<u32>,
    i: int,
)
    requires
        0 < src_width,
        0 < src_height,
        0 < dst_width,
        0 < dst_height,
        0 <= i < dst_width * dst_height <= before.len(),
        frame.len() >= src_width * src_height * 4,
    ensures
        0 <= source_offset(i % dst_width, i / dst_width, src_width, src_height, dst_width, dst_height)
            <= frame.len() - 4,
        scaled(frame, src_width, src_height, dst_width, dst_height, before)[i] == rgb_at(
            frame,
            source_offset(
                i % dst_width,
                i / dst_width,
                src_width,
                src_height,
                dst_width,
                dst_height,
            ),
        ),
{
    let x = i % dst_width;
    let y = i / dst_width;
    lemma_fundamental_div_mod(i, dst_width);
    lemma_multiply_divide_lt(i, dst_width, dst_height);
    lemma_mul_is_commutative(dst_width, dst_height);
    lemma_div_is_ordered(0, i, dst_width);
    source_coordinate_is_in_range(x, src_width, dst_width);
    source_coordinate_is_in_range(y, src_height, dst_height);
    let sx = source_coordinate(x, src_width, dst_width);
    let sy = source_coordinate(y, src_height, dst_height);
    row_index(sx, sy, src_width, src_height);
}

/// The alpha channel has no influence: frames that differ in it alone are drawn alike.
pub proof fn alpha_has_no_influence(
    frame: Seq<u8>,
    other: Seq<u8>,
    src_width: int,
    src_height: int,
    dst_width: int,
    dst_height: int,
    before: Seq<u32>,
)
    requires
        0 <= src_width,
        0 <= src_height,
        0 <= dst_width,
        0 <= dst_height,
        frame.len() == other.len(),
        forall|i: int| 0 <= i < frame.len() && i % 4 != 3 ==> frame[i] == other[i],
    ensures
        scaled(frame, src_width, src_height, dst_width, dst_height, before) == scaled(
            other,
            src_width,
            src_height,
            dst_width,
            dst_height,
            before,
        ),
{
    let one = scaled(frame, src_width, src_height, dst_width, dst_height, before);
    let two = scaled(other, src_width, src_height, dst_width, dst_height, before);
    assert forall|i: int| 0 <= i < before.len() implies one[i] == two[i] by {
        if i < dst_width * dst_height {
            shown_pixel_is_on_the_surface(i, dst_width, dst_height);
            source_offset_is_monotonic(
                i % dst_width,
                i / dst_width,
                src_width,
                src_height,
                dst_width,
                dst_height,
            );
        }
    }
    assert(one =~= two);
}

/// Every pixel of the result either is as it was or has a top byte of zero.
pub proof fn drawn_pixels_have_no_top_byte(
    frame: Seq<u8>,
    src_width: int,
    src_height: int,
    dst_width: int,
    dst_height: int,
    before: Seq<u32>,
    i: int,
)
    requires
        0 <= i < before.len(),
    ensures
        ({
            let offset = source_offset(
                i % dst_width,
                i / dst_width,
                src_width,
                src_height,
                dst_width,
                dst_height,
            );
            let pixel = scaled(frame, src_width, src_height, dst_width, dst_height, before)[i];
            if i < dst_width * dst_height && offset + 3 < frame.len() {
                pixel >> 24 == 0
            } else {
                pixel == before[i]
            }
        }),
{
    let pixel = scaled(frame, src_width, src_height, dst_width, dst_height, before)[i];
    assert(pixel < 0x100_0000 ==> pixel >> 24 == 0) by (bit_vector);
}

proof fn shown_pixel_is_on_the_surface(i: int, width: int, height: int)
    requires
        0 <= width,
        0 <= height,
        0 <= i < width * height,
    ensures
        0 <= i % width < width,
        0 <= i / width < height,
{
    assert(0 < width) by (nonlinear_arith)
        requires
            0 <= width,
            0 < width * height,
    ;
    lemma_fundamental_div_mod(i, width);
    lemma_mul_is_commutative(width, height);
    lemma_multiply_divide_lt(i, width, height);
    lemma_div_is_ordered(0, i, width);
}

/// Scaling fits whenever the frame, the surface and the two cross products do.
pub proof fn ordinary_sizes_fit(src_width: int, src_height: int, dst_width: int, dst_height: int)
    requires
        0 < src_width,
        0 < src_height,
        0 <= dst_width,
        0 <= dst_height,
        src_width * src_height * 4 <= usize::MAX,
        dst_width * dst_height <= usize::MAX,
        dst_width * src_width <= usize::MAX,
        dst_height * src_height <= usize::MAX,
    ensures
        scaling_fits(src_width, src_height, dst_width, dst_height),
{
    if dst_height > 0 {
        lemma_mul_inequality(dst_height - 1, dst_height, src_height);
        if dst_width > 0 {
            lemma_mul_inequality(dst_width - 1, dst_width, src_width);
            source_coordinate_is_in_range(dst_width - 1, src_width, dst_width);
            source_coordinate_is_in_range(dst_height - 1, src_height, dst_height);
            row_index(
                source_coordinate(dst_width - 1, src_width, dst_width),
                source_coordinate(dst_height - 1, src_height, dst_height),
                src_width,
                src_height,
            );
        }
    }
}

/// The coordinate that is shown is the nearest one below the exact quotient: no larger than it, and
/// less than one smaller.
pub proof fn nearest_coordinate_is_shown(dst: int, src_size: int, dst_size: int, src: int)
    requires
        0 < dst_size,
    ensures
        src == source_coordinate(dst, src_size, dst_size) <==> src * dst_size <= dst * src_size < (
        src + 1) * dst_size,
{
    let shown = source_coordinate(dst, src_size, dst_size);
    lemma_fundamental_div_mod(dst * src_size, dst_size);
    lemma_mul_is_commutative(dst_size, shown);
    assert((shown + 1) * dst_size == shown * dst_size + dst_size) by (nonlinear_arith);
    if src * dst_size <= dst * src_size < (src + 1) * dst_size {
        assert((src + 1) * dst_size == src * dst_size + dst_size) by (nonlinear_arith);
        lemma_fundamental_div_mod_converse(
            dst * src_size,
            dst_size,
            src,
            dst * src_size - src * dst_size,
        );
    }
}

/// A drawn pixel has the frame's third channel of eight bits on top, then the second, then the
/// first.
pub proof fn channels_keep_their_values(frame: Seq<u8>, offset: int)
    ensures
        ({
            let pixel = rgb_at(frame, offset) as int;
            &&& pixel % 0x100 == frame[offset]
            &&& pixel / 0x100 % 0x100 == frame[offset + 1]
            &&& pixel / 0x1_0000 == frame[offset + 2]
        }),
{
}

/// What the pixel at `(x, y)` of the surface shows: the pixel of the frame at `(src_x, src_y)`, the
/// nearest coordinates below the exact quotients, channel by channel. If the frame does not hold
/// that pixel in full, the surface is left as it was there.
pub proof fn each_pixel_shows_its_nearest(
    frame: Seq<u8>,
    src_width: int,
    src_height: int,
    dst_width: int,
    dst_height: int,
    before: Seq<u32>,
    x: int,
    y: int,
    src_x: int,
    src_y: int,
)
    requires
        0 <= x < dst_width,
        0 <= y < dst_height,
        dst_width * dst_height <= before.len(),
        src_x * dst_width <= x * src_width < (src_x + 1) * dst_width,
        src_y * dst_height <= y * src_height < (src_y + 1) * dst_height,
    ensures
        ({
            let offset = (src_y * src_width + src_x) * 4;
            let at = y * dst_width + x;
            let now = scaled(frame, src_width, src_height, dst_width, dst_height, before);
            &&& 0 <= at < now.len()
            &&& if offset + 3 < frame.len() {
                &&& now[at] as int % 0x100 == frame[offset]
                &&& now[at] as int / 0x100 % 0x100 == frame[offset + 1]
                &&& now[at] as int / 0x1_0000 == frame[offset + 2]
            } else {
                now[at] == before[at]
            }
        }),
{
    nearest_coordinate_is_shown(x, src_width, dst_width, src_x);
    nearest_coordinate_is_shown(y, src_height, dst_height, src_y);
    row_index(x, y, dst_width, dst_height);
    channels_keep_their_values(frame, (src_y * src_width + src_x) * 4);
}

/// Drawing changes nothing of a buffer beyond the surface, nor its length.
pub proof fn rest_of_the_buffer_is_kept(
    frame: Seq<u8>,
    src_width: int,
    src_height: int,
    dst_width: int,
    dst_height: int,
    before: Seq<u32>,
    i: int,
)
    ensures
        scaled(frame, src_width, src_height, dst_width, dst_height, before).len() == before.len(),
        0 <= i < before.len() && i >= dst_width * dst_height ==> scaled(
            frame,
            src_width,
            src_height,
            dst_width,
            dst_height,
            before,
        )[i] == before[i],
{
}

/// Drawing is possible on any buffer that is too small for the surface, if only the surface can be
/// counted, and on any other buffer where the frame and the cross products can be counted too.
pub proof fn drawing_is_possible_if_sizes_can_be_counted(
    src_width: u32,
    src_height: u32,
    dst_width: u32,
    dst_height: u32,
    len: usize,
    possible: bool,
)
    requires
        call_ensures(drawing_is_possible, (src_width, src_height, dst_width, dst_height, len), possible),
    ensures
        possible ==> dst_width * dst_height <= usize::MAX,
        dst_width * dst_height <= usize::MAX && len < dst_width * dst_height ==> possible,
        dst_width * dst_height <= usize::MAX && 0 < src_width && 0 < src_height && src_width
            * src_height * 4 <= usize::MAX && dst_width * src_width <= usize::MAX && dst_height
            * src_height <= usize::MAX ==> possible,
{
    if 0 < src_width && 0 < src_height && src_width * src_height * 4 <= usize::MAX && dst_width
        * src_width <= usize::MAX && dst_height * src_height <= usize::MAX && dst_width * dst_height
        <= usize::MAX {
        ordinary_sizes_fit(
            src_width as int,
            src_height as int,
            dst_width as int,
            dst_height as int,
        );
    }
}

/// Scaling draws just where the buffer is large enough. Each pixel of the surface then shows the
/// pixel of the frame at the nearest coordinates below the exact quotients, and what the frame does
/// not hold or what is beyond the surface is as it was.
pub proof fn scaled_frame_is_on_the_buffer(
    frame: &[u8],
    src_width: u32,
    src_height: u32,
    width: u32,
    height: u32,
    buffer: &mut [u32],
    drawn: bool,
    x: int,
    y: int,
    src_x: int,
    src_y: int,
    beyond: int,
)
    requires
        call_ensures(scale_frame, (frame, src_width, src_height, width, height, buffer), drawn),
        0 <= x < width,
        0 <= y < height,
        src_x * width <= x * src_width < (src_x + 1) * width,
        src_y * height <= y * src_height < (src_y + 1) * height,
    ensures
        drawn <==> old(buffer)@.len() >= width * height,
        final(buffer)@.len() == old(buffer)@.len(),
        !drawn ==> final(buffer)@ == old(buffer)@,
        width * height <= beyond < old(buffer)@.len() ==> final(buffer)@[beyond]
            == old(buffer)@[beyond],
        drawn ==> ({
            let offset = (src_y * src_width + src_x) * 4;
            let at = y * width + x;
            let now = final(buffer)@[at] as int;
            if offset + 3 < frame@.len() {
                now == frame@[offset + 2] * 0x1_0000 + frame@[offset + 1] * 0x100 + frame@[offset]
            } else {
                now == old(buffer)@[at]
            }
        }),
{
    assert(0 <= width * height) by (nonlinear_arith)
        requires
            0 <= width,
            0 <= height,
    ;
    if drawn {
        each_pixel_shows_its_nearest(
            frame@,
            src_width as int,
            src_height as int,
            width as int,
            height as int,
            old(buffer)@,
            x,
            y,
            src_x,
            src_y,
        );
    }
}

} // verus!
