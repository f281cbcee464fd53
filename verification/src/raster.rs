//! Rasterization: one opaque white pixel per particle on a black frame.

use crate::math::{apply, is_function, Scalar};
use crate::vector2::Vector2;
use crate::world::World;
use vstd::prelude::*;
use vstd::std_specs::cmp::PartialOrdSpec;
use vstd::std_specs::ops::AddSpec;

verus! {

/// Bytes per pixel: red, green, blue, alpha.
pub const BYTES_PER_PIXEL: usize = 4;

/// The number of the pixel at column `x` in row `y`. Rows are `height`
/// pixels apart.
pub open spec fn pixel_index_spec(x: int, y: int, height: int) -> int {
    y * height + x
}

/// The pixel numbered `pixel` lies whole within a frame of `len` bytes.
pub open spec fn pixel_fits(pixel: int, len: int) -> bool {
    0 <= pixel && 4 * pixel + 4 <= len
}

/// Byte `k` of a frame of `len` bytes belongs to one of `pixels` that fits
/// in the frame.
pub open spec fn lit(pixels: Seq<int>, len: int, k: int) -> bool {
    exists|b: int|
        0 <= b < pixels.len() && pixel_fits(#[trigger] pixels[b], len) && 4 * pixels[b] <= k < 4
            * pixels[b] + 4
}

/// The frame of `len` bytes on which exactly the `pixels` that fit are
/// white and opaque, and every other byte is zero.
pub open spec fn frame_of(pixels: Seq<int>, len: int) -> Seq<u8> {
    Seq::new(
        len as nat,
        |k: int|
            if lit(pixels, len, k) {
                255u8
            } else {
                0u8
            },
    )
}

/// The number of the pixel at column `x` in row `y`, if a frame of `len`
/// bytes holds it whole.
pub fn pixel_index(x: usize, y: usize, height: usize, len: usize) -> (r: Option<usize>)
    ensures
        r == if pixel_fits(pixel_index_spec(x as int, y as int, height as int), len as int) {
            Some(pixel_index_spec(x as int, y as int, height as int) as usize)
        } else {
            None
        },
{
    let limit: usize = len / BYTES_PER_PIXEL;
    if y != 0 && height > limit / y {
        proof {
            assert(y * height >= y * (limit / y + 1)) by (nonlinear_arith)
                requires
                    y > 0,
                    height >= limit / y + 1,
            ;
            assert(y * (limit / y + 1) > limit) by (nonlinear_arith)
                requires
                    y > 0,
                    limit >= 0,
            ;
        }
        return None;
    }
    proof {
        if y != 0 {
            assert(y * height <= y * (limit / y)) by (nonlinear_arith)
                requires
                    y > 0,
                    height <= limit / y,
            ;
            assert(y * (limit / y) <= limit) by (nonlinear_arith)
                requires
                    y > 0,
                    limit >= 0,
            ;
        } else {
            assert(y * height == 0) by (nonlinear_arith)
                requires
                    y == 0,
            ;
        }
    }
    let row: usize = y * height;
    if x >= limit - row {
        return None;
    }
    Some(row + x)
}

/// The column and row that an arena of the given extent gives to the pixel
/// numbered `index`: the remainder by the width, and the quotient by the
/// height.
pub fn index_to_position(index: usize, width: usize, height: usize) -> (r: (usize, usize))
    requires
        width > 0,
        height > 0,
    ensures
        r.0 == index % width,
        r.1 == index / height,
{
    (index % width, index / height)
}

/// The color of a pixel that a particle covers.
pub const WHITE: [u8; 4] = [255, 255, 255, 255];

/// The color of a pixel that no particle covers.
pub const CLEAR: [u8; 4] = [0, 0, 0, 0];

impl<T: Scalar> World<T> {
    /// The point of the arena at which the pixel numbered `index` lies.
    pub open spec fn pixel_point<G: Fn(usize) -> T>(&self, index: usize, lift: &G) -> Vector2<T> {
        Vector2 {
            x: apply(lift, (index % self.width) as usize),
            y: apply(lift, (index / self.height) as usize),
        }
    }

    /// Some particle's bounding square contains `point`.
    pub open spec fn covered(&self, point: Vector2<T>) -> bool {
        exists|b: int| 0 <= b < self.blobs@.len() && (#[trigger] self.blobs@[b]).contains_point_spec(point)
    }

    /// The color of the pixel numbered `index` when every particle is drawn
    /// as its whole bounding square: white and opaque if a square contains
    /// the pixel's point, else clear. `lift` turns a pixel coordinate into a
    /// scalar.
    pub fn pixel_color<G: Fn(usize) -> T>(&self, index: usize, lift: &G) -> (color: [u8; 4])
        requires
            self.width > 0,
            self.height > 0,
            is_function(lift),
            T::obeys_partial_cmp_spec(),
            T::obeys_add_spec(),
            forall|b: int|
                0 <= b < self.blobs@.len() ==> {
                    &&& (#[trigger] self.blobs@[b]).position.x.add_req(self.blobs@[b].size)
                    &&& self.blobs@[b].position.y.add_req(self.blobs@[b].size)
                },
        ensures
            color == if self.covered(self.pixel_point(index, lift)) {
                WHITE
            } else {
                CLEAR
            },
    {
        let (column, row) = index_to_position(index, self.width, self.height);
        let point = Vector2 { x: lift(column), y: lift(row) };
        let mut b: usize = 0;
        while b < self.blobs.len()
            invariant
                b <= self.blobs@.len(),
                T::obeys_partial_cmp_spec(),
                T::obeys_add_spec(),
                point == self.pixel_point(index, lift),
                forall|k: int|
                    0 <= k < self.blobs@.len() ==> {
                        &&& (#[trigger] self.blobs@[k]).position.x.add_req(self.blobs@[k].size)
                        &&& self.blobs@[k].position.y.add_req(self.blobs@[k].size)
                    },
                forall|k: int| 0 <= k < b ==> !(#[trigger] self.blobs@[k]).contains_point_spec(point),
            decreases self.blobs@.len() - b,
        {
            if self.blobs[b].contains_point(&point) {
                return WHITE;
            }
            b += 1;
        }
        CLEAR
    }

    /// The pixel of each particle: its position, turned into a column and a
    /// row by `floor`.
    pub open spec fn pixels<G: Fn(T) -> usize>(&self, floor: &G) -> Seq<int> {
        Seq::new(
            self.blobs@.len(),
            |b: int|
                pixel_index_spec(
                    apply(floor, self.blobs@[b].position.x) as int,
                    apply(floor, self.blobs@[b].position.y) as int,
                    self.height as int,
                ),
        )
    }

    /// Clears `frame` to zero, then draws each particle as one white opaque
    /// pixel at its position, with `floor` giving the whole part of a
    /// coordinate. A particle whose pixel does not fit in the frame is
    /// skipped.
    pub fn draw<G: Fn(T) -> usize>(&self, frame: &mut [u8], floor: &G)
        requires
            is_function(floor),
        ensures
            final(frame)@ == frame_of(self.pixels(floor), old(frame)@.len() as int),
    {
        let len = frame.len();
        let mut k: usize = 0;
        while k < len
            invariant
                k <= len,
                frame@.len() == len,
                forall|i: int| 0 <= i < k ==> frame@[i] == 0,
            decreases len - k,
        {
            frame[k] = 0;
            k += 1;
        }
        let ghost all = self.pixels(floor);
        let mut b: usize = 0;
        while b < self.blobs.len()
            invariant
                is_function(floor),
                b <= self.blobs@.len(),
                frame@.len() == len,
                all == self.pixels(floor),
                frame@ == frame_of(all.take(b as int), len as int),
            decreases self.blobs@.len() - b,
        {
            let x = floor(self.blobs[b].position.x);
            let y = floor(self.blobs[b].position.y);
            let ghost before = frame@;
            let ghost pixel = all[b as int];
            assert(pixel == pixel_index_spec(x as int, y as int, self.height as int));
            match pixel_index(x, y, self.height, len) {
                Some(index) => {
                    let at = index * BYTES_PER_PIXEL;
                    frame[at] = 255;
                    frame[at + 1] = 255;
                    frame[at + 2] = 255;
                    frame[at + 3] = 255;
                },
                None => {},
            }
            proof {
                let earlier = all.take(b as int);
                let now = all.take(b + 1);
                assert(now.drop_last() =~= earlier);
                assert(now.last() == pixel);
                assert forall|k: int| 0 <= k < len implies frame@[k] == frame_of(
                    now,
                    len as int,
                )[k] by {
                    if lit(earlier, len as int, k) {
                        let w = choose|w: int|
                            0 <= w < earlier.len() && pixel_fits(#[trigger] earlier[w], len as int)
                                && 4 * earlier[w] <= k < 4 * earlier[w] + 4;
                        assert(now[w] == earlier[w]);
                    }
                    if pixel_fits(pixel, len as int) && 4 * pixel <= k < 4 * pixel + 4 {
                        assert(now[b as int] == pixel);
                    }
                    if lit(now, len as int, k) {
                        let w = choose|w: int|
                            0 <= w < now.len() && pixel_fits(#[trigger] now[w], len as int) && 4
                                * now[w] <= k < 4 * now[w] + 4;
                        if w < b {
                            assert(earlier[w] == now[w]);
                        }
                    }
                }
                assert(frame@ =~= frame_of(now, len as int));
            }
            b += 1;
        }
        proof {
            assert(all.take(b as int) =~= all);
        }
    }
}

} // verus!
