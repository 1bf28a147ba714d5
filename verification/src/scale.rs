//! The output scaler: converts a decoded RGBA frame to the configured output
//! geometry by nearest-neighbour sampling. Each output pixel `(x, y)` is the
//! source pixel `(x * w / ow, y * h / oh)`.

use vstd::prelude::*;

use vstd::arithmetic::div_mod::{
    lemma_fundamental_div_mod_converse, lemma_multiply_divide_lt,
};
use vstd::arithmetic::mul::lemma_mul_strict_inequality;

use crate::model::MAX_DIMENSION;

verus! {

/// Byte `i` of the scaled image: the matching channel of the source pixel
/// that nearest-neighbour sampling picks for output byte `i`.
pub open spec fn scaled_byte(src: Seq<u8>, w: int, h: int, ow: int, oh: int, i: int) -> u8 {
    let p = i / 4;
    let ch = i % 4;
    let y = p / ow;
    let x = p % ow;
    let sy = y * h / oh;
    let sx = x * w / ow;
    src[(sy * w + sx) * 4 + ch]
}

/// The whole scaled image, row-major RGBA at the output geometry.
pub open spec fn scaled_image(src: Seq<u8>, w: int, h: int, ow: int, oh: int) -> Seq<u8> {
    Seq::new((ow * oh * 4) as nat, |i: int| scaled_byte(src, w, h, ow, oh, i))
}

/// Nearest-neighbour coordinates stay inside the source image.
proof fn lemma_sample_in_range(y: int, oh: int, h: int)
    requires
        0 <= y < oh,
        1 <= h,
    ensures
        0 <= y * h / oh < h,
{
    lemma_mul_strict_inequality(y, oh, h);
    assert(y * h < oh * h);
    lemma_multiply_divide_lt(y * h, oh, h);
    assert(y * h >= 0) by (nonlinear_arith)
        requires
            y >= 0,
            h >= 1,
    ;
    assert(y * h / oh >= 0);
}

/// Scale a `w` by `h` RGBA image to `ow` by `oh` by nearest-neighbour
/// sampling.
pub fn scale_rgba(src: &Vec<u8>, w: u32, h: u32, ow: u32, oh: u32) -> (r: Vec<u8>)
    requires
        1 <= w <= MAX_DIMENSION,
        1 <= h <= MAX_DIMENSION,
        1 <= ow <= MAX_DIMENSION,
        1 <= oh <= MAX_DIMENSION,
        src@.len() == w * h * 4,
    ensures
        r@ == scaled_image(src@, w as int, h as int, ow as int, oh as int),
        r@.len() == ow * oh * 4,
{
    let w: usize = w as usize;
    let h: usize = h as usize;
    let ow: usize = ow as usize;
    let oh: usize = oh as usize;
    let mut out: Vec<u8> = Vec::new();
    let mut y: usize = 0;
    while y < oh
        invariant
            1 <= w <= MAX_DIMENSION,
            1 <= h <= MAX_DIMENSION,
            1 <= ow <= MAX_DIMENSION,
            1 <= oh <= MAX_DIMENSION,
            src@.len() == w * h * 4,
            0 <= y <= oh,
            out@.len() == y * ow * 4,
            forall|i: int|
                0 <= i < out@.len() ==> out@[i] == scaled_byte(
                    src@,
                    w as int,
                    h as int,
                    ow as int,
                    oh as int,
                    i,
                ),
        decreases oh - y,
    {
        assert(y * h <= MAX_DIMENSION * MAX_DIMENSION) by (nonlinear_arith)
            requires
                0 <= y < oh <= MAX_DIMENSION,
                1 <= h <= MAX_DIMENSION,
        ;
        let sy: usize = y * h / oh;
        proof {
            lemma_sample_in_range(y as int, oh as int, h as int);
        }
        let mut x: usize = 0;
        while x < ow
            invariant
                1 <= w <= MAX_DIMENSION,
                1 <= h <= MAX_DIMENSION,
                1 <= ow <= MAX_DIMENSION,
                1 <= oh <= MAX_DIMENSION,
                src@.len() == w * h * 4,
                0 <= y < oh,
                0 <= x <= ow,
                sy as int == y as int * h as int / (oh as int),
                0 <= sy < h,
                out@.len() == (y * ow + x) * 4,
                forall|i: int|
                    0 <= i < out@.len() ==> out@[i] == scaled_byte(
                        src@,
                        w as int,
                        h as int,
                        ow as int,
                        oh as int,
                        i,
                    ),
            decreases ow - x,
        {
            assert(x * w <= MAX_DIMENSION * MAX_DIMENSION) by (nonlinear_arith)
                requires
                    0 <= x < ow <= MAX_DIMENSION,
                    1 <= w <= MAX_DIMENSION,
            ;
            let sx: usize = x * w / ow;
            proof {
                lemma_sample_in_range(x as int, ow as int, w as int);
            }
            assert(sy * w + sx < w * h && w * h <= MAX_DIMENSION * MAX_DIMENSION) by (
            nonlinear_arith)
                requires
                    0 <= sy < h <= MAX_DIMENSION,
                    0 <= sx < w <= MAX_DIMENSION,
                    1 <= w,
                    1 <= h,
            ;
            let sbase: usize = (sy * w + sx) * 4;
            assert(sbase + 3 < src@.len()) by (nonlinear_arith)
                requires
                    sbase == (sy * w + sx) * 4,
                    sy * w + sx < w * h,
                    src@.len() == w * h * 4,
            ;
            assert((y * ow + x) * 4 + 4 <= MAX_DIMENSION * MAX_DIMENSION * 4) by (nonlinear_arith)
                requires
                    0 <= y < oh <= MAX_DIMENSION,
                    0 <= x < ow <= MAX_DIMENSION,
            ;
            let mut ch: usize = 0;
            while ch < 4
                invariant
                    1 <= w <= MAX_DIMENSION,
                    1 <= h <= MAX_DIMENSION,
                    1 <= ow <= MAX_DIMENSION,
                    1 <= oh <= MAX_DIMENSION,
                    src@.len() == w * h * 4,
                    0 <= y < oh,
                    0 <= x < ow,
                    0 <= ch <= 4,
                    sy as int == y as int * h as int / (oh as int),
                    sx as int == x as int * w as int / (ow as int),
                    0 <= sy < h,
                    0 <= sx < w,
                    sbase == (sy * w + sx) * 4,
                    sbase + 3 < src@.len(),
                    (y * ow + x) * 4 + 4 <= MAX_DIMENSION * MAX_DIMENSION * 4,
                    out@.len() == (y * ow + x) * 4 + ch,
                    forall|i: int|
                        0 <= i < out@.len() ==> out@[i] == scaled_byte(
                            src@,
                            w as int,
                            h as int,
                            ow as int,
                            oh as int,
                            i,
                        ),
                decreases 4 - ch,
            {
                let v: u8 = src[sbase + ch];
                proof {
                    let n = out@.len() as int;
                    let p = (y * ow + x) as int;
                    lemma_fundamental_div_mod_converse(n, 4, p, ch as int);
                    lemma_fundamental_div_mod_converse(p, ow as int, y as int, x as int);
                    assert(scaled_byte(src@, w as int, h as int, ow as int, oh as int, n) == src@[(
                    sbase + ch) as int]);
                }
                out.push(v);
                ch = ch + 1;
            }
            x = x + 1;
            assert(out@.len() == (y * ow + x) * 4) by (nonlinear_arith)
                requires
                    out@.len() == (y * ow + (x - 1)) * 4 + 4,
            ;
        }
        y = y + 1;
        assert(out@.len() == y * ow * 4) by (nonlinear_arith)
            requires
                out@.len() == ((y - 1) * ow + ow) * 4,
        ;
    }
    proof {
        assert(out@.len() == ow * oh * 4) by (nonlinear_arith)
            requires
                out@.len() == oh * ow * 4,
        ;
        assert(out@ =~= scaled_image(src@, w as int, h as int, ow as int, oh as int));
    }
    out
}

} // verus!
