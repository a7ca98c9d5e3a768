//! The layout of the finished picture: pixels in rows from the top, each
//! row from the left, three bytes to a pixel.

use vstd::prelude::*;
use vstd::arithmetic::div_mod::lemma_fundamental_div_mod_converse;

verus! {

/// The colour of one pixel, eight bits to a channel.
#[derive(Clone, Copy, PartialEq, Eq, Structural, Debug)]
pub struct Rgb {
    pub r: u8,
    pub g: u8,
    pub b: u8,
}

impl Rgb {
    /// The channel of the given number: 0 red, 1 green, any other blue.
    pub open spec fn channel(self, c: int) -> u8 {
        if c == 0 {
            self.r
        } else if c == 1 {
            self.g
        } else {
            self.b
        }
    }
}

/// The bytes of a run of pixels: red, green and blue of the first, then of
/// the second, and so on.
pub open spec fn bytes_of(pixels: Seq<Rgb>) -> Seq<u8>
    decreases pixels.len(),
{
    if pixels.len() == 0 {
        Seq::empty()
    } else {
        bytes_of(pixels.drop_last()).push(pixels.last().r).push(pixels.last().g).push(
            pixels.last().b,
        )
    }
}

/// The number of pixels of a picture, or `None` where the picture has more
/// bytes than the machine can count.
pub fn pixel_count(width: usize, height: usize) -> (r: Option<usize>)
    ensures
        r == (if 3 * (width * height) <= usize::MAX {
            Some((width * height) as usize)
        } else {
            None
        }),
{
    match width.checked_mul(height) {
        None => {
            assert(3 * (width * height) > usize::MAX) by (nonlinear_arith)
                requires
                    width * height > usize::MAX,
            ;
            None
        },
        Some(n) => match n.checked_mul(3) {
            None => None,
            Some(_) => Some(n),
        },
    }
}

/// The column and the row of the pixel with number `i`, in a picture that is
/// `width` pixels wide: pixels are numbered along the rows, from the top.
pub fn pixel_at(i: usize, width: usize) -> (r: (usize, usize))
    requires
        width > 0,
    ensures
        r.0 == i % width,
        r.1 == i / width,
        r.0 < width,
        i == r.1 * width + r.0,
{
    proof {
        vstd::arithmetic::div_mod::lemma_fundamental_div_mod(i as int, width as int);
        assert(width * (i / width) == (i / width) * width) by (nonlinear_arith);
    }
    (i % width, i / width)
}

/// Lays the pixels out as bytes, three to a pixel, in order.
pub fn flatten(pixels: &Vec<Rgb>) -> (r: Vec<u8>)
    ensures
        r@ == bytes_of(pixels@),
{
    let mut out: Vec<u8> = Vec::new();
    let mut i: usize = 0;
    proof {
        assert(pixels@.take(0) == Seq::<Rgb>::empty());
    }
    while i < pixels.len()
        invariant
            0 <= i <= pixels@.len(),
            out@ == bytes_of(pixels@.take(i as int)),
        decreases pixels@.len() - i,
    {
        proof {
            assert(pixels@.take(i + 1).drop_last() == pixels@.take(i as int));
            assert(pixels@.take(i + 1).last() == pixels@[i as int]);
        }
        let p = pixels[i];
        out.push(p.r);
        out.push(p.g);
        out.push(p.b);
        i += 1;
    }
    proof {
        assert(pixels@.take(i as int) == pixels@);
    }
    out
}

/// The picture has three bytes for every pixel, and channel `c` of pixel `i`
/// is byte `3 * i + c`.
pub proof fn bytes_of_layout(pixels: Seq<Rgb>, i: int, c: int)
    requires
        0 <= i < pixels.len(),
        0 <= c < 3,
    ensures
        bytes_of(pixels).len() == 3 * pixels.len(),
        bytes_of(pixels)[3 * i + c] == pixels[i].channel(c),
    decreases pixels.len(),
{
    bytes_of_len(pixels);
    bytes_of_len(pixels.drop_last());
    if i < pixels.len() - 1 {
        bytes_of_layout(pixels.drop_last(), i, c);
    }
}

/// The picture has three bytes for every pixel.
pub proof fn bytes_of_len(pixels: Seq<Rgb>)
    ensures
        bytes_of(pixels).len() == 3 * pixels.len(),
    decreases pixels.len(),
{
    if pixels.len() > 0 {
        bytes_of_len(pixels.drop_last());
    }
}

/// In a picture of `width` by `height` pixels, the pixel in column `x` of
/// row `y` has the number `y * width + x`, which names that column and row
/// and no other, and its channel `c` is byte `3 * (y * width + x) + c`.
pub proof fn row_major(pixels: Seq<Rgb>, width: int, height: int, x: int, y: int, c: int)
    requires
        pixels.len() == width * height,
        0 <= x < width,
        0 <= y < height,
        0 <= c < 3,
    ensures
        0 <= y * width + x < pixels.len(),
        (y * width + x) % width == x,
        (y * width + x) / width == y,
        bytes_of(pixels)[3 * (y * width + x) + c] == pixels[y * width + x].channel(c),
{
    assert(0 <= y * width + x < width * height) by (nonlinear_arith)
        requires
            0 <= x < width,
            0 <= y < height,
    ;
    lemma_fundamental_div_mod_converse(y * width + x, width, y, x);
    bytes_of_layout(pixels, y * width + x, c);
}

/// No two pixels share a byte: the three bytes of one pixel lie apart from
/// the three bytes of any other.
pub proof fn pixels_lie_apart(i: int, j: int, c: int, d: int)
    requires
        i != j,
        0 <= c < 3,
        0 <= d < 3,
    ensures
        3 * i + c != 3 * j + d,
{
}

/// A picture whose pixels all have one colour holds that colour's three
/// bytes over and over: byte `k` is channel `k % 3` of the colour.
pub proof fn picture_of_one_colour(pixels: Seq<Rgb>, colour: Rgb, k: int)
    requires
        forall|i: int| 0 <= i < pixels.len() ==> pixels[i] == colour,
        0 <= k < 3 * pixels.len(),
    ensures
        bytes_of(pixels).len() == 3 * pixels.len(),
        bytes_of(pixels)[k] == colour.channel(k % 3),
{
    bytes_of_layout(pixels, k / 3, k % 3);
}

} // verus!
