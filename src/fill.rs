use vstd::prelude::*;
use vstd::arithmetic::div_mod::{lemma_fundamental_div_mod, lemma_fundamental_div_mod_converse};
use vstd::arithmetic::mul::lemma_mul_inequality;

verus! {

/// One colour: red, green and blue channels.
#[derive(Clone, Copy, Debug, PartialEq, Eq, Structural)]
pub struct Rgb {
    pub r: u8,
    pub g: u8,
    pub b: u8,
}

impl Rgb {
    /// The channel stored at byte `k` (0, 1 or 2) of a pixel.
    pub open spec fn channel(self, k: int) -> u8 {
        if k == 0 {
            self.r
        } else if k == 1 {
            self.g
        } else {
            self.b
        }
    }
}

/// Whether byte `i` of a buffer with row stride `pitch` belongs to one of the
/// `width` pixels of one of the first `height` rows.
pub open spec fn in_canvas(i: int, pitch: int, width: int, height: int) -> bool {
    &&& pitch > 0
    &&& 0 <= i
    &&& i / pitch < height
    &&& i % pitch < 3 * width
}

/// The buffer `old` after every pixel of a `width` x `height` canvas has been
/// set to `c`: pixel bytes take the colour, every other byte is kept.
pub open spec fn filled(old: Seq<u8>, pitch: int, width: int, height: int, c: Rgb) -> Seq<u8> {
    Seq::new(
        old.len(),
        |i: int|
            if in_canvas(i, pitch, width, height) {
                c.channel((i % pitch) % 3)
            } else {
                old[i]
            },
    )
}

/// Every byte of pixel `(x, y)` holds the colour, and the padding bytes after
/// the `width` pixels of a row are left as they were.
pub proof fn lemma_full_coverage(
    old: Seq<u8>,
    pitch: int,
    width: int,
    height: int,
    c: Rgb,
    x: int,
    y: int,
    k: int,
)
    requires
        3 * width <= pitch,
        height * pitch <= old.len(),
        0 <= x < width,
        0 <= y < height,
        0 <= k < 3,
    ensures
        filled(old, pitch, width, height, c)[y * pitch + 3 * x + k] == c.channel(k),
        forall|p: int|
            3 * width <= p < pitch ==> #[trigger] filled(old, pitch, width, height, c)[y
                * pitch + p] == old[y * pitch + p],
{
    let f = filled(old, pitch, width, height, c);
    lemma_mul_inequality(y + 1, height, pitch);
    assert((y + 1) * pitch == y * pitch + pitch) by (nonlinear_arith);
    let i = y * pitch + 3 * x + k;
    lemma_fundamental_div_mod_converse(i, pitch, y, 3 * x + k);
    assert(f[i] == c.channel(k));
    assert forall|p: int| 3 * width <= p < pitch implies #[trigger] f[y * pitch + p] == old[y
        * pitch + p] by {
        lemma_fundamental_div_mod_converse(y * pitch + p, pitch, y, p);
    }
}

/// Writes `c` into every pixel of a `width` x `height` canvas held row by row
/// in `buffer`, each row starting `pitch` bytes after the one before. A pixel
/// is three bytes, red, green and blue; bytes past `3 * width` in a row are
/// padding and are not touched.
pub fn fill_solid(buffer: &mut [u8], pitch: usize, width: usize, height: usize, c: Rgb)
    requires
        3 * width <= pitch,
        height * pitch <= old(buffer)@.len(),
    ensures
        final(buffer)@ == filled(old(buffer)@, pitch as int, width as int, height as int, c),
{
    let ghost start = buffer@;
    let len = buffer.len();
    if width == 0 {
        assert(buffer@ =~= filled(start, pitch as int, 0, height as int, c));
        return;
    }
    let mut y: usize = 0;
    let mut row: usize = 0;
    while y < height
        invariant
            0 < 3 * width <= pitch,
            height * pitch <= buffer@.len(),
            buffer@.len() == start.len(),
            start.len() == len,
            y <= height,
            row == y * pitch,
            forall|i: int|
                0 <= i < buffer@.len() ==> #[trigger] buffer@[i] == if in_canvas(
                    i,
                    pitch as int,
                    width as int,
                    y as int,
                ) {
                    c.channel((i % pitch as int) % 3)
                } else {
                    start[i]
                },
        decreases height - y,
    {
        proof {
            lemma_mul_inequality(y as int + 1, height as int, pitch as int);
            assert((y as int + 1) * pitch == y * pitch + pitch) by (nonlinear_arith);
        }
        let mut x: usize = 0;
        while x < width
            invariant
                0 < 3 * width <= pitch,
                height * pitch <= buffer@.len(),
                buffer@.len() == start.len(),
                start.len() == len,
                y < height,
                row == y * pitch,
                row + pitch <= height * pitch,
                x <= width,
                forall|i: int|
                    0 <= i < buffer@.len() ==> #[trigger] buffer@[i] == if in_canvas(
                        i,
                        pitch as int,
                        width as int,
                        y as int,
                    ) || (row <= i < row + 3 * x) {
                        c.channel((i % pitch as int) % 3)
                    } else {
                        start[i]
                    },
            decreases width - x,
        {
            let off = row + 3 * x;
            let ghost before = buffer@;
            buffer[off] = c.r;
            buffer[off + 1] = c.g;
            buffer[off + 2] = c.b;
            proof {
                assert forall|i: int| 0 <= i < buffer@.len() implies #[trigger] buffer@[i]
                    == if in_canvas(i, pitch as int, width as int, y as int) || (row <= i < row + 3
                    * (x + 1)) {
                    c.channel((i % pitch as int) % 3)
                } else {
                    start[i]
                } by {
                    if off <= i < off + 3 {
                        lemma_fundamental_div_mod_converse(
                            i,
                            pitch as int,
                            y as int,
                            3 * x + (i - off),
                        );
                        lemma_fundamental_div_mod(i, pitch as int);
                    } else {
                        assert(buffer@[i] == before[i]);
                    }
                }
            }
            x = x + 1;
        }
        proof {
            assert forall|i: int| 0 <= i < buffer@.len() implies #[trigger] buffer@[i] == if in_canvas(
                i,
                pitch as int,
                width as int,
                y + 1,
            ) {
                c.channel((i % pitch as int) % 3)
            } else {
                start[i]
            } by {
                lemma_fundamental_div_mod(i, pitch as int);
                if row <= i < row + 3 * width {
                    lemma_fundamental_div_mod_converse(i, pitch as int, y as int, i - row);
                } else if i / (pitch as int) == y && i % (pitch as int) < 3 * width {
                    assert(i == y * pitch + i % (pitch as int)) by (nonlinear_arith)
                        requires i == pitch * (i / (pitch as int)) + i % (pitch as int), i / (pitch as int) == y;
                }
            }
        }
        y = y + 1;
        row = row + pitch;
    }
    assert(buffer@ =~= filled(start, pitch as int, width as int, height as int, c));
}

} // verus!
