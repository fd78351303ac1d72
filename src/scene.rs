use vstd::prelude::*;
use vstd::arithmetic::div_mod::{lemma_fundamental_div_mod, lemma_mod_pos_bound};
use crate::fill::{Rgb, fill_solid, filled};
use crate::rng::{Xorshift, XsState, nonzero_state, seed_state, xs_next, xs_out};

verus! {

/// The unit value drawn from a word of the stream is `unit_numerator(w) / 2^23`:
/// the low 23 bits of the word are the mantissa of a float in `[1, 2)`, from
/// which one is taken.
pub open spec fn unit_numerator(w: u32) -> int {
    w as int % 0x800000
}

/// The channel for a word: its unit value scaled by 255 and rounded to the
/// nearest integer, halves away from zero. The product is taken exactly, not
/// in single precision, so on a few words (`0x410101` gives 129) the result is
/// one below what rounding an `f32` product would give.
pub open spec fn channel_of(w: u32) -> int {
    (2 * 255 * unit_numerator(w) + 0x800000) / 0x1000000
}

/// The colour of a frame drawn from state `s`: the channels of the next three
/// words, red first, then green, then blue.
pub open spec fn frame_color(s: XsState) -> Rgb {
    Rgb {
        r: channel_of(xs_out(s)) as u8,
        g: channel_of(xs_out(xs_next(s))) as u8,
        b: channel_of(xs_out(xs_next(xs_next(s)))) as u8,
    }
}

/// The state after a frame: three words on.
pub open spec fn after_frame(s: XsState) -> XsState {
    xs_next(xs_next(xs_next(s)))
}

/// The colours of the next `n` frames drawn from state `s`, in order.
pub open spec fn frame_colors(s: XsState, n: nat) -> Seq<Rgb>
    decreases n,
{
    if n == 0 {
        Seq::empty()
    } else {
        seq![frame_color(s)] + frame_colors(after_frame(s), (n - 1) as nat)
    }
}

/// The state after `n` frames drawn from state `s`.
pub open spec fn frames_after(s: XsState, n: nat) -> XsState
    decreases n,
{
    if n == 0 {
        s
    } else {
        frames_after(after_frame(s), (n - 1) as nat)
    }
}

/// Drawing `n + 1` frames from `s` gives the colours of the first `n`, then
/// the colour drawn from the state those `n` frames leave.
pub proof fn lemma_frame_colors_push(s: XsState, n: nat)
    ensures
        frame_colors(s, n + 1) == frame_colors(s, n).push(frame_color(frames_after(s, n))),
    decreases n,
{
    if n > 0 {
        lemma_frame_colors_push(after_frame(s), (n - 1) as nat);
        assert(frame_colors(s, n + 1) =~= seq![frame_color(s)] + frame_colors(after_frame(s), n));
        assert(frame_colors(s, n + 1) =~= frame_colors(s, n).push(frame_color(frames_after(s, n))));
    } else {
        assert(frame_colors(after_frame(s), 0) == Seq::<Rgb>::empty());
        assert(frame_colors(s, 1) =~= seq![frame_color(s)]);
        assert(frame_colors(s, 0).push(frame_color(s)) =~= seq![frame_color(s)]);
    }
}

/// Determinism: generators given the same seed draw the same colours over
/// any number of frames, and are then in the same state.
pub proof fn lemma_seed_fixes_colors(a: [u32; 4], b: [u32; 4], n: nat)
    requires
        a == b,
    ensures
        frame_colors(seed_state(a), n) == frame_colors(seed_state(b), n),
        frames_after(seed_state(a), n) == frames_after(seed_state(b), n),
{
}

/// Turns one word of the random stream into a colour channel: the unit value
/// `(w mod 2^23) / 2^23` in `[0, 1)`, times 255, rounded to nearest with
/// halves going up. The arithmetic is exact integer arithmetic, with no float
/// rounding of the product. The result is never above 255.
pub fn channel_from_word(w: u32) -> (r: u8)
    ensures
        r as int == channel_of(w),
        0 <= channel_of(w) <= 255,
        2 * 0x800000 * (r as int) <= 2 * 255 * unit_numerator(w) + 0x800000 < 2 * 0x800000 * (
        r as int + 1),
{
    let n: u64 = (w % 0x800000) as u64;
    let v: u64 = (510 * n + 0x800000) / 0x1000000;
    assert(v <= 255);
    proof {
        let a = 2 * 255 * unit_numerator(w) + 0x800000;
        lemma_fundamental_div_mod(a, 0x1000000);
        lemma_mod_pos_bound(a, 0x1000000);
        assert(n as int == unit_numerator(w));
        assert(v as int == a / 0x1000000);
    }
    let r = v as u8;
    assert(2 * 0x800000 * (r as int) <= 2 * 255 * unit_numerator(w) + 0x800000);
    assert(2 * 255 * unit_numerator(w) + 0x800000 < 2 * 0x800000 * (r as int + 1));
    r
}

/// A canvas of `width` x `height` pixels and the generator that picks the
/// colour of each frame.
pub struct Scene {
    pub width: usize,
    pub height: usize,
    pub rng: Xorshift,
}

impl Scene {
    /// A scene whose generator is seeded afresh.
    pub fn new(width: usize, height: usize) -> (s: Scene)
        ensures
            s.width == width,
            s.height == height,
            nonzero_state(s.rng@),
    {
        Scene { width, height, rng: Xorshift::fresh() }
    }

    /// A scene whose generator starts in the state `seed`.
    pub fn from_seed(width: usize, height: usize, seed: [u32; 4]) -> (s: Scene)
        requires
            nonzero_state(seed_state(seed)),
        ensures
            s.width == width,
            s.height == height,
            s.rng@ == seed_state(seed),
    {
        Scene { width, height, rng: Xorshift::from_seed(seed) }
    }

    /// Draws one channel value: the channel of the generator's next word.
    pub fn rnd_u8(&mut self) -> (r: u8)
        ensures
            r as int == channel_of(xs_out(old(self).rng@)),
            final(self).rng@ == xs_next(old(self).rng@),
            final(self).width == old(self).width,
            final(self).height == old(self).height,
    {
        let w = self.rng.next_word();
        channel_from_word(w)
    }

    /// Draws the colour of the next frame from three words: red, then green,
    /// then blue.
    pub fn next_color(&mut self) -> (c: Rgb)
        ensures
            c == frame_color(old(self).rng@),
            final(self).rng@ == after_frame(old(self).rng@),
            final(self).width == old(self).width,
            final(self).height == old(self).height,
    {
        let r = self.rnd_u8();
        let g = self.rnd_u8();
        let b = self.rnd_u8();
        Rgb { r, g, b }
    }

    /// Draws the frame's colour and writes it into every pixel of `buffer`,
    /// whose rows start `pitch` bytes apart; padding bytes are left as they
    /// were.
    pub fn draw(&mut self, buffer: &mut [u8], pitch: usize)
        requires
            3 * old(self).width <= pitch,
            old(self).height * pitch <= old(buffer)@.len(),
        ensures
            final(self).width == old(self).width,
            final(self).height == old(self).height,
            final(self).rng@ == after_frame(old(self).rng@),
            final(buffer)@ == filled(
                old(buffer)@,
                pitch as int,
                old(self).width as int,
                old(self).height as int,
                frame_color(old(self).rng@),
            ),
    {
        let c = self.next_color();
        fill_solid(buffer, pitch, self.width, self.height, c);
    }
}

} // verus!
