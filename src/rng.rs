use vstd::prelude::*;

verus! {

#[verifier::external_type_specification]
#[verifier::external_body]
pub struct ExXorShiftRng(rand::XorShiftRng);

/// The four state words of a xorshift generator, `x`, `y`, `z`, `w`.
pub type XsState = (u32, u32, u32, u32);

/// A state that a xorshift generator can be in: not all four words zero.
pub open spec fn nonzero_state(s: XsState) -> bool {
    s.0 != 0 || s.1 != 0 || s.2 != 0 || s.3 != 0
}

/// The state that a seed gives, word for word.
pub open spec fn seed_state(seed: [u32; 4]) -> XsState {
    (seed[0], seed[1], seed[2], seed[3])
}

/// The word that a xorshift generator in state `s` yields next:
/// with `t = x ^ (x << 11)`, it is `w ^ (w >> 19) ^ t ^ (t >> 8)`.
pub open spec fn xs_out(s: XsState) -> u32 {
    let t: u32 = s.0 ^ ((s.0 << 11u32) as u32);
    s.3 ^ (s.3 >> 19u32) ^ (t ^ (t >> 8u32))
}

/// The state after one word: the words move down by one and the new word
/// comes last.
pub open spec fn xs_next(s: XsState) -> XsState {
    (s.1, s.2, s.3, xs_out(s))
}

/// A xorshift generator together with a model of its state. The model is
/// private to this module and only the functions here, which wrap the
/// generator's own calls, set it.
pub struct Xorshift {
    rng: rand::XorShiftRng,
    state: Ghost<XsState>,
}

impl View for Xorshift {
    type V = XsState;

    closed spec fn view(&self) -> XsState {
        self.state@
    }
}

impl Xorshift {
    /// Relies on rand::weak_rng, which draws the four words from the thread's
    /// generator and draws again while they are all zero.
    #[verifier::external_body]
    pub(crate) fn fresh() -> (g: Xorshift)
        ensures
            nonzero_state(g@),
    {
        Xorshift { rng: rand::weak_rng(), state: Ghost(arbitrary()) }
    }

    /// Relies on `SeedableRng<[u32; 4]>::from_seed` of `XorShiftRng`, which
    /// takes the seed as its state and panics when every word is zero.
    #[verifier::external_body]
    pub(crate) fn from_seed(seed: [u32; 4]) -> (g: Xorshift)
        requires
            nonzero_state(seed_state(seed)),
        ensures
            g@ == seed_state(seed),
    {
        let rng = <rand::XorShiftRng as rand::SeedableRng<[u32; 4]>>::from_seed(seed);
        Xorshift { rng, state: Ghost(seed_state(seed)) }
    }

    /// Relies on `Rng::next_u32` of `XorShiftRng`: one xorshift step, which
    /// returns the new last word of the state.
    #[verifier::external_body]
    pub(crate) fn next_word(&mut self) -> (r: u32)
        ensures
            r == xs_out(old(self)@),
            final(self)@ == xs_next(old(self)@),
    {
        let r = rand::Rng::next_u32(&mut self.rng);
        self.state = Ghost(xs_next(self.state@));
        r
    }
}

} // verus!
