//! The harness's single seeded pseudo-random stream.
//!
//! Every random choice the harness makes (sender selection, validator
//! selection, generator selection) is drawn from one `SeededRng`, so a run is
//! reproducible from its seed alone: the value of each draw is a function of
//! the seed and of the bounds of all draws made before it.
use vstd::prelude::*;

verus! {

/// The stream's underlying generator, a deterministic pseudo-random cipher
/// stream expanded from the seed.
#[verifier::external_type_specification]
#[verifier::external_body]
pub struct ExStdRng(rand::rngs::StdRng);

/// The value drawn from the stream seeded with `seed` after draws with the
/// bounds `bounds` were already taken, where the last element of `bounds` is
/// the (exclusive, non-zero) bound of the draw in question.
///
/// `rand::rngs::StdRng` is a deterministic generator, so this value is a
/// function of the seed and the bound history alone.
pub uninterp spec fn std_draw(seed: u64, bounds: Seq<u64>) -> u64;

/// A seeded pseudo-random stream together with the ghost history of the
/// bounds of the draws taken from it so far.
pub struct SeededRng {
    seed: u64,
    inner: rand::rngs::StdRng,
    history: Ghost<Seq<u64>>,
}

impl SeededRng {
    /// The seed this stream was constructed from.
    pub closed spec fn seed_spec(&self) -> u64 {
        self.seed
    }

    /// The bounds of the draws taken from this stream so far, oldest first.
    pub closed spec fn history_spec(&self) -> Seq<u64> {
        self.history@
    }

    /// The value of the next draw with bound `bound`.
    pub open spec fn next_draw_spec(&self, bound: u64) -> u64 {
        std_draw(self.seed_spec(), self.history_spec().push(bound))
    }

    /// Relies on `rand::SeedableRng::seed_from_u64` for `rand::rngs::StdRng`:
    /// expanding a 64-bit seed into generator state is deterministic.
    #[verifier::external_body]
    pub fn new(seed: u64) -> (r: SeededRng)
        ensures
            r.seed_spec() == seed,
            r.history_spec() == Seq::<u64>::empty(),
    {
        SeededRng {
            seed,
            inner: <rand::rngs::StdRng as rand::SeedableRng>::seed_from_u64(seed),
            history: Ghost(Seq::empty()),
        }
    }

    /// Relies on `rand::Rng::gen_range` over `rand::rngs::StdRng`: the result
    /// lies below the bound, and, the generator being a deterministic stream,
    /// it is determined by the seed and the bounds of all draws so far.
    #[verifier::external_body]
    pub fn draw(&mut self, bound: u64) -> (r: u64)
        requires
            bound > 0,
        ensures
            r == std_draw(old(self).seed_spec(), old(self).history_spec().push(bound)),
            r < bound,
            final(self).seed_spec() == old(self).seed_spec(),
            final(self).history_spec() == old(self).history_spec().push(bound),
    {
        let r = rand::Rng::gen_range(&mut self.inner, 0..bound);
        self.history = Ghost(self.history@.push(bound));
        r
    }

    /// Draw an index below `bound`, for selecting out of `bound` items.
    pub fn draw_index(&mut self, bound: usize) -> (r: usize)
        requires
            bound > 0,
        ensures
            r as u64 == old(self).next_draw_spec(bound as u64),
            r < bound,
            final(self).seed_spec() == old(self).seed_spec(),
            final(self).history_spec() == old(self).history_spec().push(bound as u64),
    {
        self.draw(bound as u64) as usize
    }
}

/// Replay determinism: two streams built from equal seeds that have taken
/// draws with equal bound histories yield equal values for their next draw.
/// Replaying a scenario under the same seed therefore repeats the same
/// sequence of generator selections, sender selections, and retry counts.
pub proof fn lemma_replay_deterministic(a: &SeededRng, b: &SeededRng, bound: u64)
    requires
        a.seed_spec() == b.seed_spec(),
        a.history_spec() == b.history_spec(),
    ensures
        a.next_draw_spec(bound) == b.next_draw_spec(bound),
{
}

} // verus!
