//! A simulated bit set/reset register region.
//!
//! The region records every store it receives, in call order and verbatim,
//! and its output state is provably the fold of that store log. All
//! register-touching operations route through the single store primitive.

use vstd::prelude::*;

verus! {

/// The register value after one store of `word` into a bit set/reset
/// register whose outputs currently read `pins`: each low-half bit of
/// `word` that is 1 drives the matching output high, each high-half bit
/// that is 1 drives the matching output low, a 0 bit leaves its output
/// alone, and a set request wins over a clear request for the same output.
pub open spec fn bsrr_step(pins: u32, word: u32) -> u32 {
    (pins | (word & 0xFFFF)) & !(((word >> 16) & 0xFFFF) & !(word & 0xFFFF))
}

/// The register value after a whole sequence of stores, oldest first.
pub open spec fn bsrr_run(pins: u32, words: Seq<u32>) -> u32
    decreases words.len(),
{
    if words.len() == 0 {
        pins
    } else {
        bsrr_run(bsrr_step(pins, words[0]), words.drop_first())
    }
}

/// The outputs that a store of the clear request `mask` drives low, as a
/// low-half bit mask: a requested output may be given either as its plain
/// bit position or already shifted into the reset half of the word.
pub open spec fn pins_to_clear(mask: u32) -> u32 {
    (mask & 0xFFFF) | (mask >> 16)
}

/// The word that a clear request `mask` actually stores: all requested
/// outputs normalized into the reset half of the register.
pub open spec fn reset_word(mask: u32) -> u32 {
    pins_to_clear(mask) << 16
}

/// A store keeps the outputs inside the low half of the register.
pub proof fn lemma_bsrr_step_bounded(pins: u32, word: u32)
    requires
        pins <= 0xFFFF,
    ensures
        bsrr_step(pins, word) <= 0xFFFF,
{
    assert(pins <= 0xFFFF ==> bsrr_step(pins, word) <= 0xFFFF) by (bit_vector);
}

/// Folding one more store at the end of a log is one step on the fold of
/// the log so far.
pub proof fn lemma_bsrr_run_push(pins: u32, words: Seq<u32>, word: u32)
    ensures
        bsrr_run(pins, words.push(word)) == bsrr_step(bsrr_run(pins, words), word),
    decreases words.len(),
{
    if words.len() == 0 {
        assert(words.push(word)[0] == word);
        assert(words.push(word).drop_first() =~= Seq::<u32>::empty());
        assert(bsrr_run(pins, words.push(word))
            == bsrr_run(bsrr_step(pins, word), words.push(word).drop_first()));
        assert(bsrr_run(bsrr_step(pins, word), Seq::<u32>::empty()) == bsrr_step(pins, word));
    } else {
        assert(words.push(word)[0] == words[0]);
        lemma_bsrr_run_push(bsrr_step(pins, words[0]), words.drop_first(), word);
        assert(words.push(word).drop_first() =~= words.drop_first().push(word));
        assert(bsrr_run(pins, words.push(word))
            == bsrr_run(bsrr_step(pins, words[0]), words.drop_first().push(word)));
    }
}

/// Storing the same word twice in succession leaves the register exactly
/// as the first store left it.
pub proof fn lemma_store_idempotent(pins: u32, word: u32)
    ensures
        bsrr_step(bsrr_step(pins, word), word) == bsrr_step(pins, word),
{
    assert(bsrr_step(bsrr_step(pins, word), word) == bsrr_step(pins, word)) by (bit_vector);
}

/// Setting one output and then clearing it leaves that output low and
/// every other output exactly as it was. The two expressions are the
/// output states that `set_bits` and then `clear_bits` ensure for a
/// single-bit request on bit `b`.
pub proof fn lemma_set_then_clear(pins: u32, b: u32)
    requires
        b < 16,
    ensures
        ((pins | (1u32 << b)) & !pins_to_clear(1u32 << b)) & (1u32 << b) == 0,
        ((pins | (1u32 << b)) & !pins_to_clear(1u32 << b)) & !(1u32 << b) == pins & !(1u32 << b),
{
    assert(b < 16 ==> ((pins | (1u32 << b)) & !pins_to_clear(1u32 << b)) & (1u32 << b) == 0)
        by (bit_vector);
    assert(b < 16 ==> ((pins | (1u32 << b)) & !pins_to_clear(1u32 << b)) & !(1u32 << b)
        == pins & !(1u32 << b)) by (bit_vector);
}

/// A simulated bit set/reset register region at a fixed address.
///
/// `pins` caches the current output state; the invariant ties it to the
/// fold of the recorded store log over the initial state, so no store can
/// be elided, reordered or rewritten without the state giving it away.
pub struct BsrrMock {
    addr: u32,
    initial: u32,
    pins: u32,
    stores: Vec<u32>,
}

impl BsrrMock {
    /// The address this region simulates.
    pub closed spec fn addr(&self) -> u32 {
        self.addr
    }

    /// The output state the region started from.
    pub closed spec fn initial(&self) -> u32 {
        self.initial
    }

    /// The current output state, low half of the register.
    pub closed spec fn pins(&self) -> u32 {
        self.pins
    }

    /// Every word ever stored into the region, in call order.
    pub closed spec fn log(&self) -> Seq<u32> {
        self.stores@
    }

    /// The region is well formed: outputs live in the low half and the
    /// cached state is the fold of the store log.
    pub open spec fn wf(&self) -> bool {
        &&& self.initial() <= 0xFFFF
        &&& self.pins() <= 0xFFFF
        &&& self.pins() == bsrr_run(self.initial(), self.log())
    }

    /// A fresh region at `addr` whose outputs read `initial`, with an
    /// empty store log.
    pub fn new(addr: u32, initial: u32) -> (r: Self)
        requires
            initial <= 0xFFFF,
        ensures
            r.wf(),
            r.addr() == addr,
            r.initial() == initial,
            r.pins() == initial,
            r.log() == Seq::<u32>::empty(),
    {
        BsrrMock { addr, initial, pins: initial, stores: Vec::new() }
    }

    /// The store primitive: the one operation that touches the simulated
    /// register. Each call appends exactly one store to the log, verbatim
    /// and in call order, and advances the output state by one step. The
    /// store must target the address the region is mapped at; any other
    /// address has no defined behavior on the hardware, so no caller may
    /// present one.
    pub fn store(&mut self, addr: u32, word: u32)
        requires
            old(self).wf(),
            addr == old(self).addr(),
        ensures
            final(self).wf(),
            final(self).addr() == old(self).addr(),
            final(self).initial() == old(self).initial(),
            final(self).log() == old(self).log().push(word),
            final(self).pins() == bsrr_step(old(self).pins(), word),
    {
        let next: u32 = (self.pins | (word & 0xFFFF)) & !(((word >> 16) & 0xFFFF) & !(word & 0xFFFF));
        proof {
            lemma_bsrr_step_bounded(self.pins, word);
            lemma_bsrr_run_push(self.initial, self.stores@, word);
        }
        self.stores.push(word);
        self.pins = next;
    }

    /// Drives high every output named by a low-half bit of `mask`, through
    /// one store of `mask` itself.
    pub fn set_bits(&mut self, addr: u32, mask: u32)
        requires
            old(self).wf(),
            addr == old(self).addr(),
            mask <= 0xFFFF,
        ensures
            final(self).wf(),
            final(self).addr() == old(self).addr(),
            final(self).initial() == old(self).initial(),
            final(self).log() == old(self).log().push(mask),
            final(self).pins() == (old(self).pins() | mask),
    {
        proof {
            let p = old(self).pins();
            assert(p <= 0xFFFF && mask <= 0xFFFF ==> bsrr_step(p, mask) == (p | mask))
                by (bit_vector);
        }
        self.store(addr, mask);
    }

    /// Drives low every output named by `mask`, given either as plain bit
    /// positions or already shifted into the reset half, through one store
    /// of the normalized reset word.
    pub fn clear_bits(&mut self, addr: u32, mask: u32)
        requires
            old(self).wf(),
            addr == old(self).addr(),
        ensures
            final(self).wf(),
            final(self).addr() == old(self).addr(),
            final(self).initial() == old(self).initial(),
            final(self).log() == old(self).log().push(reset_word(mask)),
            final(self).pins() == (old(self).pins() & !pins_to_clear(mask)),
    {
        let word: u32 = ((mask & 0xFFFF) | (mask >> 16)) << 16;
        proof {
            let p = old(self).pins();
            assert(p <= 0xFFFF ==> bsrr_step(p, reset_word(mask)) == (p & !pins_to_clear(mask)))
                by (bit_vector);
        }
        self.store(addr, word);
    }

    /// Reads the simulated register back: the current output state.
    pub fn read_value(&self) -> (r: u32)
        ensures
            r == self.pins(),
    {
        self.pins
    }

    /// The address this region is mapped at.
    pub fn address(&self) -> (r: u32)
        ensures
            r == self.addr(),
    {
        self.addr
    }

    /// The output state the region started from.
    pub fn initial_value(&self) -> (r: u32)
        ensures
            r == self.initial(),
    {
        self.initial
    }

    /// The recorded store log, oldest store first.
    pub fn store_log(&self) -> (r: &Vec<u32>)
        ensures
            r@ == self.log(),
    {
        &self.stores
    }
}

/// Recomputes the output state that a store log leaves behind, starting
/// from `initial`: an independent fold over the recorded stores.
pub fn replay(initial: u32, words: &Vec<u32>) -> (r: u32)
    ensures
        r == bsrr_run(initial, words@),
{
    let mut pins: u32 = initial;
    let mut i: usize = 0;
    while i < words.len()
        invariant
            0 <= i <= words@.len(),
            pins == bsrr_run(initial, words@.take(i as int)),
        decreases words@.len() - i,
    {
        let w: u32 = words[i];
        proof {
            assert(words@.take(i as int).push(words@[i as int]) =~= words@.take(i as int + 1));
            lemma_bsrr_run_push(initial, words@.take(i as int), words@[i as int]);
        }
        pins = (pins | (w & 0xFFFF)) & !(((w >> 16) & 0xFFFF) & !(w & 0xFFFF));
        i = i + 1;
    }
    proof {
        assert(words@.take(words@.len() as int) =~= words@);
    }
    pins
}

} // verus!
