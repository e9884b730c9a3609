//! One hardware descriptor: four 32-bit words that software and the DMA
//! engine both read and write.

use vstd::prelude::*;
use vstd::array::spec_array_update;

verus! {

/// Number of 32-bit words in a descriptor.
pub const DESCRIPTOR_WORDS: usize = 4;

/// Who may read and write an entry at a given instant.
#[derive(Clone, Copy, Debug, PartialEq, Eq, Structural)]
pub enum Owner {
    /// Software owns the entry; the engine skips it.
    Cpu,
    /// The engine owns the entry; software must leave it alone.
    Dma,
}

/// The raw words of a descriptor, in the order the engine expects them.
pub struct Descriptor {
    words: [u32; DESCRIPTOR_WORDS],
}

impl View for Descriptor {
    type V = Seq<u32>;

    closed spec fn view(&self) -> Seq<u32> {
        self.words@
    }
}

impl Descriptor {
    /// Word `n` of the descriptor.
    pub open spec fn word(&self, n: int) -> u32 {
        self@[n]
    }

    /// The descriptor with word `n` replaced by `value`.
    pub closed spec fn updated(&self, n: int, value: u32) -> Descriptor {
        Descriptor { words: spec_array_update(self.words, n, value) }
    }

    /// The descriptor made of these four words.
    pub closed spec fn from_words(w0: u32, w1: u32, w2: u32, w3: u32) -> Descriptor {
        Descriptor {
            words: spec_array_update(
                spec_array_update(
                    spec_array_update(spec_array_update([0u32; DESCRIPTOR_WORDS], 0, w0), 1, w1),
                    2,
                    w2,
                ),
                3,
                w3,
            ),
        }
    }

    /// `from_words` holds the words it was given, in order.
    pub proof fn lemma_from_words(w0: u32, w1: u32, w2: u32, w3: u32)
        ensures
            Self::from_words(w0, w1, w2, w3)@ == seq![w0, w1, w2, w3],
    {
        assert(Self::from_words(w0, w1, w2, w3)@ =~= seq![w0, w1, w2, w3]);
    }

    /// A descriptor always has four words.
    pub proof fn lemma_len(&self)
        ensures
            self@.len() == DESCRIPTOR_WORDS,
    {
    }

    /// Replacing a word changes that word and no other.
    pub proof fn lemma_updated(&self, n: int, value: u32)
        requires
            0 <= n < DESCRIPTOR_WORDS,
        ensures
            self.updated(n, value)@ == self@.update(n, value),
    {
    }

    /// Two descriptors with the same words are the same descriptor.
    pub proof fn lemma_same_words(&self, other: &Descriptor)
        requires
            self@ == other@,
        ensures
            *self == *other,
    {
        assert(self.words =~= other.words);
    }

    /// A descriptor with every word zero.
    pub fn new() -> (d: Descriptor)
        ensures
            d@ == seq![0u32, 0u32, 0u32, 0u32],
    {
        let d = Descriptor { words: [0u32; DESCRIPTOR_WORDS] };
        assert(d@ =~= seq![0u32, 0u32, 0u32, 0u32]);
        d
    }

    /// Reads word `n`.
    pub fn read(&self, n: usize) -> (w: u32)
        requires
            n < DESCRIPTOR_WORDS,
        ensures
            w == self.word(n as int),
    {
        self.words[n]
    }

    /// Replaces word `n` and leaves the other words alone.
    pub fn write(&mut self, n: usize, value: u32)
        requires
            n < DESCRIPTOR_WORDS,
        ensures
            *final(self) == old(self).updated(n as int, value),
            final(self)@ == old(self)@.update(n as int, value),
    {
        self.words[n] = value;
        proof {
            old(self).lemma_updated(n as int, value);
            self.lemma_same_words(&old(self).updated(n as int, value));
        }
    }

    /// Clears the bits of `clear` in word `n`, then sets the bits of `set`.
    pub fn modify(&mut self, n: usize, clear: u32, set: u32)
        requires
            n < DESCRIPTOR_WORDS,
        ensures
            *final(self) == old(self).updated(n as int, (old(self).word(n as int) & !clear) | set),
            final(self)@ == old(self)@.update(n as int, (old(self).word(n as int) & !clear) | set),
    {
        let w = self.read(n);
        self.write(n, (w & !clear) | set);
    }

    /// The four words, for whoever hands their address to the engine.
    pub fn words(&self) -> (w: &[u32; DESCRIPTOR_WORDS])
        ensures
            w@ == self@,
    {
        &self.words
    }
}

} // verus!
