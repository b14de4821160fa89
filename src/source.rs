use vstd::prelude::*;
use crate::alphabet::CWAlphabet;
use crate::envelope::{envelope_of, lemma_envelope_prefix, lemma_envelope_step};
use crate::timing::{expansion, lemma_expansion_whole_units, symbol_units, Timing, MAX_DOT};

verus! {

/// A finite source that hands out the envelope of a sequence of elements in
/// bounded chunks, keeping its place between calls.
pub struct Envelope {
    symbols: Vec<CWAlphabet>,
    timing: Timing,
    index: usize,
    offset: usize,
}

/// Samples before element `i`: the length of the envelope of the first `i` elements.
pub open spec fn start_of(syms: Seq<CWAlphabet>, i: int, dot: nat) -> nat {
    envelope_of(syms.take(i), dot).len()
}

impl Envelope {
    /// Every sample that the source will hand out, in order.
    pub closed spec fn signal(&self) -> Seq<bool> {
        envelope_of(self.symbols@, self.timing.dot())
    }

    /// How many samples have been handed out so far.
    pub closed spec fn position(&self) -> nat {
        start_of(self.symbols@, self.index as int, self.timing.dot()) + self.offset as nat
    }

    pub closed spec fn wf(&self) -> bool {
        &&& self.timing.wf()
        &&& self.index <= self.symbols@.len()
        &&& self.index < self.symbols@.len() ==> self.offset < symbol_units(self.symbols@[self.index as int]) * self.timing.dot()
        &&& self.index == self.symbols@.len() ==> self.offset == 0
    }

    /// A well-formed source never runs past its signal, and it is done
    /// exactly when it has handed out all of it.
    proof fn lemma_position(&self)
        requires
            self.wf(),
        ensures
            self.position() <= self.signal().len(),
            self.position() == self.signal().len() <==> self.index == self.symbols@.len(),
    {
        let syms = self.symbols@;
        let dot = self.timing.dot();
        let n = syms.len() as int;
        assert(syms.take(n) =~= syms);
        if self.index < n {
            let i = self.index as int;
            lemma_envelope_step(syms, i, dot);
            lemma_envelope_prefix(syms, i + 1, n, dot);
            lemma_expansion_whole_units(syms[i], dot);
        }
    }

    /// The source never runs past its signal.
    pub proof fn lemma_position_bound(&self)
        requires
            self.wf(),
        ensures
            self.position() <= self.signal().len(),
    {
        self.lemma_position();
    }

    /// A source positioned at the first sample of `symbols`.
    pub fn new(symbols: Vec<CWAlphabet>, timing: Timing) -> (r: Envelope)
        requires
            timing.wf(),
        ensures
            r.wf(),
            r.signal() == envelope_of(symbols@, timing.dot()),
            r.position() == 0,
    {
        let r = Envelope { symbols, timing, index: 0, offset: 0 };
        proof {
            assert(symbols@.take(0) =~= Seq::<CWAlphabet>::empty());
            if 0 < symbols@.len() {
                lemma_expansion_whole_units(symbols@[0], timing.dot());
                assert(symbol_units(symbols@[0]) * timing.dot() > 0) by (nonlinear_arith)
                    requires symbol_units(symbols@[0]) >= 2, timing.dot() > 0;
            }
        }
        r
    }

    /// True once every sample has been handed out.
    pub fn is_exhausted(&self) -> (r: bool)
        requires
            self.wf(),
        ensures
            r == (self.position() == self.signal().len()),
    {
        proof {
            self.lemma_position();
        }
        self.index == self.symbols.len()
    }

    /// Hands out the next `max` samples, or all that are left if fewer.
    pub fn next_chunk(&mut self, max: usize) -> (r: Vec<bool>)
        requires
            old(self).wf(),
        ensures
            final(self).wf(),
            final(self).signal() == old(self).signal(),
            final(self).position() == if old(self).position() + max <= old(self).signal().len() {
                old(self).position() + max
            } else {
                old(self).signal().len() as int
            },
            r@ == old(self).signal().subrange(old(self).position() as int, final(self).position() as int),
    {
        let ghost sig = self.signal();
        let ghost p0 = self.position();
        proof {
            self.lemma_position();
        }
        let dot = self.timing.dot_length();
        let mut out: Vec<bool> = Vec::new();
        while out.len() < max && self.index < self.symbols.len()
            invariant
                self.wf(),
                self.signal() == sig,
                dot == self.timing.dot(),
                p0 <= self.position() <= sig.len(),
                out@.len() == self.position() - p0,
                out@.len() <= max,
                self.position() < sig.len() <==> self.index < self.symbols@.len(),
                out@ == sig.subrange(p0 as int, self.position() as int),
            decreases max - out@.len(),
        {
            let ghost pos = self.position();
            let ghost i = self.index as int;
            let ghost syms = self.symbols@;
            let sym = self.symbols[self.index];
            let s = sym.sample_at(&self.timing, self.offset);
            proof {
                let n = syms.len() as int;
                assert(syms.take(n) =~= syms);
                lemma_envelope_step(syms, i, self.timing.dot());
                lemma_envelope_prefix(syms, i + 1, n, self.timing.dot());
                let d = self.timing.dot();
                lemma_expansion_whole_units(sym, d);
                let before = envelope_of(syms.take(i), d);
                let upto = envelope_of(syms.take(i + 1), d);
                assert(envelope_of(syms.take(n), d) == sig);
                assert(pos < upto.len());
                assert(upto[pos as int] == expansion(sym, d)[self.offset as int]);
                assert(sig.subrange(0, upto.len() as int)[pos as int] == sig[pos as int]);
            }
            out.push(s);
            self.offset = self.offset + 1;
            let units = sym.units();
            proof {
                assert(units * dot <= 4 * MAX_DOT) by (nonlinear_arith)
                    requires units <= 4, dot <= MAX_DOT;
            }
            if self.offset == units * dot {
                self.index = self.index + 1;
                self.offset = 0;
                proof {
                    lemma_envelope_step(syms, i, self.timing.dot());
                    lemma_expansion_whole_units(sym, self.timing.dot());
                    if self.index < syms.len() {
                        lemma_expansion_whole_units(syms[self.index as int], self.timing.dot());
                        assert(symbol_units(syms[self.index as int]) * self.timing.dot() > 0) by (nonlinear_arith)
                            requires symbol_units(syms[self.index as int]) >= 2, self.timing.dot() > 0;
                    }
                }
            }
            proof {
                assert(self.position() == pos + 1);
                self.lemma_position();
                assert(out@ =~= sig.subrange(p0 as int, self.position() as int));
            }
        }
        out
    }
}

} // verus!
