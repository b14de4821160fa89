use vstd::prelude::*;
use crate::alphabet::CWAlphabet;

verus! {

/// The sample rate of the rendered audio, in samples per second.
pub const SAMPLE_RATE: u32 = 48000;

/// A dot lasts one twentieth of a second.
pub const DOTS_PER_SECOND: u32 = 20;

/// The longest dot that a `u32` sample rate can give.
pub const MAX_DOT: usize = 214748364;

/// The audio configuration could not give a usable timing unit.
#[derive(Copy, Clone, Debug, PartialEq, Eq, Structural)]
pub enum ConfigurationError {
    /// The sample rate is too low for a dot to last a single sample.
    ZeroDotLength,
}

/// The timing unit: how many samples a dot lasts.
#[derive(Copy, Clone, Debug)]
pub struct Timing {
    dot_length: usize,
}

/// Key-down units of an element.
pub open spec fn on_units(s: CWAlphabet) -> nat {
    match s {
        CWAlphabet::Dot => 1,
        CWAlphabet::Dash => 3,
        CWAlphabet::LetterSpace => 0,
        CWAlphabet::WordSpace => 0,
    }
}

/// Key-up units of an element. The word gap lasts as long as the letter gap.
pub open spec fn off_units(s: CWAlphabet) -> nat {
    match s {
        CWAlphabet::Dot => 1,
        CWAlphabet::Dash => 1,
        CWAlphabet::LetterSpace => 3,
        CWAlphabet::WordSpace => 3,
    }
}

/// The whole duration of an element, in timing units.
pub open spec fn symbol_units(s: CWAlphabet) -> nat {
    on_units(s) + off_units(s)
}

/// The envelope of an element: key down for its on units, then key up.
pub open spec fn expansion(s: CWAlphabet, dot: nat) -> Seq<bool> {
    Seq::new(on_units(s) * dot, |k: int| true) + Seq::new(off_units(s) * dot, |k: int| false)
}

impl Timing {
    /// The dot length in samples.
    pub closed spec fn dot(&self) -> nat {
        self.dot_length as nat
    }

    /// A usable timing: a dot lasts at least one sample.
    pub open spec fn wf(&self) -> bool {
        0 < self.dot() && self.dot() <= MAX_DOT
    }

    /// The timing for a sample rate: a dot lasts a twentieth of a second,
    /// rounded down. Fails when that is no sample at all.
    pub fn new(sample_rate: u32) -> (r: Result<Timing, ConfigurationError>)
        ensures
            sample_rate < DOTS_PER_SECOND <==> r is Err,
            r is Err ==> r->Err_0 == ConfigurationError::ZeroDotLength,
            r is Ok ==> r->Ok_0.wf() && r->Ok_0.dot() == (sample_rate / DOTS_PER_SECOND) as nat,
    {
        let dot: u32 = sample_rate / DOTS_PER_SECOND;
        if dot == 0 {
            Err(ConfigurationError::ZeroDotLength)
        } else {
            Ok(Timing { dot_length: dot as usize })
        }
    }

    /// The timing at the library's fixed sample rate.
    pub fn standard() -> (r: Timing)
        ensures
            r.wf(),
            r.dot() == 2400,
    {
        Timing { dot_length: (SAMPLE_RATE / DOTS_PER_SECOND) as usize }
    }

    pub fn dot_length(&self) -> (r: usize)
        ensures
            r == self.dot(),
    {
        self.dot_length
    }
}

impl CWAlphabet {
    /// Length in timing units of the element: key down and the gap after it.
    pub fn units(&self) -> (r: usize)
        ensures
            r == symbol_units(*self),
            1 <= r <= 4,
    {
        match self {
            CWAlphabet::Dot => 2,
            CWAlphabet::Dash => 4,
            CWAlphabet::LetterSpace => 3,
            CWAlphabet::WordSpace => 3,
        }
    }

    /// Units during which the key is down.
    pub fn on_units(&self) -> (r: usize)
        ensures
            r == on_units(*self),
    {
        match self {
            CWAlphabet::Dot => 1,
            CWAlphabet::Dash => 3,
            _ => 0,
        }
    }

    /// The envelope sample at `offset` samples into the element: true while
    /// the key is down.
    pub fn sample_at(&self, timing: &Timing, offset: usize) -> (r: bool)
        requires
            timing.wf(),
            offset < symbol_units(*self) * timing.dot(),
        ensures
            r == expansion(*self, timing.dot())[offset as int],
    {
        let on = self.on_units();
        let dot = timing.dot_length();
        proof {
            assert(on * dot <= 3 * MAX_DOT) by (nonlinear_arith)
                requires on <= 3, dot <= MAX_DOT;
            lemma_expansion_whole_units(*self, timing.dot());
            let e = expansion(*self, timing.dot());
            let a = Seq::new(on_units(*self) * timing.dot(), |k: int| true);
            if offset < on * dot {
                assert(e[offset as int] == a[offset as int]);
            } else {
                assert(e[offset as int] == false);
            }
        }
        offset < on * dot
    }

    /// The envelope of the element at the given timing, one sample per entry.
    pub fn expand(&self, timing: &Timing) -> (r: Vec<bool>)
        requires
            timing.wf(),
        ensures
            r@ == expansion(*self, timing.dot()),
            r@.len() == symbol_units(*self) * timing.dot(),
    {
        let dot = timing.dot_length();
        let units = self.units();
        proof {
            assert(units * dot <= 4 * MAX_DOT) by (nonlinear_arith)
                requires units <= 4, dot <= MAX_DOT;
        }
        let len: usize = units * dot;
        let ghost e = expansion(*self, timing.dot());
        proof {
            assert(e.len() == symbol_units(*self) * timing.dot()) by (nonlinear_arith)
                requires e.len() == on_units(*self) * timing.dot() + off_units(*self) * timing.dot(),
                    symbol_units(*self) == on_units(*self) + off_units(*self);
        }
        let mut r: Vec<bool> = Vec::new();
        let mut i: usize = 0;
        while i < len
            invariant
                timing.wf(),
                len == e.len(),
                e.len() == symbol_units(*self) * timing.dot(),
                e == expansion(*self, timing.dot()),
                i <= len,
                r@ == e.subrange(0, i as int),
            decreases len - i,
        {
            r.push(self.sample_at(timing, i));
            i = i + 1;
            assert(r@ =~= e.subrange(0, i as int));
        }
        assert(r@ =~= e);
        r
    }
}

/// Every element lasts a whole number of timing units, and its envelope is
/// fixed by the element and the timing alone.
pub proof fn lemma_expansion_whole_units(s: CWAlphabet, dot: nat)
    ensures
        expansion(s, dot).len() == symbol_units(s) * dot,
        symbol_units(s) >= 2,
{
    assert(expansion(s, dot).len() == symbol_units(s) * dot) by (nonlinear_arith)
        requires expansion(s, dot).len() == on_units(s) * dot + off_units(s) * dot,
            symbol_units(s) == on_units(s) + off_units(s);
}

/// Expanding the same element twice at the same timing gives the same samples.
pub proof fn lemma_expand_twice(s: CWAlphabet, t: Timing, first: Seq<bool>, second: Seq<bool>)
    requires
        first == expansion(s, t.dot()),
        second == expansion(s, t.dot()),
    ensures
        first == second,
{
}

} // verus!
