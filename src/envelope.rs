use vstd::prelude::*;
use crate::alphabet::{morse, morse_code, upper_of, uppercase_chars, CWAlphabet};
use crate::timing::{expansion, lemma_expansion_whole_units, symbol_units, Timing, MAX_DOT};

verus! {

/// The elements of a text: the codes of its characters, in order.
pub open spec fn message_symbols(cs: Seq<char>) -> Seq<CWAlphabet>
    decreases cs.len(),
{
    if cs.len() == 0 {
        seq![]
    } else {
        message_symbols(cs.drop_last()) + morse_code(cs.last())
    }
}

/// The envelope of a sequence of elements: their expansions, one after another.
pub open spec fn envelope_of(syms: Seq<CWAlphabet>, dot: nat) -> Seq<bool>
    decreases syms.len(),
{
    if syms.len() == 0 {
        seq![]
    } else {
        envelope_of(syms.drop_last(), dot) + expansion(syms.last(), dot)
    }
}

/// The duration of a sequence of elements, in timing units.
pub open spec fn units_of(syms: Seq<CWAlphabet>) -> nat
    decreases syms.len(),
{
    if syms.len() == 0 {
        0
    } else {
        units_of(syms.drop_last()) + symbol_units(syms.last())
    }
}

/// The duration of a text, in timing units: the sum over its characters of
/// the duration of each character's code.
pub open spec fn message_units(cs: Seq<char>) -> nat
    decreases cs.len(),
{
    if cs.len() == 0 {
        0
    } else {
        message_units(cs.drop_last()) + units_of(morse_code(cs.last()))
    }
}

/// Extending a sequence of elements by one extends its envelope by that
/// element's expansion.
pub proof fn lemma_envelope_step(syms: Seq<CWAlphabet>, i: int, dot: nat)
    requires
        0 <= i < syms.len(),
    ensures
        envelope_of(syms.take(i + 1), dot) == envelope_of(syms.take(i), dot) + expansion(syms[i], dot),
{
    assert(syms.take(i + 1).drop_last() =~= syms.take(i));
}

/// The envelope of a shorter prefix is a prefix of the envelope of a longer one.
pub proof fn lemma_envelope_prefix(syms: Seq<CWAlphabet>, i: int, j: int, dot: nat)
    requires
        0 <= i <= j <= syms.len(),
    ensures
        envelope_of(syms.take(i), dot).len() <= envelope_of(syms.take(j), dot).len(),
        envelope_of(syms.take(j), dot).subrange(0, envelope_of(syms.take(i), dot).len() as int)
            == envelope_of(syms.take(i), dot),
    decreases j - i,
{
    if i < j {
        lemma_envelope_prefix(syms, i, j - 1, dot);
        lemma_envelope_step(syms, j - 1, dot);
        let a = envelope_of(syms.take(i), dot);
        let b = envelope_of(syms.take(j - 1), dot);
        let c = envelope_of(syms.take(j), dot);
        assert(c.subrange(0, a.len() as int) =~= b.subrange(0, a.len() as int));
    } else {
        assert(envelope_of(syms.take(j), dot).subrange(0, envelope_of(syms.take(i), dot).len() as int)
            =~= envelope_of(syms.take(i), dot));
    }
}

/// The envelope lasts as many samples as its elements' units times the dot.
pub proof fn lemma_envelope_len(syms: Seq<CWAlphabet>, dot: nat)
    ensures
        envelope_of(syms, dot).len() == units_of(syms) * dot,
    decreases syms.len(),
{
    if syms.len() > 0 {
        lemma_envelope_len(syms.drop_last(), dot);
        lemma_expansion_whole_units(syms.last(), dot);
        assert(units_of(syms) * dot == units_of(syms.drop_last()) * dot + symbol_units(syms.last()) * dot)
            by (nonlinear_arith)
            requires units_of(syms) == units_of(syms.drop_last()) + symbol_units(syms.last());
        assert(envelope_of(syms, dot).len() == envelope_of(syms.drop_last(), dot).len()
            + expansion(syms.last(), dot).len());
    } else {
        assert(units_of(syms) == 0);
        assert(0 * dot == 0) by (nonlinear_arith);
    }
}

/// Durations add up over concatenation.
pub proof fn lemma_units_concat(a: Seq<CWAlphabet>, b: Seq<CWAlphabet>)
    ensures
        units_of(a + b) == units_of(a) + units_of(b),
    decreases b.len(),
{
    if b.len() > 0 {
        assert((a + b).drop_last() =~= a + b.drop_last());
        lemma_units_concat(a, b.drop_last());
    } else {
        assert(a + b =~= a);
    }
}

/// The samples produced for a text number exactly the sum, over its
/// characters, of the expanded lengths of each character's code.
pub proof fn lemma_message_duration(cs: Seq<char>, dot: nat)
    ensures
        units_of(message_symbols(cs)) == message_units(cs),
        envelope_of(message_symbols(cs), dot).len() == message_units(cs) * dot,
    decreases cs.len(),
{
    if cs.len() > 0 {
        lemma_message_duration(cs.drop_last(), dot);
        lemma_units_concat(message_symbols(cs.drop_last()), morse_code(cs.last()));
    }
    lemma_envelope_len(message_symbols(cs), dot);
}

/// Encodes a text of upper-case characters into its elements.
pub fn encode(text: &Vec<char>) -> (r: Vec<CWAlphabet>)
    ensures
        r@ == message_symbols(text@),
{
    let mut r: Vec<CWAlphabet> = Vec::new();
    let mut i: usize = 0;
    while i < text.len()
        invariant
            i <= text@.len(),
            r@ == message_symbols(text@.take(i as int)),
        decreases text.len() - i,
    {
        let mut code = morse(&text[i]);
        r.append(&mut code);
        proof {
            assert(text@.take(i + 1).drop_last() =~= text@.take(i as int));
        }
        i = i + 1;
    }
    assert(text@.take(i as int) =~= text@);
    r
}

/// Encodes a text as written: it is taken to upper case first.
pub fn encode_text(msg: &str) -> (r: Vec<CWAlphabet>)
    ensures
        r@ == message_symbols(upper_of(msg@)),
        msg@.len() == 0 ==> r@.len() == 0,
{
    let chars = uppercase_chars(msg);
    encode(&chars)
}

/// How many samples the envelope of `symbols` lasts at `timing`, or `None`
/// when that count does not fit in a `u64`.
pub fn sample_count(symbols: &Vec<CWAlphabet>, timing: &Timing) -> (r: Option<u64>)
    requires
        timing.wf(),
    ensures
        r is Some <==> envelope_of(symbols@, timing.dot()).len() <= u64::MAX,
        r is Some ==> r->Some_0 == envelope_of(symbols@, timing.dot()).len(),
{
    let dot = timing.dot_length();
    let mut total: u64 = 0;
    let mut i: usize = 0;
    while i < symbols.len()
        invariant
            timing.wf(),
            dot == timing.dot(),
            i <= symbols@.len(),
            total == envelope_of(symbols@.take(i as int), timing.dot()).len(),
        decreases symbols.len() - i,
    {
        let units = symbols[i].units();
        proof {
            assert(units * dot <= 4 * MAX_DOT) by (nonlinear_arith)
                requires units <= 4, dot <= MAX_DOT;
            lemma_envelope_step(symbols@, i as int, timing.dot());
            lemma_expansion_whole_units(symbols@[i as int], timing.dot());
        }
        let step: u64 = (units * dot) as u64;
        match total.checked_add(step) {
            Some(t) => {
                total = t;
            },
            None => {
                proof {
                    lemma_envelope_prefix(symbols@, i + 1, symbols@.len() as int, timing.dot());
                    assert(symbols@.take(symbols@.len() as int) =~= symbols@);
                }
                return None;
            },
        }
        i = i + 1;
    }
    assert(symbols@.take(i as int) =~= symbols@);
    Some(total)
}

} // verus!
