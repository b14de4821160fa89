use vstd::prelude::*;
use crate::alphabet::{upper_of, CWAlphabet};
use crate::envelope::{encode_text, envelope_of, lemma_message_duration, message_symbols, message_units, sample_count};
use crate::source::Envelope;
use crate::timing::Timing;

verus! {

/// Where the sink stands: accepting samples, finalized, or stopped by a
/// failed write.
#[derive(Copy, Clone, Debug, PartialEq, Eq, Structural)]
pub enum SinkStatus {
    Open,
    Closed,
    Failed,
}

/// Why a run did not complete.
#[derive(Copy, Clone, Debug, PartialEq, Eq, Structural)]
pub enum RunError {
    /// The message lasts more samples than a `u64` counts.
    MessageTooLong,
    /// Storing samples failed; the output is not valid.
    WriteError,
}

/// The bookkeeping of the sink: how many samples it has consumed, and
/// whether it is still open.
#[derive(Copy, Clone, Debug)]
pub struct SinkState {
    consumed: u64,
    status: SinkStatus,
}

impl SinkState {
    pub closed spec fn consumed_spec(&self) -> nat {
        self.consumed as nat
    }

    pub closed spec fn status_spec(&self) -> SinkStatus {
        self.status
    }

    /// An open sink that has consumed nothing.
    pub fn new() -> (r: SinkState)
        ensures
            r.consumed_spec() == 0,
            r.status_spec() == SinkStatus::Open,
    {
        SinkState { consumed: 0, status: SinkStatus::Open }
    }

    /// Records the outcome of storing a chunk of `len` samples. A stored
    /// chunk adds its length to the counter; a failed one stops the sink.
    pub fn accept(&mut self, len: usize, stored: bool) -> (r: Result<(), RunError>)
        requires
            old(self).status_spec() == SinkStatus::Open,
            old(self).consumed_spec() + len <= u64::MAX,
        ensures
            stored ==> r is Ok && final(self).consumed_spec() == old(self).consumed_spec() + len
                && final(self).status_spec() == SinkStatus::Open,
            !stored ==> r == Err::<(), RunError>(RunError::WriteError)
                && final(self).consumed_spec() == old(self).consumed_spec()
                && final(self).status_spec() == SinkStatus::Failed,
    {
        if stored {
            self.consumed = self.consumed + len as u64;
            Ok(())
        } else {
            self.status = SinkStatus::Failed;
            Err(RunError::WriteError)
        }
    }

    /// Upstream has no more samples and every chunk has been stored: the
    /// sink closes.
    pub fn mark_upstream_finished(&mut self)
        requires
            old(self).status_spec() == SinkStatus::Open,
        ensures
            final(self).consumed_spec() == old(self).consumed_spec(),
            final(self).status_spec() == SinkStatus::Closed,
    {
        self.status = SinkStatus::Closed;
    }

    /// True once the sink has closed.
    pub fn is_finished(&self) -> (r: bool)
        ensures
            r == (self.status_spec() == SinkStatus::Closed),
    {
        match self.status {
            SinkStatus::Closed => true,
            _ => false,
        }
    }

    pub fn consumed(&self) -> (r: u64)
        ensures
            r == self.consumed_spec(),
    {
        self.consumed
    }

    pub fn status(&self) -> (r: SinkStatus)
        ensures
            r == self.status_spec(),
    {
        self.status
    }
}

/// What the driver of a run is to do next.
#[derive(Debug)]
pub enum Action {
    /// Key these envelope samples onto the tone and store them, then report
    /// the outcome.
    Write(Vec<bool>),
    /// Every sample has been stored: finalize the output.
    Finalize,
}

/// One synthesis run: the envelope source of a message feeding the sink,
/// one bounded chunk at a time.
pub struct Session {
    source: Envelope,
    sink: SinkState,
    pending: usize,
}

impl Session {
    /// Every sample that the run delivers, in order.
    pub closed spec fn samples(&self) -> Seq<bool> {
        self.source.signal()
    }

    /// Samples handed out by the source so far.
    pub closed spec fn produced(&self) -> nat {
        self.source.position()
    }

    /// Samples of the chunk handed out and not yet reported.
    pub closed spec fn pending(&self) -> nat {
        self.pending as nat
    }

    pub closed spec fn sink(&self) -> SinkState {
        self.sink
    }

    /// A run that will deliver `samples` and has not started.
    pub open spec fn is_fresh(&self, samples: Seq<bool>) -> bool {
        &&& self.wf()
        &&& self.samples() == samples
        &&& self.produced() == 0
        &&& self.pending() == 0
        &&& self.sink().consumed_spec() == 0
        &&& self.sink().status_spec() == SinkStatus::Open
    }

    pub closed spec fn wf(&self) -> bool {
        &&& self.source.wf()
        &&& self.source.signal().len() <= u64::MAX
        &&& self.sink.status_spec() != SinkStatus::Failed ==> self.sink.consumed_spec() + self.pending
            == self.source.position()
        &&& self.sink.consumed_spec() + self.pending <= self.source.position()
        &&& self.pending > 0 ==> self.sink.status_spec() == SinkStatus::Open
        &&& self.sink.status_spec() == SinkStatus::Closed ==> self.source.position()
            == self.source.signal().len()
    }

    /// A run over `symbols`, or `MessageTooLong` when their sample count
    /// does not fit in a `u64`.
    pub fn from_symbols(symbols: Vec<CWAlphabet>, timing: Timing) -> (r: Result<Session, RunError>)
        requires
            timing.wf(),
        ensures
            r is Ok <==> envelope_of(symbols@, timing.dot()).len() <= u64::MAX,
            r is Err ==> r->Err_0 == RunError::MessageTooLong,
            r is Ok ==> r->Ok_0.is_fresh(envelope_of(symbols@, timing.dot())),
    {
        match sample_count(&symbols, &timing) {
            None => Err(RunError::MessageTooLong),
            Some(_) => {
                let source = Envelope::new(symbols, timing);
                Ok(Session { source, sink: SinkState::new(), pending: 0 })
            },
        }
    }

    /// A run over the elements of `msg`, taken to upper case, or
    /// `MessageTooLong` when its sample count does not fit in a `u64`.
    pub fn new(msg: &str, timing: Timing) -> (r: Result<Session, RunError>)
        requires
            timing.wf(),
        ensures
            r is Ok <==> envelope_of(message_symbols(upper_of(msg@)), timing.dot()).len() <= u64::MAX,
            r is Err ==> r->Err_0 == RunError::MessageTooLong,
            r is Ok ==> r->Ok_0.is_fresh(envelope_of(message_symbols(upper_of(msg@)), timing.dot())),
    {
        let symbols = encode_text(msg);
        Session::from_symbols(symbols, timing)
    }

    /// The next action of the run. While samples remain, hands out the next
    /// chunk of at most `max` of them; once all have been stored, closes the
    /// sink and asks for the output to be finalized.
    pub fn poll(&mut self, max: usize) -> (r: Action)
        requires
            old(self).wf(),
            old(self).pending() == 0,
            old(self).sink().status_spec() == SinkStatus::Open,
        ensures
            final(self).wf(),
            final(self).samples() == old(self).samples(),
            old(self).produced() < old(self).samples().len() ==> {
                &&& r is Write
                &&& final(self).produced() == if old(self).produced() + max <= old(self).samples().len() {
                    old(self).produced() + max
                } else {
                    old(self).samples().len() as int
                }
                &&& r->Write_0@ == old(self).samples().subrange(old(self).produced() as int, final(self).produced() as int)
                &&& final(self).pending() == r->Write_0@.len()
                &&& final(self).sink() == old(self).sink()
            },
            old(self).produced() == old(self).samples().len() ==> {
                &&& r is Finalize
                &&& final(self).produced() == old(self).produced()
                &&& final(self).pending() == 0
                &&& final(self).sink().consumed_spec() == old(self).samples().len()
                &&& final(self).sink().status_spec() == SinkStatus::Closed
            },
    {
        proof {
            self.source.lemma_position_bound();
        }
        if self.source.is_exhausted() {
            self.sink.mark_upstream_finished();
            Action::Finalize
        } else {
            let chunk = self.source.next_chunk(max);
            self.pending = chunk.len();
            Action::Write(chunk)
        }
    }

    /// Reports whether the chunk last handed out was stored. A failure ends
    /// the run with `WriteError`.
    pub fn report(&mut self, stored: bool) -> (r: Result<(), RunError>)
        requires
            old(self).wf(),
            old(self).sink().status_spec() == SinkStatus::Open,
        ensures
            final(self).wf(),
            final(self).samples() == old(self).samples(),
            final(self).produced() == old(self).produced(),
            final(self).pending() == 0,
            stored ==> r is Ok && final(self).sink().consumed_spec() == old(self).produced()
                && final(self).sink().status_spec() == SinkStatus::Open,
            !stored ==> r == Err::<(), RunError>(RunError::WriteError)
                && final(self).sink().status_spec() == SinkStatus::Failed,
    {
        proof {
            self.source.lemma_position_bound();
        }
        let len = self.pending;
        self.pending = 0;
        self.sink.accept(len, stored)
    }

    /// True once every sample has been stored and the sink has closed.
    pub fn is_finished(&self) -> (r: bool)
        ensures
            r == (self.sink().status_spec() == SinkStatus::Closed),
    {
        self.sink.is_finished()
    }

    /// Samples the sink has consumed so far.
    pub fn consumed(&self) -> (r: u64)
        ensures
            r == self.sink().consumed_spec(),
    {
        self.sink.consumed()
    }

    /// A closed run has consumed every sample of its message, and a run
    /// that has not handed out every sample is not finished.
    pub proof fn lemma_finished_means_drained(&self)
        requires
            self.wf(),
        ensures
            self.sink().status_spec() == SinkStatus::Closed ==> self.sink().consumed_spec()
                == self.samples().len() && self.pending() == 0,
            self.produced() < self.samples().len() ==> self.sink().status_spec() != SinkStatus::Closed,
            self.sink().consumed_spec() <= self.produced() <= self.samples().len(),
    {
        self.source.lemma_position_bound();
    }

    /// A finished run over the text `cs` has consumed exactly, for each of
    /// its characters, the expanded length of that character's code.
    pub proof fn lemma_run_duration(&self, cs: Seq<char>, dot: nat)
        requires
            self.wf(),
            self.samples() == envelope_of(message_symbols(cs), dot),
            self.sink().status_spec() == SinkStatus::Closed,
        ensures
            self.sink().consumed_spec() == message_units(cs) * dot,
    {
        self.lemma_finished_means_drained();
        lemma_message_duration(cs, dot);
    }
}

} // verus!
