//! Verified in-memory implementations of the stream capabilities: a source
//! that plays back a script of deliveries, interruptions and failures, a
//! sink that accepts or refuses writes from a script, and a progress handle
//! that just counts.  They exercise every path of the transfer engine —
//! including the error-skip policies — without any I/O.

use crate::stream::ByteSink;
use crate::stream::ByteSource;
use crate::stream::ProgressSink;
use crate::stream::ReadStep;
use crate::stream::WriteStep;
use vstd::prelude::*;

verus! {

/// One scripted outcome of a source.
pub enum ScriptStep {
    /// Deliver these bytes, possibly over several reads.
    Deliver(Vec<u8>),
    /// Report one transient interruption.
    Interrupt,
    /// Report one non-transient read failure with this cause.
    Fail(String),
}

/// The bytes one scripted outcome contributes to the stream.
pub open spec fn step_content(step: ScriptStep) -> Seq<u8> {
    match step {
        ScriptStep::Deliver(bytes) => bytes@,
        ScriptStep::Interrupt => Seq::<u8>::empty(),
        ScriptStep::Fail(_) => Seq::<u8>::empty(),
    }
}

/// The bytes a whole script delivers: its deliveries, concatenated.
pub open spec fn script_content(steps: Seq<ScriptStep>) -> Seq<u8>
    decreases steps.len(),
{
    if steps.len() == 0 {
        Seq::<u8>::empty()
    } else {
        step_content(steps[0]) + script_content(steps.skip(1))
    }
}

/// A source that plays back a script, then reports end of input.
pub struct ScriptedSource {
    script: Vec<ScriptStep>,
}

impl ScriptedSource {
    /// A source that follows the given script, then ends.
    pub fn new(script: Vec<ScriptStep>) -> (s: ScriptedSource)
        ensures
            s.remaining() == script_content(script@),
            s.patience() == script@.len(),
    {
        ScriptedSource { script }
    }

    /// A source that delivers exactly these bytes, then ends.
    pub fn from_bytes(data: Vec<u8>) -> (s: ScriptedSource)
        ensures
            s.remaining() == data@,
    {
        let mut script: Vec<ScriptStep> = Vec::new();
        script.push(ScriptStep::Deliver(data));
        let s = ScriptedSource { script };
        proof {
            assert(script@.skip(1) =~= Seq::<ScriptStep>::empty());
            assert(script_content(Seq::<ScriptStep>::empty()) == Seq::<u8>::empty());
            assert(s.remaining() =~= data@);
        }
        s
    }
}

impl ByteSource for ScriptedSource {
    closed spec fn remaining(&self) -> Seq<u8> {
        script_content(self.script@)
    }

    closed spec fn patience(&self) -> nat {
        self.script@.len()
    }

    fn read_chunk(&mut self, max: usize) -> (r: ReadStep) {
        if self.script.len() == 0 {
            return ReadStep::Eof;
        }
        let ghost steps = self.script@;
        let step = self.script.remove(0);
        proof {
            assert(self.script@ =~= steps.skip(1));
        }
        match step {
            ScriptStep::Interrupt => {
                proof {
                    assert(script_content(steps) =~= script_content(steps.skip(1)));
                }
                ReadStep::Interrupted
            },
            ScriptStep::Fail(cause) => {
                proof {
                    assert(script_content(steps) =~= script_content(steps.skip(1)));
                }
                ReadStep::Failed(cause)
            },
            ScriptStep::Deliver(bytes) => {
                if bytes.len() == 0 {
                    // An empty delivery delivers nothing: one unproductive
                    // read, indistinguishable from an interruption.
                    proof {
                        assert(script_content(steps) =~= script_content(steps.skip(1)));
                    }
                    ReadStep::Interrupted
                } else if bytes.len() <= max {
                    proof {
                        assert(bytes@ =~= script_content(steps).take(bytes@.len() as int));
                        assert(script_content(steps.skip(1)) =~= script_content(steps).skip(
                            bytes@.len() as int,
                        ));
                    }
                    ReadStep::Data(bytes)
                } else {
                    let mut bytes = bytes;
                    let rest = bytes.split_off(max);
                    self.script.insert(0, ScriptStep::Deliver(rest));
                    proof {
                        assert(self.script@.skip(1) =~= steps.skip(1));
                        assert(bytes@ =~= script_content(steps).take(max as int));
                        assert(script_content(self.script@) =~= script_content(steps).skip(
                            max as int,
                        ));
                    }
                    ReadStep::Data(bytes)
                }
            },
        }
    }
}

/// Injecting an unproductive step — a transient interruption, a read
/// failure, an empty delivery — anywhere into a source script leaves the
/// delivered stream unchanged, and with it the total any clean transfer
/// over that script reports.
pub proof fn lemma_unproductive_step_preserves_content(
    steps: Seq<ScriptStep>,
    i: int,
    step: ScriptStep,
)
    requires
        0 <= i <= steps.len(),
        step_content(step) == Seq::<u8>::empty(),
    ensures
        script_content(steps.insert(i, step)) == script_content(steps),
    decreases i,
{
    let inserted = steps.insert(i, step);
    if i == 0 {
        assert(inserted.skip(1) =~= steps);
        assert(script_content(inserted) =~= script_content(steps));
    } else {
        lemma_unproductive_step_preserves_content(steps.skip(1), i - 1, step);
        assert(inserted.skip(1) =~= steps.skip(1).insert(i - 1, step));
        assert(inserted[0] == steps[0]);
        assert(script_content(inserted) =~= script_content(steps));
    }
}

/// A sink that answers each write from a script of outcomes, accepting once
/// the script is exhausted, and records every accepted byte.
pub struct ScriptedSink {
    accepted: Vec<u8>,
    script: Vec<WriteStep>,
}

impl ScriptedSink {
    /// A sink that accepts every write.
    pub fn accepting() -> (s: ScriptedSink)
        ensures
            s.written() == Seq::<u8>::empty(),
    {
        ScriptedSink { accepted: Vec::new(), script: Vec::new() }
    }

    /// A sink that answers the first writes from the given script, then
    /// accepts everything.
    pub fn with_script(script: Vec<WriteStep>) -> (s: ScriptedSink)
        ensures
            s.written() == Seq::<u8>::empty(),
    {
        ScriptedSink { accepted: Vec::new(), script }
    }

    /// The bytes accepted so far, in order.
    pub fn contents(&self) -> (r: &Vec<u8>)
        ensures
            r@ == self.written(),
    {
        &self.accepted
    }
}

impl ByteSink for ScriptedSink {
    closed spec fn written(&self) -> Seq<u8> {
        self.accepted@
    }

    fn write_chunk(&mut self, chunk: &Vec<u8>) -> (r: WriteStep) {
        if self.script.len() > 0 {
            let step = self.script.remove(0);
            if let WriteStep::Failed(cause) = step {
                return WriteStep::Failed(cause);
            }
        }
        self.accepted.extend_from_slice(chunk.as_slice());
        WriteStep::Done
    }
}

/// A progress handle that only accumulates the advanced amount: exactly in
/// its model, saturating at the largest representable count in the value it
/// exposes.
pub struct CountingProgress {
    /// The units advanced so far, saturating at `u64::MAX`.
    pub count: u64,
    /// The exact sum advanced, as a ghost value: the model behind `tally`.
    pub advanced: Ghost<nat>,
}

impl CountingProgress {
    /// A fresh handle with nothing counted yet.
    pub fn new() -> (p: CountingProgress)
        ensures
            p.count == 0,
            p.tally() == 0,
    {
        CountingProgress { count: 0, advanced: Ghost(0) }
    }
}

impl ProgressSink for CountingProgress {
    closed spec fn tally(&self) -> nat {
        self.advanced@
    }

    fn advance(&mut self, amount: u64)
        ensures
            final(self).count == if old(self).count + amount > u64::MAX {
                u64::MAX as int
            } else {
                old(self).count + amount
            },
    {
        self.count = if amount > u64::MAX - self.count {
            u64::MAX
        } else {
            self.count + amount
        };
        self.advanced = Ghost((self.advanced@ + amount) as nat);
    }
}

} // verus!
