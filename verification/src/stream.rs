//! The byte-stream capabilities the transfer engine is generic over: a
//! readable source, a writable sink, and a progress-advancement handle.
//!
//! Each capability carries a mathematical model — the bytes a source still
//! holds, the bytes a sink has accepted — and every operation's contract is
//! stated over that model, so the engine's guarantees hold for any
//! implementation that honors them.

use vstd::prelude::*;

verus! {

/// One outcome of a read request.
pub enum ReadStep {
    /// A non-empty chunk of bytes, delivered in stream order.
    Data(Vec<u8>),
    /// Clean end of input: the source has nothing left to deliver.
    Eof,
    /// A transient interruption; the read should simply be retried.
    Interrupted,
    /// A non-transient read failure, described by the underlying cause.
    Failed(String),
}

/// One outcome of a write request.
pub enum WriteStep {
    /// The whole chunk was accepted.
    Done,
    /// The chunk was not accepted, for the described underlying cause.
    Failed(String),
}

/// A sequential source of bytes.
///
/// `remaining` is the sequence of bytes the source still holds: successful
/// reads deliver exactly its prefixes, end of input comes exactly when it is
/// empty, and unproductive outcomes leave it untouched.  `patience` bounds
/// the unproductive outcomes (interruptions, failures) the source can return
/// before it next delivers data or ends; it is what lets a copy loop over an
/// arbitrary source be shown to make progress.
pub trait ByteSource {
    /// The bytes this source still holds for delivery, in order.
    ///
    /// A verified implementation overrides this with its own model; the
    /// default stands only so that implementations outside verified code
    /// need not name one.
    open spec fn remaining(&self) -> Seq<u8> {
        Seq::<u8>::empty()
    }

    /// An upper bound on the reads that can come back unproductive
    /// (interrupted or failed) before the next delivery or end of input.
    ///
    /// A verified implementation overrides this with its own measure; the
    /// default stands only so that implementations outside verified code
    /// need not name one.
    open spec fn patience(&self) -> nat {
        0
    }

    /// Reads at most `max` bytes.
    ///
    /// Data is always a non-empty prefix of `remaining`, which it consumes;
    /// end of input comes exactly when nothing remains; interruptions and
    /// failures consume nothing but use up patience.
    fn read_chunk(&mut self, max: usize) -> (r: ReadStep)
        requires
            max >= 1,
        ensures
            match r {
                ReadStep::Data(chunk) => {
                    &&& 0 < chunk@.len() <= max
                    &&& chunk@.len() <= old(self).remaining().len()
                    &&& chunk@ == old(self).remaining().take(chunk@.len() as int)
                    &&& final(self).remaining() == old(self).remaining().skip(
                        chunk@.len() as int,
                    )
                },
                ReadStep::Eof => {
                    &&& old(self).remaining().len() == 0
                    &&& final(self).remaining() == old(self).remaining()
                },
                ReadStep::Interrupted => {
                    &&& final(self).remaining() == old(self).remaining()
                    &&& final(self).patience() < old(self).patience()
                },
                ReadStep::Failed(_) => {
                    &&& final(self).remaining() == old(self).remaining()
                    &&& final(self).patience() < old(self).patience()
                },
            },
    ;
}

/// A sequential sink of bytes.
///
/// `written` is the sequence of bytes the sink has accepted so far: a
/// successful write appends exactly the chunk, a failed one appends nothing.
pub trait ByteSink {
    /// The bytes this sink has accepted so far, in order.
    ///
    /// A verified implementation overrides this with its own model; the
    /// default stands only so that implementations outside verified code
    /// need not name one.
    open spec fn written(&self) -> Seq<u8> {
        Seq::<u8>::empty()
    }

    /// Writes the whole chunk, or reports that it was not accepted.
    fn write_chunk(&mut self, chunk: &Vec<u8>) -> (r: WriteStep)
        ensures
            match r {
                WriteStep::Done => final(self).written() == old(self).written() + chunk@,
                WriteStep::Failed(_) => final(self).written() == old(self).written(),
            },
    ;
}

/// A progress-advancement handle: an already-constructed display that is
/// told how many units were just transferred.  `tally` is the sum of every
/// advancement so far; presentation (redraw timing, formatting) is entirely
/// the implementation's own, and the engine never reads anything back.
pub trait ProgressSink {
    /// The units this handle has been advanced by so far, in sum.
    ///
    /// A verified implementation overrides this with its own model; the
    /// default stands only so that implementations outside verified code
    /// need not name one.
    open spec fn tally(&self) -> nat {
        0
    }

    /// Advances the displayed position by `amount` units.
    fn advance(&mut self, amount: u64)
        ensures
            final(self).tally() == old(self).tally() + amount,
    ;
}

} // verus!
