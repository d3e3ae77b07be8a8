//! The transfer engine: a copy loop that moves bytes from a source to a
//! sink unchanged, counts transferred units (bytes, or occurrences of a
//! delimiter byte), reports progress after each chunk, and honors a
//! per-direction error-skip policy.

use crate::stream::ByteSink;
use crate::stream::ByteSource;
use crate::stream::ProgressSink;
use crate::stream::ReadStep;
use crate::stream::WriteStep;
use vstd::prelude::*;

verus! {

/// How many bytes one read request asks for.
pub const DEFAULT_CHUNK_SIZE: usize = 65536;

/// The accounting unit: raw bytes, or occurrences of a delimiter byte.
#[derive(Clone, Copy, PartialEq, Eq, Structural)]
pub enum AccountingUnit {
    /// Count every transferred byte.
    Byte,
    /// Count occurrences of the given delimiter byte (lines).
    Line(u8),
}

/// The transfer policy: what to count, and which I/O errors to skip.
#[derive(Clone, Copy, PartialEq, Eq, Structural)]
pub struct TransferConfig {
    /// The accounting unit, fixed for the whole run.
    pub unit: AccountingUnit,
    /// Discard non-transient read errors and keep going.
    pub skip_input_errors: bool,
    /// Discard write errors and keep going; the chunk still counts as
    /// transferred, since it was already consumed from the source.
    pub skip_output_errors: bool,
}

/// A fatal transfer error: the direction that failed, wrapping a
/// description of the underlying cause.
#[derive(Debug)]
pub enum TransferError {
    /// A read failed while read errors were not being skipped.
    ReadFailed(String),
    /// A write failed while write errors were not being skipped.
    WriteFailed(String),
}

/// The number of occurrences of `delim` in `s`.
pub open spec fn spec_line_count(s: Seq<u8>, delim: u8) -> nat
    decreases s.len(),
{
    if s.len() == 0 {
        0
    } else {
        spec_line_count(s.drop_last(), delim) + (if s.last() == delim {
            1nat
        } else {
            0nat
        })
    }
}

/// The total a clean transfer of content `s` reports under `unit`: the byte
/// count, or the delimiter-occurrence count.
pub open spec fn spec_total(unit: AccountingUnit, s: Seq<u8>) -> nat {
    match unit {
        AccountingUnit::Byte => s.len(),
        AccountingUnit::Line(delim) => spec_line_count(s, delim),
    }
}

/// A delimiter count never exceeds the number of bytes counted over.
pub proof fn lemma_line_count_le_len(s: Seq<u8>, delim: u8)
    ensures
        spec_line_count(s, delim) <= s.len(),
    decreases s.len(),
{
    if s.len() > 0 {
        lemma_line_count_le_len(s.drop_last(), delim);
    }
}

/// Delimiter counting distributes over concatenation.
pub proof fn lemma_line_count_concat(a: Seq<u8>, b: Seq<u8>, delim: u8)
    ensures
        spec_line_count(a + b, delim) == spec_line_count(a, delim) + spec_line_count(b, delim),
    decreases b.len(),
{
    if b.len() == 0 {
        assert(a + b =~= a);
    } else {
        lemma_line_count_concat(a, b.drop_last(), delim);
        assert((a + b).drop_last() =~= a + b.drop_last());
        assert((a + b).last() == b.last());
    }
}

fn count_matching(chunk: &Vec<u8>, delim: u8) -> (n: usize)
    ensures
        n == spec_line_count(chunk@, delim),
        n <= chunk@.len(),
{
    let mut n: usize = 0;
    let mut i: usize = 0;
    while i < chunk.len()
        invariant
            i <= chunk@.len(),
            n <= i,
            n == spec_line_count(chunk@.take(i as int), delim),
        decreases chunk@.len() - i,
    {
        proof {
            assert(chunk@.take(i + 1).drop_last() =~= chunk@.take(i as int));
            assert(chunk@.take(i + 1).last() == chunk@[i as int]);
        }
        if chunk[i] == delim {
            n = n + 1;
        }
        i = i + 1;
    }
    proof {
        assert(chunk@.take(chunk@.len() as int) =~= chunk@);
    }
    n
}

/// A run of the utility: the source, the sink, the progress handle and the
/// policy, owned exclusively for the duration of one transfer.
pub struct PipeView<S: ByteSource, W: ByteSink, P: ProgressSink> {
    /// Where the bytes come from.
    pub source: S,
    /// Where the bytes go, unchanged.
    pub sink: W,
    /// Told how many units each chunk contributed.
    pub progress: P,
    /// What to count and which errors to skip.
    pub config: TransferConfig,
}

impl<S: ByteSource, W: ByteSink, P: ProgressSink> PipeView<S, W, P> {
    /// Drives the copy loop to clean end-of-input or a fatal error.
    ///
    /// On `Ok` the source is exhausted, the returned total is exactly
    /// [`spec_total`] of the bytes the source held — independent of
    /// interruptions and of skipped errors along the way — and, unless
    /// write errors were being skipped, the sink has accepted exactly those
    /// bytes, in order, unchanged.  A `ReadFailed` error can surface only
    /// when read errors are not skipped, a `WriteFailed` only when write
    /// errors are not skipped; transient interruptions never surface.
    pub fn pipeview(&mut self) -> (r: Result<u64, TransferError>)
        requires
            old(self).source.remaining().len() <= u64::MAX,
        ensures
            final(self).config == old(self).config,
            match r {
                Ok(total) => {
                    &&& final(self).source.remaining().len() == 0
                    &&& total as nat == spec_total(
                        old(self).config.unit,
                        old(self).source.remaining(),
                    )
                    &&& (!old(self).config.skip_output_errors ==> final(self).sink.written()
                        == old(self).sink.written() + old(self).source.remaining())
                    &&& final(self).progress.tally() == old(self).progress.tally() + total
                },
                Err(e) => {
                    &&& (e is ReadFailed ==> !old(self).config.skip_input_errors)
                    &&& (e is WriteFailed ==> !old(self).config.skip_output_errors)
                },
            },
    {
        let ghost orig_rem = self.source.remaining();
        let ghost orig_written = self.sink.written();
        let ghost orig_tally = self.progress.tally();
        let ghost cfg = self.config;
        let mut total: u64 = 0;
        let ghost mut consumed: int = 0;
        loop
            invariant
                self.config == old(self).config,
                orig_rem == old(self).source.remaining(),
                orig_written == old(self).sink.written(),
                orig_tally == old(self).progress.tally(),
                cfg == old(self).config,
                orig_rem.len() <= u64::MAX,
                0 <= consumed <= orig_rem.len(),
                self.source.remaining() == orig_rem.skip(consumed),
                total as nat == spec_total(cfg.unit, orig_rem.take(consumed)),
                total <= consumed,
                !cfg.skip_output_errors ==> self.sink.written() == orig_written + orig_rem.take(
                    consumed,
                ),
                self.progress.tally() == orig_tally + total,
            decreases self.source.remaining().len(), self.source.patience(),
        {
            match self.source.read_chunk(DEFAULT_CHUNK_SIZE) {
                ReadStep::Eof => {
                    proof {
                        assert(orig_rem.skip(consumed).len() == 0);
                        assert(orig_rem.take(consumed) =~= orig_rem);
                    }
                    return Ok(total);
                },
                ReadStep::Interrupted => {
                    // Transient: always retried, never configurable.
                },
                ReadStep::Failed(cause) => {
                    if !self.config.skip_input_errors {
                        return Err(TransferError::ReadFailed(cause));
                    }
                    // Skipped: nothing was consumed, nothing is counted.
                },
                ReadStep::Data(chunk) => {
                    let len = chunk.len();
                    proof {
                        assert(orig_rem.skip(consumed).skip(len as int) =~= orig_rem.skip(
                            consumed + len,
                        ));
                        assert(orig_rem.take(consumed + len) =~= orig_rem.take(consumed)
                            + chunk@);
                    }
                    match self.sink.write_chunk(&chunk) {
                        WriteStep::Done => {
                        },
                        WriteStep::Failed(cause) => {
                            if !self.config.skip_output_errors {
                                return Err(TransferError::WriteFailed(cause));
                            }
                            // Skipped: the chunk was already consumed from
                            // the source and still counts as transferred.
                        },
                    }
                    let n: u64 = match self.config.unit {
                        AccountingUnit::Byte => len as u64,
                        AccountingUnit::Line(delim) => {
                            proof {
                                lemma_line_count_concat(orig_rem.take(consumed), chunk@, delim);
                                lemma_line_count_le_len(chunk@, delim);
                            }
                            count_matching(&chunk, delim) as u64
                        },
                    };
                    total = total + n;
                    self.progress.advance(n);
                    proof {
                        consumed = consumed + len as int;
                    }
                },
            }
        }
    }
}

/// A clean transfer's total depends on the source contents and the
/// accounting unit alone: two runs over equal contents report equal totals,
/// whatever interruptions or skipped errors occurred in between.
pub proof fn lemma_total_determined_by_content(
    unit: AccountingUnit,
    content: Seq<u8>,
    t1: nat,
    t2: nat,
)
    requires
        t1 == spec_total(unit, content),
        t2 == spec_total(unit, content),
    ensures
        t1 == t2,
{
}

} // verus!
