//! Diagnostic text, buffered until the host collects it.

use vstd::prelude::*;
use crate::protocol::IO;

verus! {

/// The buffered text of the two streams.
pub struct IoView {
    pub out: Seq<u8>,
    pub err: Seq<u8>,
}

/// The chunks written one after the other.
pub open spec fn joined(chunks: Seq<&[u8]>) -> Seq<u8>
    decreases chunks.len(),
{
    if chunks.len() == 0 {
        Seq::empty()
    } else {
        joined(chunks.drop_last()) + chunks.last()@
    }
}

/// A single chunk, written, is its own bytes.
pub proof fn lemma_joined_one(chunks: Seq<&[u8]>)
    requires
        chunks.len() == 1,
    ensures
        joined(chunks) == chunks[0]@,
{
    reveal_with_fuel(joined, 2);
    assert(joined(chunks) =~= chunks[0]@);
}

/// The buffer of diagnostic text: one stream for output, one for errors.
pub struct SyncIO {
    out: Vec<u8>,
    err: Vec<u8>,
}

impl View for SyncIO {
    type V = IoView;

    closed spec fn view(&self) -> IoView {
        IoView { out: self.out@, err: self.err@ }
    }
}

fn append(buffer: &mut Vec<u8>, chunks: &[&[u8]])
    ensures
        final(buffer)@ == old(buffer)@ + joined(chunks@),
{
    let mut done: usize = 0;
    while done < chunks.len()
        invariant
            done <= chunks.len(),
            buffer@ == old(buffer)@ + joined(chunks@.take(done as int)),
        decreases chunks.len() - done,
    {
        let chunk = chunks[done];
        let ghost before = buffer@;
        let mut at: usize = 0;
        while at < chunk.len()
            invariant
                at <= chunk.len(),
                buffer@ == before + chunk@.take(at as int),
            decreases chunk.len() - at,
        {
            buffer.push(chunk[at]);
            at = at + 1;
            assert(buffer@ =~= before + chunk@.take(at as int));
        }
        proof {
            assert(chunk@.take(at as int) =~= chunk@);
            assert(chunks@.take(done + 1).drop_last() =~= chunks@.take(done as int));
            assert(buffer@ =~= old(buffer)@ + joined(chunks@.take(done + 1)));
        }
        done = done + 1;
    }
    proof {
        assert(chunks@.take(done as int) =~= chunks@);
    }
}

impl SyncIO {
    /// A buffer that holds no text.
    pub fn new() -> (io: SyncIO)
        ensures
            io@ == (IoView { out: Seq::empty(), err: Seq::empty() }),
    {
        SyncIO { out: Vec::new(), err: Vec::new() }
    }

    /// Hands out the text of both streams and leaves both empty.
    pub fn flush(&mut self) -> (io: IO)
        ensures
            io.out@ == old(self)@.out,
            io.err@ == old(self)@.err,
            final(self)@ == (IoView { out: Seq::empty(), err: Seq::empty() }),
    {
        let mut out: Vec<u8> = Vec::new();
        let mut err: Vec<u8> = Vec::new();
        std::mem::swap(&mut self.out, &mut out);
        std::mem::swap(&mut self.err, &mut err);
        IO { out, err }
    }

    /// Appends the chunks, in their order, to the output stream.
    pub fn write_out(&mut self, bytes: &[&[u8]])
        ensures
            final(self)@ == (IoView { out: old(self)@.out + joined(bytes@), err: old(self)@.err }),
    {
        append(&mut self.out, bytes);
    }

    /// Appends the chunks, in their order, to the error stream.
    pub fn write_err(&mut self, bytes: &[&[u8]])
        ensures
            final(self)@ == (IoView { out: old(self)@.out, err: old(self)@.err + joined(bytes@) }),
    {
        append(&mut self.err, bytes);
    }
}

} // verus!
