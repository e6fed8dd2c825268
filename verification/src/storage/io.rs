//! The state of a writer and of a reader of a stored object. A reader keeps
//! the part of the last chunk that the caller's buffer could not take, and
//! hands it out first; what it hands out, in order, is what the store gave.
use vstd::prelude::*;

use crate::storage::provider::StorageProviderReadResponse;

verus! {

/// Why a write could not go to the store.
#[derive(Debug, Clone, Copy, PartialEq, Eq, Structural)]
pub enum WriteError {
    /// The writer has been closed.
    Closed,
}

/// The writer of one object of a store, known to the store by `writer_id`.
#[derive(Debug, Clone)]
pub struct StorageWriter {
    writer_id: u64,
    is_closed: bool,
}

impl StorageWriter {
    /// The number of the writer in the store.
    pub closed spec fn id(&self) -> u64 {
        self.writer_id
    }

    /// Whether the writer has been closed.
    pub closed spec fn closed(&self) -> bool {
        self.is_closed
    }

    /// An open writer for the store's writer `writer_id`.
    pub fn new(writer_id: u64) -> (r: Self)
        ensures
            r.id() == writer_id,
            !r.closed(),
    {
        StorageWriter { writer_id, is_closed: false }
    }

    /// The number of the writer in the store.
    pub fn writer_id(&self) -> (r: u64)
        ensures
            r == self.id(),
    {
        self.writer_id
    }

    /// Whether the writer has been closed.
    pub fn is_closed(&self) -> (r: bool)
        ensures
            r == self.closed(),
    {
        self.is_closed
    }

    /// Whether bytes may be sent to the store: not once the writer is closed.
    pub fn check_write(&self) -> (r: Result<(), WriteError>)
        ensures
            r is Err <==> self.closed(),
    {
        if self.is_closed {
            Err(WriteError::Closed)
        } else {
            Ok(())
        }
    }

    /// Whether flushing has to ask the store to close the object: only while
    /// the writer is open (a flush of a closed writer does nothing). The same
    /// holds when the writer is dropped.
    pub fn needs_close(&self) -> (r: bool)
        ensures
            r == !self.closed(),
    {
        !self.is_closed
    }

    /// Records that the store closed the object.
    pub fn mark_closed(&mut self)
        ensures
            final(self).closed(),
            final(self).id() == old(self).id(),
    {
        self.is_closed = true;
    }
}

/// Why a read gave no bytes.
#[derive(Debug, Clone, Copy, PartialEq, Eq, Structural)]
pub enum ReadError {
    /// The reader has been closed.
    Closed,
    /// The store failed to give the next chunk; the reader is now closed.
    FetchFailed,
}

/// What the first step of a read found.
#[derive(Debug, Clone)]
pub enum ReadStep {
    /// Bytes kept from the last chunk, handed out at once.
    Delivered(Vec<u8>),
    /// Nothing kept: the next chunk has to be fetched from the store.
    NeedData,
}

/// The reader of one object of a store, known to the store by `reader_id`.
#[derive(Debug, Clone)]
pub struct StorageReader {
    reader_id: u64,
    is_closed: bool,
    buffer: Vec<u8>,
}

/// The chunk that a response of the store stands for: empty at the end of the
/// object.
pub open spec fn chunk_of(resp: StorageProviderReadResponse) -> Seq<u8> {
    if resp.is_eof {
        Seq::empty()
    } else {
        resp.data@
    }
}

/// One read of an open reader into a buffer of `want` bytes, where `pending`
/// is pending and `next` is the chunk that the store would give (empty at the
/// end of the object): the pending bytes where there are any, else the chunk,
/// as many as fit, the rest kept pending; where both are empty, nothing, and
/// the reader closes. Gives what is handed out, what stays pending, and whether
/// the reader is closed after.
pub open spec fn read_step(pending: Seq<u8>, next: Seq<u8>, want: nat) -> (Seq<u8>, Seq<u8>, bool) {
    let src = if pending.len() > 0 {
        pending
    } else {
        next
    };
    if src.len() == 0 {
        (Seq::empty(), Seq::empty(), true)
    } else {
        let n = if want < src.len() {
            want as int
        } else {
            src.len() as int
        };
        (src.take(n), src.skip(n), false)
    }
}

/// What a caller gets, in order, from reading with buffers of `want` bytes
/// until a read gives nothing, one `read_step` after another, where `pending`
/// is pending and the store gives `chunks` one after another and then the end
/// of the object.
pub open spec fn read_until_empty(pending: Seq<u8>, chunks: Seq<Seq<u8>>, want: nat) -> Seq<u8>
    decreases chunks.len(), pending.len(),
{
    let next = if pending.len() == 0 && chunks.len() > 0 {
        chunks[0]
    } else {
        Seq::empty()
    };
    let step = read_step(pending, next, want);
    if step.2 || step.0.len() == 0 {
        Seq::empty()
    } else if pending.len() > 0 {
        step.0 + read_until_empty(step.1, chunks, want)
    } else {
        step.0 + read_until_empty(step.1, chunks.drop_first(), want)
    }
}

/// Reading an object to its end gives back exactly its bytes, in order:
/// whatever is pending first, then each chunk the store gives, where no chunk
/// before the end is empty and the buffer holds at least one byte.
pub proof fn lemma_reads_give_back_the_object(pending: Seq<u8>, chunks: Seq<Seq<u8>>, want: nat)
    requires
        want > 0,
        forall|i: int| 0 <= i < chunks.len() ==> (#[trigger] chunks[i]).len() > 0,
    ensures
        read_until_empty(pending, chunks, want) == pending + chunks.flatten(),
    decreases chunks.len(), pending.len(),
{
    if pending.len() > 0 {
        let step = read_step(pending, Seq::empty(), want);
        lemma_reads_give_back_the_object(step.1, chunks, want);
        assert(step.0 + step.1 =~= pending);
        assert(step.0 + (step.1 + chunks.flatten()) =~= pending + chunks.flatten());
    } else if chunks.len() == 0 {
        assert(pending + chunks.flatten() =~= Seq::<u8>::empty());
    } else {
        let c = chunks[0];
        assert(c.len() > 0);
        let step = read_step(pending, c, want);
        let rest = chunks.drop_first();
        assert forall|i: int| 0 <= i < rest.len() implies (#[trigger] rest[i]).len() > 0 by {
            assert(rest[i] == chunks[i + 1]);
        }
        lemma_reads_give_back_the_object(step.1, rest, want);
        assert(step.0 + step.1 =~= c);
        assert(step.0 + (step.1 + rest.flatten()) =~= pending + (c + rest.flatten()));
    }
}

/// The first `n` bytes of `v` and the rest, as two vectors.
fn split_front(v: &Vec<u8>, n: usize) -> (r: (Vec<u8>, Vec<u8>))
    requires
        n <= v@.len(),
    ensures
        r.0@ == v@.take(n as int),
        r.1@ == v@.skip(n as int),
{
    let mut front: Vec<u8> = Vec::new();
    let mut back: Vec<u8> = Vec::new();
    let len = v.len();
    let mut i: usize = 0;
    while i < len
        invariant
            i <= len,
            len == v@.len(),
            n <= len,
            front@ == v@.take(if i < n { i as int } else { n as int }),
            back@ == if i <= n { Seq::<u8>::empty() } else { v@.subrange(n as int, i as int) },
        decreases len - i,
    {
        if i < n {
            front.push(v[i]);
        } else {
            back.push(v[i]);
        }
        i = i + 1;
        proof {
            if i <= n {
                assert(front@ == v@.take(i as int));
            } else {
                assert(back@ == v@.subrange(n as int, i as int));
            }
        }
    }
    proof {
        assert(v@.subrange(n as int, len as int) == v@.skip(n as int));
    }
    (front, back)
}

impl StorageReader {
    /// The number of the reader in the store.
    pub closed spec fn id(&self) -> u64 {
        self.reader_id
    }

    /// Whether the reader has been closed.
    pub closed spec fn closed(&self) -> bool {
        self.is_closed
    }

    /// The bytes fetched from the store and not yet handed out.
    pub closed spec fn pending(&self) -> Seq<u8> {
        self.buffer@
    }

    /// An open reader for the store's reader `reader_id`, with nothing pending.
    pub fn new(reader_id: u64) -> (r: Self)
        ensures
            r.id() == reader_id,
            !r.closed(),
            r.pending().len() == 0,
    {
        StorageReader { reader_id, is_closed: false, buffer: Vec::new() }
    }

    /// The number of the reader in the store.
    pub fn reader_id(&self) -> (r: u64)
        ensures
            r == self.id(),
    {
        self.reader_id
    }

    /// Whether the reader has been closed.
    pub fn is_closed(&self) -> (r: bool)
        ensures
            r == self.closed(),
    {
        self.is_closed
    }

    /// Closes the reader and drops what is pending.
    pub fn close(&mut self)
        ensures
            final(self).closed(),
            final(self).pending().len() == 0,
            final(self).id() == old(self).id(),
    {
        self.is_closed = true;
        self.buffer = Vec::new();
    }

    /// The first step of a read into a buffer of `want` bytes: an error where
    /// the reader is closed; else the pending bytes, as many as fit, where
    /// some are pending; else the news that a chunk must be fetched.
    pub fn start_read(&mut self, want: usize) -> (r: Result<ReadStep, ReadError>)
        ensures
            final(self).id() == old(self).id(),
            final(self).closed() == old(self).closed(),
            old(self).closed() ==> r == Err::<ReadStep, ReadError>(ReadError::Closed) && final(self).pending() == old(self).pending(),
            !old(self).closed() && old(self).pending().len() == 0 ==> (r matches Ok(ReadStep::NeedData)) && final(self).pending() == old(self).pending(),
            !old(self).closed() && old(self).pending().len() > 0 ==> match r {
                Ok(ReadStep::Delivered(d)) => read_step(old(self).pending(), Seq::empty(), want as nat) == (
                    d@,
                    final(self).pending(),
                    final(self).closed(),
                ),
                _ => false,
            },
    {
        if self.is_closed {
            return Err(ReadError::Closed);
        }
        if self.buffer.len() == 0 {
            return Ok(ReadStep::NeedData);
        }
        let n = if want < self.buffer.len() { want } else { self.buffer.len() };
        let (front, back) = split_front(&self.buffer, n);
        proof {
            assert(front@ + back@ == self.buffer@);
        }
        self.buffer = back;
        Ok(ReadStep::Delivered(front))
    }

    /// The second step of a read into a buffer of `want` bytes, given the
    /// chunk fetched from the store, or `None` where fetching failed. A failed
    /// fetch closes the reader with an error; the end of the object, or an
    /// empty chunk, closes it and gives no bytes; else the chunk is handed out,
    /// as much of it as fits, and the rest kept pending.
    pub fn finish_read(&mut self, fetched: Option<StorageProviderReadResponse>, want: usize) -> (r: Result<Vec<u8>, ReadError>)
        requires
            !old(self).closed(),
            old(self).pending().len() == 0,
        ensures
            final(self).id() == old(self).id(),
            match fetched {
                None => r == Err::<Vec<u8>, ReadError>(ReadError::FetchFailed) && final(self).closed() && final(self).pending().len() == 0,
                Some(resp) => match r {
                    Ok(d) => read_step(Seq::empty(), chunk_of(resp), want as nat) == (
                        d@,
                        final(self).pending(),
                        final(self).closed(),
                    ),
                    Err(_) => false,
                },
            },
    {
        match fetched {
            None => {
                self.close();
                Err(ReadError::FetchFailed)
            },
            Some(resp) => {
                if resp.is_eof || resp.data.len() == 0 {
                    self.close();
                    return Ok(Vec::new());
                }
                let n = if want < resp.data.len() { want } else { resp.data.len() };
                let (front, back) = split_front(&resp.data, n);
                proof {
                    assert(front@ + back@ == resp.data@);
                }
                self.buffer = back;
                Ok(front)
            },
        }
    }
}

} // verus!
