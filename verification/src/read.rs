//! How a read request gathers its answer from reads of whole blocks.

use vstd::prelude::*;

verus! {

/// The progress of a read request. The read starts at `start`, the requested offset
/// rounded down to a filesystem block; `ofs` is where the next read from the object goes;
/// `len`, the size requested plus the rounding, is the position where reading stops, so
/// that what is still wanted is `len - ofs`; `out` holds the bytes gathered so far.
pub struct ReadState {
    pub start: u64,
    pub ofs: u64,
    pub len: u64,
    pub out: Vec<u8>,
}

/// What a read request does after one read from the object: read on, or answer with the
/// bytes gathered.
pub enum ReadStep {
    Continue(ReadState),
    Done(Vec<u8>),
}

impl ReadState {
    /// `out` holds exactly the bytes from `start` up to `ofs`, and `ofs` has not gone past
    /// `len`.
    pub open spec fn wf(&self) -> bool {
        &&& self.start <= self.ofs <= self.len
        &&& self.out@.len() == self.ofs - self.start
    }

    /// Starts a read of `size` bytes at `offset` in a filesystem with blocks of
    /// `fs_block_size` bytes: reading begins at the block boundary at or below `offset`, and
    /// the length grows by the distance to it.
    pub fn new(offset: u64, size: u32, fs_block_size: u64) -> (state: ReadState)
        requires
            fs_block_size > 0,
            size + offset % fs_block_size <= u64::MAX,
        ensures
            state.start == offset - offset % fs_block_size,
            state.ofs == state.start,
            state.len == size + offset % fs_block_size,
            state.out@ == Seq::<u8>::empty(),
            state.wf() <==> state.start <= state.len,
    {
        let align = offset % fs_block_size;
        assert(align <= offset) by (nonlinear_arith)
            requires
                align == offset % fs_block_size,
                fs_block_size > 0,
        ;
        let ofs = offset - align;
        ReadState { start: ofs, ofs, len: size as u64 + align, out: Vec::new() }
    }
}

pub(crate) fn append_bytes(out: &mut Vec<u8>, data: &[u8], n: usize)
    requires
        n <= data@.len(),
    ensures
        final(out)@ == old(out)@ + data@.subrange(0, n as int),
{
    let mut i: usize = 0;
    while i < n
        invariant
            i <= n <= data@.len(),
            out@ == old(out)@ + data@.subrange(0, i as int),
        decreases n - i,
    {
        out.push(data[i]);
        i = i + 1;
        assert(data@.subrange(0, i as int) == data@.subrange(0, i - 1) + seq![data@[i - 1]]);
    }
}

/// Whether reading goes on after a read at `ofs` returned `data`: more is wanted than
/// came back, and the read came back a whole block.
pub open spec fn read_continues(ofs: int, len: int, data: Seq<u8>, block_size: int) -> bool {
    len - ofs > data.len() && data.len() == block_size
}

/// The part of what a read at `ofs` returned that goes into the answer: all of it while
/// more is wanted than came back, else as much as is wanted.
pub open spec fn read_kept(ofs: int, len: int, data: Seq<u8>) -> Seq<u8> {
    if len - ofs > data.len() {
        data
    } else {
        data.subrange(0, len - ofs)
    }
}

/// The bytes a read request gathers from `ofs` on when the successive reads from the
/// object return `reads`.
pub open spec fn read_answer(ofs: int, len: int, reads: Seq<Seq<u8>>, block_size: int) -> Seq<u8>
    decreases reads.len(),
{
    if reads.len() == 0 {
        Seq::empty()
    } else if read_continues(ofs, len, reads[0], block_size) {
        reads[0] + read_answer(ofs + reads[0].len(), len, reads.drop_first(), block_size)
    } else {
        read_kept(ofs, len, reads[0])
    }
}

/// Takes in the `data` that one read from the object at `state.ofs` returned, the
/// object's blocks being `block_size` bytes long. While more is wanted than came back,
/// the data is kept whole and reading goes on after it, unless the read came back short of
/// a block; otherwise only as much as is wanted is kept and the read is done.
/// Whatever comes out, the gathered bytes never run past the `len - start` wanted.
pub fn read_step(state: ReadState, data: &[u8], block_size: u64) -> (step: ReadStep)
    requires
        state.ofs <= state.len,
    ensures
        match step {
            ReadStep::Continue(next) => {
                &&& read_continues(state.ofs as int, state.len as int, data@, block_size as int)
                &&& next.start == state.start
                &&& next.ofs == state.ofs + data@.len()
                &&& next.len == state.len
                &&& next.out@ == state.out@ + data@
            },
            ReadStep::Done(out) => {
                &&& !read_continues(state.ofs as int, state.len as int, data@, block_size as int)
                &&& out@ == state.out@ + read_kept(state.ofs as int, state.len as int, data@)
            },
        },
        state.wf() ==> match step {
            ReadStep::Continue(next) => next.wf(),
            ReadStep::Done(out) => out@.len() <= state.len - state.start,
        },
{
    let mut state = state;
    let bytes = data.len() as u64;
    if state.len - state.ofs > bytes {
        state.ofs = state.ofs + bytes;
        append_bytes(&mut state.out, data, data.len());
        assert(data@.subrange(0, data@.len() as int) == data@);
        if bytes != block_size {
            ReadStep::Done(state.out)
        } else {
            ReadStep::Continue(state)
        }
    } else {
        let wanted = (state.len - state.ofs) as usize;
        append_bytes(&mut state.out, data, wanted);
        ReadStep::Done(state.out)
    }
}

/// However many reads a read request takes, its answer is the start of what those reads
/// returned, one after the other, and never longer than the `len - ofs` bytes wanted.
pub proof fn lemma_read_answer_is_prefix_of_reads(ofs: int, len: int, reads: Seq<Seq<u8>>, block_size: int)
    requires
        ofs <= len,
    ensures
        read_answer(ofs, len, reads, block_size).len() <= len - ofs,
        read_answer(ofs, len, reads, block_size).len() <= reads.flatten().len(),
        read_answer(ofs, len, reads, block_size)
            == reads.flatten().subrange(0, read_answer(ofs, len, reads, block_size).len() as int),
    decreases reads.len(),
{
    if reads.len() > 0 {
        let d = reads[0];
        let rest = reads.drop_first();
        assert(reads.flatten() == d + rest.flatten());
        if read_continues(ofs, len, d, block_size) {
            lemma_read_answer_is_prefix_of_reads(ofs + d.len(), len, rest, block_size);
            let tail = read_answer(ofs + d.len(), len, rest, block_size);
            assert(d + tail == (d + rest.flatten()).subrange(0, (d.len() + tail.len()) as int));
        }
    }
}

/// Reading goes on only after a whole block came back and more is still wanted than came
/// back; a read short of a block (an empty one included, the blocks not being empty) ends
/// the request, keeping all of what came back, or only what is wanted when less is.
pub proof fn lemma_read_goes_on_only_after_a_whole_block(ofs: int, len: int, data: Seq<u8>, block_size: int)
    ensures
        read_continues(ofs, len, data, block_size) ==> data.len() == block_size && ofs + data.len() < len,
        data.len() == block_size && ofs + data.len() < len ==> read_continues(ofs, len, data, block_size),
        block_size > 0 && data.len() == 0 ==> !read_continues(ofs, len, data, block_size),
        ofs <= len ==> (read_kept(ofs, len, data) == if ofs + data.len() < len {
            data
        } else {
            data.subrange(0, len - ofs)
        }),
{
}

} // verus!
