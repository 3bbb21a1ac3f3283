use vstd::prelude::*;
use vstd::slice::slice_subrange;

verus! {

/// The size of the chunks in which a document is held: one million bytes.
pub const CHUNK_SIZE: usize = 1_000_000;

/// The data cut into pieces of `size` bytes; the last piece holds what is
/// left, and no piece is empty.
pub open spec fn chunks_of(data: Seq<u8>, size: nat) -> Seq<Seq<u8>>
    decreases data.len(),
{
    if size == 0 || data.len() == 0 {
        Seq::empty()
    } else if data.len() <= size {
        seq![data]
    } else {
        seq![data.take(size as int)] + chunks_of(data.skip(size as int), size)
    }
}

/// The byte strings held in a vector of vectors.
pub open spec fn chunk_views(chunks: Seq<Vec<u8>>) -> Seq<Seq<u8>> {
    Seq::new(chunks.len(), |i: int| chunks[i]@)
}

/// The pieces of `chunks_of` joined together are the data again.
pub proof fn lemma_chunks_join(data: Seq<u8>, size: nat)
    requires
        size > 0,
    ensures
        chunks_of(data, size).flatten() == data,
        forall|i: int|
            0 <= i < chunks_of(data, size).len() ==> 0 < (#[trigger] chunks_of(data, size)[i]).len()
                <= size,
        forall|i: int|
            0 <= i < chunks_of(data, size).len() - 1 ==> (#[trigger] chunks_of(
                data,
                size,
            )[i]).len() == size,
    decreases data.len(),
{
    let pieces = chunks_of(data, size);
    if data.len() == 0 {
        assert(pieces.flatten() =~= data);
    } else if data.len() <= size {
        assert(pieces.drop_first() =~= Seq::<Seq<u8>>::empty());
        assert(pieces.flatten() =~= pieces.first() + pieces.drop_first().flatten());
        assert(pieces.flatten() =~= data);
    } else {
        let rest = chunks_of(data.skip(size as int), size);
        lemma_chunks_join(data.skip(size as int), size);
        assert(pieces.drop_first() =~= rest);
        assert(pieces.flatten() =~= pieces.first() + pieces.drop_first().flatten());
        assert(pieces.flatten() =~= data);
        assert forall|i: int| 0 <= i < pieces.len() implies 0 < (#[trigger] pieces[i]).len()
            <= size by {
            if i > 0 {
                assert(pieces[i] == rest[i - 1]);
            }
        }
        assert forall|i: int| 0 <= i < pieces.len() - 1 implies (#[trigger] pieces[i]).len()
            == size by {
            if i > 0 {
                assert(pieces[i] == rest[i - 1]);
            }
        }
    }
}

fn copy_of(data: &[u8]) -> (copy: Vec<u8>)
    ensures
        copy@ == data@,
{
    let mut copy: Vec<u8> = Vec::new();
    copy.extend_from_slice(data);
    assert(copy@ =~= data@);
    copy
}

/// Cuts data into chunks of one million bytes.
pub fn chunk_data(data: &[u8]) -> (chunks: Vec<Vec<u8>>)
    ensures
        chunk_views(chunks@) == chunks_of(data@, CHUNK_SIZE as nat),
{
    let mut chunks: Vec<Vec<u8>> = Vec::new();
    let mut at: usize = 0;
    assert(data@.skip(0) =~= data@);
    assert(chunk_views(chunks@) + chunks_of(data@.skip(0), CHUNK_SIZE as nat) =~= chunks_of(
        data@,
        CHUNK_SIZE as nat,
    ));
    while at < data.len()
        invariant
            at <= data@.len(),
            chunk_views(chunks@) + chunks_of(data@.skip(at as int), CHUNK_SIZE as nat)
                == chunks_of(data@, CHUNK_SIZE as nat),
        decreases data@.len() - at,
    {
        let ghost before = chunk_views(chunks@);
        let ghost rest = data@.skip(at as int);
        let left = data.len() - at;
        let end = if left <= CHUNK_SIZE {
            data.len()
        } else {
            at + CHUNK_SIZE
        };
        let piece = copy_of(slice_subrange(data, at, end));
        chunks.push(piece);
        proof {
            assert(piece@ =~= rest.take(end - at));
            assert(chunk_views(chunks@) =~= before.push(piece@));
            assert(data@.skip(end as int) =~= rest.skip(end - at));
            if left <= CHUNK_SIZE {
                assert(rest.take(end - at) =~= rest);
                assert(chunks_of(data@.skip(end as int), CHUNK_SIZE as nat) =~= Seq::<
                    Seq<u8>,
                >::empty());
            }
            assert(before.push(piece@) + chunks_of(data@.skip(end as int), CHUNK_SIZE as nat)
                =~= before + chunks_of(rest, CHUNK_SIZE as nat));
        }
        at = end;
    }
    proof {
        assert(chunks_of(data@.skip(at as int), CHUNK_SIZE as nat) =~= Seq::<Seq<u8>>::empty());
        assert(chunk_views(chunks@) + Seq::<Seq<u8>>::empty() =~= chunk_views(chunks@));
    }
    chunks
}

} // verus!
