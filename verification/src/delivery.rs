//! Extraction over a whole stream: the frames that successive extractions
//! take from a buffer, and why the way a stream is cut into chunks does not
//! show in them.

use crate::framing::front_frame;
use crate::packet::DatabaseType;
use vstd::prelude::*;

verus! {

/// `frames` are what `frames.len()` successive extractions take from `buf`,
/// in that order, and `rest` is what they leave.
pub open spec fn extracts(
    db_type: DatabaseType,
    buf: Seq<u8>,
    frames: Seq<Seq<u8>>,
    rest: Seq<u8>,
) -> bool
    decreases frames.len(),
{
    if frames.len() == 0 {
        rest == buf
    } else {
        &&& front_frame(db_type, buf) == Some(frames[0])
        &&& extracts(db_type, buf.skip(frames[0].len() as int), frames.drop_first(), rest)
    }
}

/// Extraction from `buf` until none remains yields `frames` and leaves `rest`.
pub open spec fn drains(
    db_type: DatabaseType,
    buf: Seq<u8>,
    frames: Seq<Seq<u8>>,
    rest: Seq<u8>,
) -> bool {
    extracts(db_type, buf, frames, rest) && front_frame(db_type, rest) is None
}

/// What the accumulation buffer holds once chunk `i` has been appended:
/// what the chunk before left behind, then the chunk.
pub open spec fn buffer_at(chunks: Seq<Seq<u8>>, rests: Seq<Seq<u8>>, i: int) -> Seq<u8> {
    if i == 0 {
        chunks[i]
    } else {
        rests[i - 1] + chunks[i]
    }
}

/// The stream arrives as `chunks`. After each chunk the buffer is drained:
/// chunk `i` yields `frames[i]` and leaves `rests[i]` for the next.
pub open spec fn delivered(
    db_type: DatabaseType,
    chunks: Seq<Seq<u8>>,
    frames: Seq<Seq<Seq<u8>>>,
    rests: Seq<Seq<u8>>,
) -> bool {
    &&& frames.len() == chunks.len()
    &&& rests.len() == chunks.len()
    &&& forall|i: int|
        0 <= i < chunks.len() ==> drains(
            db_type,
            buffer_at(chunks, rests, i),
            #[trigger] frames[i],
            rests[i],
        )
}

/// What the last chunk left behind; nothing where no chunk came.
pub open spec fn final_rest(rests: Seq<Seq<u8>>) -> Seq<u8> {
    if rests.len() == 0 {
        Seq::empty()
    } else {
        rests.last()
    }
}

/// A complete frame at the front of a buffer stays what it is when more
/// bytes arrive behind it.
pub proof fn lemma_front_frame_append(db_type: DatabaseType, a: Seq<u8>, b: Seq<u8>)
    requires
        front_frame(db_type, a) is Some,
    ensures
        front_frame(db_type, a + b) == front_frame(db_type, a),
        (a + b).skip(front_frame(db_type, a).unwrap().len() as int) == a.skip(
            front_frame(db_type, a).unwrap().len() as int,
        ) + b,
{
}

/// Extractions one after the other add up.
pub proof fn lemma_extracts_concat(
    db_type: DatabaseType,
    buf: Seq<u8>,
    frames1: Seq<Seq<u8>>,
    mid: Seq<u8>,
    frames2: Seq<Seq<u8>>,
    rest: Seq<u8>,
)
    requires
        extracts(db_type, buf, frames1, mid),
        extracts(db_type, mid, frames2, rest),
    ensures
        extracts(db_type, buf, frames1 + frames2, rest),
    decreases frames1.len(),
{
    if frames1.len() > 0 {
        let next = buf.skip(frames1[0].len() as int);
        lemma_extracts_concat(db_type, next, frames1.drop_first(), mid, frames2, rest);
        assert((frames1 + frames2).drop_first() =~= frames1.drop_first() + frames2);
    }
}

/// Bytes that arrive behind a buffer change nothing in the frames that
/// were extracted from it: they end up behind what those left.
pub proof fn lemma_extracts_append(
    db_type: DatabaseType,
    a: Seq<u8>,
    b: Seq<u8>,
    frames: Seq<Seq<u8>>,
    rest: Seq<u8>,
)
    requires
        extracts(db_type, a, frames, rest),
    ensures
        extracts(db_type, a + b, frames, rest + b),
    decreases frames.len(),
{
    if frames.len() > 0 {
        lemma_front_frame_append(db_type, a, b);
        lemma_extracts_append(
            db_type,
            a.skip(frames[0].len() as int),
            b,
            frames.drop_first(),
            rest,
        );
    }
}

/// Nothing is lost and nothing comes twice: the extracted frames, put end
/// to end, and then what is left, are the buffer.
pub proof fn lemma_no_loss(
    db_type: DatabaseType,
    buf: Seq<u8>,
    frames: Seq<Seq<u8>>,
    rest: Seq<u8>,
)
    requires
        extracts(db_type, buf, frames, rest),
    ensures
        frames.flatten() + rest == buf,
    decreases frames.len(),
{
    if frames.len() > 0 {
        let next = buf.skip(frames[0].len() as int);
        lemma_no_loss(db_type, next, frames.drop_first(), rest);
        assert(buf =~= buf.take(frames[0].len() as int) + next);
    }
}

/// Draining a buffer has one outcome: the frames and what is left are
/// determined by the bytes.
pub proof fn lemma_drains_unique(
    db_type: DatabaseType,
    buf: Seq<u8>,
    frames1: Seq<Seq<u8>>,
    rest1: Seq<u8>,
    frames2: Seq<Seq<u8>>,
    rest2: Seq<u8>,
)
    requires
        drains(db_type, buf, frames1, rest1),
        drains(db_type, buf, frames2, rest2),
    ensures
        frames1 == frames2,
        rest1 == rest2,
    decreases frames1.len(),
{
    if frames1.len() > 0 {
        let next = buf.skip(frames1[0].len() as int);
        lemma_drains_unique(
            db_type,
            next,
            frames1.drop_first(),
            rest1,
            frames2.drop_first(),
            rest2,
        );
        assert(frames2 =~= seq![frames2[0]] + frames2.drop_first());
    }
}

/// A stream cut in two: draining the first part, then what it left together
/// with the second part, is draining the whole.
pub proof fn lemma_two_chunks(
    db_type: DatabaseType,
    a: Seq<u8>,
    b: Seq<u8>,
    frames1: Seq<Seq<u8>>,
    rest1: Seq<u8>,
    frames2: Seq<Seq<u8>>,
    rest2: Seq<u8>,
)
    requires
        drains(db_type, a, frames1, rest1),
        drains(db_type, rest1 + b, frames2, rest2),
    ensures
        drains(db_type, a + b, frames1 + frames2, rest2),
{
    lemma_extracts_append(db_type, a, b, frames1, rest1);
    lemma_extracts_concat(db_type, a + b, frames1, rest1 + b, frames2, rest2);
}

/// A stream that arrives in chunks, drained after each, is drained as the
/// whole stream would be: the frames of all chunks in order, and what the
/// last chunk left.
pub proof fn lemma_chunked_delivery_drains(
    db_type: DatabaseType,
    chunks: Seq<Seq<u8>>,
    frames: Seq<Seq<Seq<u8>>>,
    rests: Seq<Seq<u8>>,
)
    requires
        delivered(db_type, chunks, frames, rests),
    ensures
        drains(db_type, chunks.flatten(), frames.flatten(), final_rest(rests)),
    decreases chunks.len(),
{
    if chunks.len() > 0 {
        let n = chunks.len() - 1;
        let before = chunks.drop_last();
        assert forall|i: int| 0 <= i < before.len() implies drains(
            db_type,
            buffer_at(before, rests.drop_last(), i),
            #[trigger] frames.drop_last()[i],
            rests.drop_last()[i],
        ) by {}
        lemma_chunked_delivery_drains(db_type, before, frames.drop_last(), rests.drop_last());
        let carried = final_rest(rests.drop_last());
        lemma_two_chunks(
            db_type,
            before.flatten(),
            chunks[n],
            frames.drop_last().flatten(),
            carried,
            frames[n],
            rests[n],
        );
        assert(chunks =~= before.push(chunks[n]));
        assert(frames =~= frames.drop_last().push(frames[n]));
        before.lemma_flatten_push(chunks[n]);
        frames.drop_last().lemma_flatten_push(frames[n]);
    }
}

/// Chunk invariance: however a stream is cut into chunks, the frames
/// extracted from it, in order, and the bytes left at the end are those
/// that one delivery of the whole stream gives.
pub proof fn lemma_chunk_invariance(
    db_type: DatabaseType,
    chunks: Seq<Seq<u8>>,
    frames: Seq<Seq<Seq<u8>>>,
    rests: Seq<Seq<u8>>,
    frames_at_once: Seq<Seq<u8>>,
    rest_at_once: Seq<u8>,
)
    requires
        delivered(db_type, chunks, frames, rests),
        drains(db_type, chunks.flatten(), frames_at_once, rest_at_once),
    ensures
        frames.flatten() == frames_at_once,
        final_rest(rests) == rest_at_once,
{
    lemma_chunked_delivery_drains(db_type, chunks, frames, rests);
    lemma_drains_unique(
        db_type,
        chunks.flatten(),
        frames.flatten(),
        final_rest(rests),
        frames_at_once,
        rest_at_once,
    );
}

/// Where draining a whole stream ends, draining its first part ends too:
/// the first `k` frames come from the first part alone, which leaves
/// `rest1`, and the others once the second part has arrived behind that.
pub proof fn lemma_whole_splits(
    db_type: DatabaseType,
    a: Seq<u8>,
    b: Seq<u8>,
    frames: Seq<Seq<u8>>,
    rest: Seq<u8>,
) -> (cut: (int, Seq<u8>))
    requires
        drains(db_type, a + b, frames, rest),
    ensures
        0 <= cut.0 <= frames.len(),
        drains(db_type, a, frames.take(cut.0), cut.1),
        drains(db_type, cut.1 + b, frames.skip(cut.0), rest),
    decreases frames.len(),
{
    if front_frame(db_type, a) is None {
        assert(frames.skip(0) =~= frames);
        (0, a)
    } else {
        lemma_front_frame_append(db_type, a, b);
        let next = a.skip(frames[0].len() as int);
        let (k, rest1) = lemma_whole_splits(db_type, next, b, frames.drop_first(), rest);
        assert(frames.take(k + 1).drop_first() =~= frames.drop_first().take(k));
        assert(frames.skip(k + 1) =~= frames.drop_first().skip(k));
        (k + 1, rest1)
    }
}

/// Where draining a whole stream ends, every chunked delivery of it ends
/// as well, whatever the chunks: the result names the frames that each
/// chunk yields and what each leaves.
pub proof fn lemma_any_split_drains(
    db_type: DatabaseType,
    chunks: Seq<Seq<u8>>,
    frames_at_once: Seq<Seq<u8>>,
    rest_at_once: Seq<u8>,
) -> (run: (Seq<Seq<Seq<u8>>>, Seq<Seq<u8>>))
    requires
        drains(db_type, chunks.flatten(), frames_at_once, rest_at_once),
    ensures
        delivered(db_type, chunks, run.0, run.1),
    decreases chunks.len(),
{
    if chunks.len() == 0 {
        (Seq::empty(), Seq::empty())
    } else {
        let n = chunks.len() - 1;
        let before = chunks.drop_last();
        assert(chunks =~= before.push(chunks[n]));
        before.lemma_flatten_push(chunks[n]);
        let (k, rest1) = lemma_whole_splits(
            db_type,
            before.flatten(),
            chunks[n],
            frames_at_once,
            rest_at_once,
        );
        let (frames, rests) = lemma_any_split_drains(
            db_type,
            before,
            frames_at_once.take(k),
            rest1,
        );
        lemma_chunk_invariance(db_type, before, frames, rests, frames_at_once.take(k), rest1);
        let all_frames = frames.push(frames_at_once.skip(k));
        let all_rests = rests.push(rest_at_once);
        assert forall|i: int| 0 <= i < chunks.len() implies drains(
            db_type,
            buffer_at(chunks, all_rests, i),
            #[trigger] all_frames[i],
            all_rests[i],
        ) by {}
        (all_frames, all_rests)
    }
}

/// Over a chunked delivery nothing is lost and nothing comes twice: all
/// extracted frames end to end, and then what the last chunk left, are all
/// the bytes that arrived.
pub proof fn lemma_chunked_no_loss(
    db_type: DatabaseType,
    chunks: Seq<Seq<u8>>,
    frames: Seq<Seq<Seq<u8>>>,
    rests: Seq<Seq<u8>>,
)
    requires
        delivered(db_type, chunks, frames, rests),
    ensures
        frames.flatten().flatten() + final_rest(rests) == chunks.flatten(),
{
    lemma_chunked_delivery_drains(db_type, chunks, frames, rests);
    lemma_no_loss(db_type, chunks.flatten(), frames.flatten(), final_rest(rests));
}

} // verus!
