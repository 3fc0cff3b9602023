use vstd::prelude::*;

use crate::codec::append_bytes;

verus! {

/// How many payload bytes one chunk of the chunked-transfer scheme carries.
pub const CHUNK_LENGTH: usize = 17;

/// How many chunks a payload of the given length splits into.
pub open spec fn spec_n_chunks(len: nat) -> nat {
    (len + 16) / 17
}

/// The payload bytes of chunk `i`.
pub open spec fn spec_chunk(payload: Seq<u8>, i: int) -> Seq<u8> {
    let end = if 17 * (i + 1) <= payload.len() {
        17 * (i + 1)
    } else {
        payload.len() as int
    };
    payload.subrange(17 * i, end)
}

/// The position marker OR'd into a chunk's flag byte: whether the chunk
/// is first, last, both, or in the middle of its message.
pub open spec fn spec_chunk_marker(i: int, n: int) -> u8 {
    if i == 0 && i == n - 1 {
        0xc0
    } else if i == 0 {
        0x00
    } else if i == n - 1 {
        0x80
    } else {
        0x40
    }
}

/// The full wire frame of chunk `i`: a zero byte, the message type OR'd
/// with the position marker, the low byte of the chunk index, then the
/// chunk's payload bytes.
pub open spec fn spec_chunk_frame(message_type: u8, payload: Seq<u8>, i: int) -> Seq<u8> {
    let n = spec_n_chunks(payload.len()) as int;
    seq![0x00u8, message_type | spec_chunk_marker(i, n), (i % 256) as u8] + spec_chunk(payload, i)
}

/// Split a payload into its chunked-transfer frames, in ascending index
/// order. A dropped frame is not detected or retried by this layer.
pub fn chunk_frames(message_type: u8, payload: &[u8]) -> (r: Vec<Vec<u8>>)
    ensures
        r@.len() == spec_n_chunks(payload@.len() as nat),
        forall|i: int|
            0 <= i < r@.len() ==> #[trigger] r@[i]@ == spec_chunk_frame(message_type, payload@, i),
{
    let len: usize = payload.len();
    let n: usize = if len == 0 {
        0
    } else {
        (len - 1) / CHUNK_LENGTH + 1
    };
    let mut out: Vec<Vec<u8>> = Vec::new();
    for i in 0..n
        invariant
            len == payload@.len(),
            n == spec_n_chunks(len as nat),
            out@.len() == i,
            forall|j: int|
                0 <= j < i ==> #[trigger] out@[j]@ == spec_chunk_frame(
                    message_type,
                    payload@,
                    j,
                ),
    {
        let start: usize = i * CHUNK_LENGTH;
        let remaining: usize = len - start;
        let take: usize = if remaining > CHUNK_LENGTH {
            CHUNK_LENGTH
        } else {
            remaining
        };
        let marker: u8 = if i == 0 && i == n - 1 {
            0xc0
        } else if i == 0 {
            0x00
        } else if i == n - 1 {
            0x80
        } else {
            0x40
        };
        let mut frame: Vec<u8> = Vec::new();
        frame.push(0x00);
        frame.push(message_type | marker);
        frame.push((i % 256) as u8);
        append_bytes(&mut frame, &payload[start..start + take]);
        proof {
            assert(frame@ =~= spec_chunk_frame(message_type, payload@, i as int));
        }
        out.push(frame);
    }
    out
}

/// Concatenating the chunk payloads in index order reconstructs the
/// original payload exactly: chunking loses and reorders nothing.
pub proof fn lemma_chunks_reassemble(payload: Seq<u8>)
    ensures
        Seq::new(spec_n_chunks(payload.len()), |i: int| spec_chunk(payload, i)).flatten()
            == payload,
    decreases payload.len(),
{
    let n = spec_n_chunks(payload.len()) as int;
    let chunks = Seq::new(n as nat, |i: int| spec_chunk(payload, i));
    if payload.len() == 0 {
        assert(chunks.flatten() =~= payload);
    } else if payload.len() <= 17 {
        assert(n == 1);
        chunks.lemma_flatten_one_element();
        assert(chunks.first() =~= payload);
    } else {
        let rest = payload.skip(17);
        let n_rest = spec_n_chunks(rest.len()) as int;
        assert(n == n_rest + 1);
        let rest_chunks = Seq::new(n_rest as nat, |i: int| spec_chunk(rest, i));
        lemma_chunks_reassemble(rest);
        assert forall|i: int| 0 <= i < n_rest implies chunks.drop_first()[i] == rest_chunks[i] by {
            assert(spec_chunk(payload, i + 1) =~= spec_chunk(rest, i));
        }
        assert(chunks.drop_first() =~= rest_chunks);
        assert(chunks.flatten() == chunks.first() + rest_chunks.flatten());
        assert(chunks.first() =~= payload.take(17));
        assert(payload.take(17) + rest =~= payload);
    }
}

} // verus!
