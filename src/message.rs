//! The completion message `remove: ID=<token>\0` and its split into
//! fixed-size chunks, one per broadcast event.

use vstd::prelude::*;
use vstd::string::StringSliceAdditionalSpecFns;

verus! {

/// The payload size of one broadcast event.
pub const CHUNK_LEN: usize = 20;

/// The ASCII bytes of `remove: ID=`.
pub open spec fn remove_prefix() -> Seq<u8> {
    seq![114u8, 101, 109, 111, 118, 101, 58, 32, 73, 68, 61]
}

/// The message announcing that the startup identified by `token` is over.
pub open spec fn completion_message(token: Seq<u8>) -> Seq<u8> {
    remove_prefix() + token + seq![0u8]
}

/// The number of chunks a message of `len` bytes takes: `len / 20` rounded up.
pub open spec fn chunk_count(len: nat) -> nat {
    (len + 19) / 20
}

/// The byte at `k` of the message padded on the right with zeros.
pub open spec fn padded_byte(msg: Seq<u8>, k: int) -> u8 {
    if 0 <= k < msg.len() {
        msg[k]
    } else {
        0
    }
}

/// The payload of chunk `i`: bytes `20 * i .. 20 * i + 20`, zero-padded.
pub open spec fn chunk_payload(msg: Seq<u8>, i: int) -> Seq<u8> {
    Seq::new(20, |j: int| padded_byte(msg, 20 * i + j))
}

/// The payloads of all chunks of `msg`, in order.
pub open spec fn chunk_payloads(msg: Seq<u8>) -> Seq<Seq<u8>> {
    Seq::new(chunk_count(msg.len()), |i: int| chunk_payload(msg, i))
}

/// Whether a chunk opens a message or continues it.
#[derive(Debug, Copy, Clone, PartialEq, Eq, Structural)]
pub enum ChunkKind {
    Begin,
    Continuation,
}

/// The kind of chunk `i`: only the first opens the message.
pub open spec fn kind_at(i: int) -> ChunkKind {
    if i == 0 {
        ChunkKind::Begin
    } else {
        ChunkKind::Continuation
    }
}

/// One 20-byte segment of a message, tagged with its kind.
#[derive(Debug, Clone)]
pub struct Chunk {
    pub kind: ChunkKind,
    pub data: Vec<u8>,
}

/// Builds `remove: ID=<startup_id>\0`.
pub fn build_message(startup_id: &str) -> (r: Vec<u8>)
    ensures
        r@ == completion_message(startup_id.spec_bytes()),
{
    let mut buffer: Vec<u8> = vec![114u8, 101, 109, 111, 118, 101, 58, 32, 73, 68, 61];
    assert(buffer@ =~= remove_prefix());
    let bytes = startup_id.as_bytes();
    let mut i: usize = 0;
    while i < bytes.len()
        invariant
            i <= bytes@.len(),
            bytes@ == startup_id.spec_bytes(),
            buffer@ == remove_prefix() + bytes@.subrange(0, i as int),
        decreases bytes@.len() - i,
    {
        buffer.push(bytes[i]);
        i = i + 1;
        assert(buffer@ =~= remove_prefix() + bytes@.subrange(0, i as int));
    }
    buffer.push(0u8);
    assert(buffer@ =~= completion_message(startup_id.spec_bytes()));
    buffer
}

/// Splits `message` into 20-byte chunks, the last one zero-padded; the first
/// chunk is tagged `Begin` and every other `Continuation`.
pub fn chunk(message: &[u8]) -> (r: Vec<Chunk>)
    ensures
        r@.len() == chunk_count(message@.len()),
        forall|i: int| 0 <= i < r@.len() ==> #[trigger] r@[i].data@ == chunk_payload(message@, i),
        forall|i: int| 0 <= i < r@.len() ==> #[trigger] r@[i].kind == kind_at(i),
{
    let mut chunks: Vec<Chunk> = Vec::new();
    let mut start: usize = 0;
    let len = message.len();
    while start < len
        invariant
            len == message@.len(),
            start <= len,
            start < len ==> start == 20 * chunks@.len(),
            start < len ==> chunks@.len() < chunk_count(len as nat),
            start >= len ==> chunks@.len() == chunk_count(len as nat),
            forall|i: int| 0 <= i < chunks@.len() ==> #[trigger] chunks@[i].data@ == chunk_payload(message@, i),
            forall|i: int| 0 <= i < chunks@.len() ==> #[trigger] chunks@[i].kind == kind_at(i),
        decreases len - start,
    {
        let mut data: Vec<u8> = Vec::new();
        let mut j: usize = 0;
        while j < CHUNK_LEN
            invariant
                len == message@.len(),
                start < len,
                start == 20 * chunks@.len(),
                chunks@.len() < chunk_count(len as nat),
                forall|i: int|
                    0 <= i < chunks@.len() ==> #[trigger] chunks@[i].data@ == chunk_payload(message@, i)
                        && chunks@[i].kind == kind_at(i),
                j <= 20,
                data@.len() == j,
                forall|k: int| 0 <= k < j ==> #[trigger] data@[k] == padded_byte(message@, start + k),
            decreases 20 - j,
        {
            if j < len - start {
                data.push(message[start + j]);
            } else {
                data.push(0u8);
            }
            j = j + 1;
        }
        assert(data@ =~= chunk_payload(message@, chunks@.len() as int));
        let kind = if start == 0 {
            ChunkKind::Begin
        } else {
            ChunkKind::Continuation
        };
        let ghost old_chunks = chunks@;
        let ghost n = chunks@.len() as int;
        chunks.push(Chunk { kind, data });
        assert(chunks@[n].data@ == chunk_payload(message@, n));
        assert(chunks@[n].kind == kind_at(n));
        if len - start <= CHUNK_LEN {
            start = len;
            assert(chunks@.len() == chunk_count(len as nat));
        } else {
            start = start + CHUNK_LEN;
        }
        assert forall|i: int| 0 <= i < chunks@.len() implies #[trigger] chunks@[i].data@ == chunk_payload(message@, i) by {
            if i < n {
                assert(chunks@[i] == old_chunks[i]);
                assert(old_chunks[i].data@ == chunk_payload(message@, i));
            }
        }
        assert forall|i: int| 0 <= i < chunks@.len() implies #[trigger] chunks@[i].kind == kind_at(i) by {
            if i < n {
                assert(chunks@[i] == old_chunks[i]);
                assert(old_chunks[i].kind == kind_at(i));
            }
        }
    }
    chunks
}

proof fn lemma_payloads_join(msg: Seq<u8>, n: nat)
    ensures
        Seq::new(n, |i: int| chunk_payload(msg, i)).flatten_alt() =~= Seq::new(
            20 * n,
            |k: int| padded_byte(msg, k),
        ),
    decreases n,
{
    let s = Seq::new(n, |i: int| chunk_payload(msg, i));
    if n > 0 {
        let m = (n - 1) as nat;
        lemma_payloads_join(msg, m);
        assert(s.drop_last() =~= Seq::new(m, |i: int| chunk_payload(msg, i)));
        let joined = s.flatten_alt();
        assert(joined == s.drop_last().flatten_alt() + s.last());
        assert forall|k: int| 0 <= k < 20 * n implies #[trigger] joined[k] == padded_byte(msg, k) by {
            if k >= 20 * m {
                assert(s.last()[k - 20 * m] == padded_byte(msg, 20 * m + (k - 20 * m)));
            }
        }
    } else {
        assert(s.flatten_alt() =~= Seq::<u8>::empty());
    }
}

/// Chunking loses nothing: a message of `L` bytes takes `ceil(L / 20)`
/// payloads of exactly 20 bytes each, and joining them gives back the message
/// followed by zeros only.
pub proof fn lemma_chunks_reassemble(msg: Seq<u8>)
    ensures
        chunk_payloads(msg).len() == chunk_count(msg.len()),
        20 * chunk_count(msg.len()) < msg.len() + 20,
        forall|i: int|
            0 <= i < chunk_payloads(msg).len() ==> (#[trigger] chunk_payloads(msg)[i]).len() == 20,
        chunk_payloads(msg).flatten().len() == 20 * chunk_count(msg.len()),
        chunk_payloads(msg).flatten().subrange(0, msg.len() as int) == msg,
        forall|k: int|
            msg.len() <= k < chunk_payloads(msg).flatten().len() ==> #[trigger] chunk_payloads(
                msg,
            ).flatten()[k] == 0u8,
{
    let n = chunk_count(msg.len());
    lemma_payloads_join(msg, n);
    chunk_payloads(msg).lemma_flatten_and_flatten_alt_are_equivalent();
    let joined = chunk_payloads(msg).flatten();
    assert(joined.subrange(0, msg.len() as int) =~= msg);
}

/// Only the first chunk of a message opens it.
pub proof fn lemma_only_first_chunk_begins(i: int)
    requires
        0 <= i,
    ensures
        kind_at(i) == ChunkKind::Begin <==> i == 0,
{
}

} // verus!
