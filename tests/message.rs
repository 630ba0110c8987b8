use startup_notify::message::{build_message, chunk, ChunkKind, CHUNK_LEN};

#[test]
fn completion_message_bytes() {
    assert_eq!(build_message("T123"), b"remove: ID=T123\0".to_vec());
    assert_eq!(build_message(""), b"remove: ID=\0".to_vec());
    assert_eq!(build_message("é"), "remove: ID=é\0".as_bytes().to_vec());
}

#[test]
fn short_message_is_one_padded_begin_chunk() {
    let msg = build_message("T123");
    assert_eq!(msg.len(), 16);
    let chunks = chunk(&msg);
    assert_eq!(chunks.len(), 1);
    assert_eq!(chunks[0].kind, ChunkKind::Begin);
    let mut expected = b"remove: ID=T123\0".to_vec();
    expected.resize(20, 0);
    assert_eq!(chunks[0].data, expected);
}

#[test]
fn empty_message_has_no_chunks() {
    assert_eq!(chunk(&[]).len(), 0);
}

#[test]
fn exact_multiple_needs_no_padding() {
    let msg: Vec<u8> = (1..=40).collect();
    let chunks = chunk(&msg);
    assert_eq!(chunks.len(), 2);
    assert_eq!(chunks[0].data, msg[..20].to_vec());
    assert_eq!(chunks[1].data, msg[20..].to_vec());
    assert_eq!(chunks[0].kind, ChunkKind::Begin);
    assert_eq!(chunks[1].kind, ChunkKind::Continuation);
}

#[test]
fn chunks_reassemble_for_every_length() {
    for len in 0..100usize {
        let msg: Vec<u8> = (0..len).map(|i| (i % 251) as u8 + 1).collect();
        let chunks = chunk(&msg);
        assert_eq!(chunks.len(), (len + 19) / 20);
        let mut joined = Vec::new();
        for (i, c) in chunks.iter().enumerate() {
            assert_eq!(c.data.len(), CHUNK_LEN);
            let expected = if i == 0 { ChunkKind::Begin } else { ChunkKind::Continuation };
            assert_eq!(c.kind, expected);
            joined.extend_from_slice(&c.data);
        }
        assert_eq!(joined[..len].to_vec(), msg);
        assert!(joined[len..].iter().all(|b| *b == 0));
    }
}

#[test]
fn twenty_one_bytes_take_two_chunks() {
    let msg = vec![7u8; 21];
    let chunks = chunk(&msg);
    assert_eq!(chunks.len(), 2);
    let mut tail = vec![0u8; 20];
    tail[0] = 7;
    assert_eq!(chunks[1].data, tail);
    assert_eq!(chunks[1].kind, ChunkKind::Continuation);
}
