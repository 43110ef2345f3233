use chat_cli::sse::SseDecoder;

fn decode_in_chunks(stream: &[u8], cuts: &[usize]) -> (Vec<Vec<u8>>, Vec<u8>) {
    let mut decoder = SseDecoder::new();
    let mut payloads = Vec::new();
    let mut from = 0;
    for &cut in cuts {
        payloads.extend(decoder.feed(&stream[from..cut]));
        from = cut;
    }
    payloads.extend(decoder.feed(&stream[from..]));
    (payloads, decoder.pending().clone())
}

#[test]
fn one_event_split_at_any_offset_gives_one_payload() {
    let stream = b"data: {\"candidates\":[{\"content\":{\"parts\":[{\"text\":\"hi\"}],\"role\":\"model\"}}]}\n\n";
    let payload = stream[6..stream.len() - 2].to_vec();
    for cut in 0..=stream.len() {
        let (payloads, pending) = decode_in_chunks(stream, &[cut]);
        assert_eq!(payloads, vec![payload.clone()]);
        assert!(pending.is_empty());
    }
}

#[test]
fn chunking_does_not_change_what_is_decoded() {
    let stream = b"data: one\n\ndata: two\r\n\r\nevent: x\ndata: three\ndata: four\n\ndata: [DONE]\n\ndata: tail";
    let (whole, rest) = decode_in_chunks(stream, &[]);
    assert_eq!(
        whole,
        vec![b"one".to_vec(), b"two".to_vec(), b"three".to_vec(), b"four".to_vec()]
    );
    assert_eq!(rest, b"data: tail".to_vec());
    for first in 0..=stream.len() {
        for second in first..=stream.len() {
            let (payloads, pending) = decode_in_chunks(stream, &[first, second]);
            assert_eq!(payloads, whole);
            assert_eq!(pending, rest);
        }
    }
    let every_byte: Vec<usize> = (0..stream.len()).collect();
    assert_eq!(decode_in_chunks(stream, &every_byte), (whole, rest));
}

#[test]
fn earlier_delimiter_wins_whatever_its_kind() {
    let (payloads, _) = decode_in_chunks(b"data: a\n\ndata: b\r\n\r\n", &[]);
    assert_eq!(payloads, vec![b"a".to_vec(), b"b".to_vec()]);
}

#[test]
fn blank_payloads_and_the_sentinel_are_skipped() {
    let (payloads, pending) =
        decode_in_chunks(b"data: \n\ndata:    \n\ndata: [DONE]\n\ndata:  [DONE]  \n\n: note\n\n", &[]);
    assert!(payloads.is_empty());
    assert!(pending.is_empty());
}

#[test]
fn lines_are_trimmed_and_other_fields_ignored() {
    let (payloads, _) = decode_in_chunks(b"  data: {\"a\":1}  \r\nid: 7\nretry: 3\n\n", &[]);
    assert_eq!(payloads, vec![b"{\"a\":1}".to_vec()]);
}

#[test]
fn payload_keeps_the_space_after_the_prefix() {
    let (payloads, _) = decode_in_chunks(b"data:   x\n\n", &[]);
    assert_eq!(payloads, vec![b"  x".to_vec()]);
}

#[test]
fn partial_event_is_held_back() {
    let mut decoder = SseDecoder::new();
    assert!(decoder.feed(b"data: {\"a\"").is_empty());
    assert_eq!(decoder.pending(), &b"data: {\"a\"".to_vec());
    assert!(decoder.feed(b":1}\n").is_empty());
    assert_eq!(decoder.feed(b"\n"), vec![b"{\"a\":1}".to_vec()]);
    assert!(decoder.pending().is_empty());
}

#[test]
fn delimiter_split_at_the_chunk_boundary_is_found() {
    let mut decoder = SseDecoder::new();
    assert!(decoder.feed(b"data: x\r\n\r").is_empty());
    assert_eq!(decoder.feed(b"\ndata: y\n"), vec![b"x".to_vec()]);
    assert_eq!(decoder.feed(b"\n"), vec![b"y".to_vec()]);
}

#[test]
fn bytes_that_are_no_text_pass_through() {
    let mut decoder = SseDecoder::new();
    assert!(decoder.feed(&[b'd', b'a', b't', b'a', b':', b' ', 0xe2, 0x82]).is_empty());
    assert_eq!(decoder.feed(&[0xac, b'\n', b'\n']), vec![vec![0xe2, 0x82, 0xac]]);
}
