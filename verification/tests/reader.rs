use chat_client::reader::{decode_stream, StreamReader};

const STREAM: &[u8] = b"data: {\"choices\":[{\"delta\":{\"content\":\"Hel\"}}]}\n\n\
data: {\"choices\":[{\"delta\":{}}]}\n\n\
data: {\"choices\":[{\"delta\":{\"content\":\"lo, \"}}]}\n\n\
data: {\"choices\":[{\"delta\":{\"content\":\"world\"},\"finish_reason\":\"stop\"}]}\n\n\
data: [DONE]\n\n";

fn read_chunks(chunks: &[&[u8]]) -> (String, bool) {
    let mut reader = StreamReader::new();
    for chunk in chunks {
        reader.feed(chunk);
    }
    reader.finish();
    (reader.text().clone(), reader.is_finished())
}

fn delimiter_starts(stream: &[u8]) -> Vec<usize> {
    let mut starts = Vec::new();
    let mut i = 0;
    while i + 1 < stream.len() {
        if stream[i] == b'\n' && stream[i + 1] == b'\n' {
            starts.push(i);
            i += 2;
        } else {
            i += 1;
        }
    }
    starts
}

#[test]
fn the_whole_stream_in_one_piece_gives_the_text() {
    assert_eq!(decode_stream(STREAM), "Hello, world");
    assert_eq!(read_chunks(&[STREAM]), ("Hello, world".to_string(), true));
}

#[test]
fn a_cut_at_each_delimiter_and_one_byte_around_it_keeps_the_text() {
    let starts = delimiter_starts(STREAM);
    assert_eq!(starts.len(), 5);
    for start in starts {
        for cut in [start - 1, start, start + 1, start + 2, start + 3] {
            let cut = cut.min(STREAM.len());
            let (left, right) = STREAM.split_at(cut);
            assert_eq!(
                read_chunks(&[left, right]),
                ("Hello, world".to_string(), true),
                "cut at {}",
                cut
            );
        }
    }
}

#[test]
fn every_cut_in_two_keeps_the_text() {
    let whole = decode_stream(STREAM);
    for cut in 0..=STREAM.len() {
        let (left, right) = STREAM.split_at(cut);
        assert_eq!(read_chunks(&[left, right]).0, whole, "cut at {}", cut);
    }
}

#[test]
fn every_cut_in_three_keeps_the_text() {
    let stream: &[u8] = b"data: {\"choices\":[{\"delta\":{\"content\":\"a\"}}]}\n\n\
data: {\"choices\":[{\"delta\":{\"content\":\"b\"}}]}\n\ndata: [DONE]";
    let whole = decode_stream(stream);
    assert_eq!(whole, "ab");
    for first in 0..=stream.len() {
        for second in first..=stream.len() {
            let chunks: [&[u8]; 3] =
                [&stream[..first], &stream[first..second], &stream[second..]];
            assert_eq!(read_chunks(&chunks), (whole.clone(), true));
        }
    }
}

#[test]
fn byte_by_byte_keeps_the_text() {
    let bytes: Vec<&[u8]> = STREAM.chunks(1).collect();
    assert_eq!(read_chunks(&bytes), ("Hello, world".to_string(), true));
}

#[test]
fn a_character_of_several_bytes_may_be_cut() {
    let stream = "data: {\"choices\":[{\"delta\":{\"content\":\"caf\u{e9} \u{1f600}\"}}]}\n\n".as_bytes();
    let whole = decode_stream(stream);
    assert_eq!(whole, "caf\u{e9} \u{1f600}");
    for cut in 0..=stream.len() {
        let (left, right) = stream.split_at(cut);
        assert_eq!(read_chunks(&[left, right]).0, whole);
    }
}

#[test]
fn feed_hands_out_the_fragments_as_they_complete() {
    let mut reader = StreamReader::new();
    let fragments = reader.feed(b"data: {\"choices\":[{\"delta\":{\"content\":\"Hel\"}}]}\n");
    assert_eq!(fragments.len(), 0);
    assert_eq!(reader.text(), "");
    let fragments = reader.feed(b"\ndata: {\"choices\":[{\"delta\":{}}]}\n\ndata: {\"cho");
    assert_eq!(fragments.len(), 2);
    assert_eq!(fragments[0].text, Some("Hel".to_string()));
    assert!(!fragments[0].is_final);
    assert_eq!(fragments[1].text, None);
    assert!(!fragments[1].is_final);
    assert_eq!(reader.text(), "Hel");
    assert!(!reader.is_finished());
    let fragments = reader.feed(b"ices\":[{\"delta\":{\"content\":\"lo\"}}]}\n\ndata: [DONE]\n\n");
    assert_eq!(fragments.len(), 2);
    assert_eq!(fragments[0].text, Some("lo".to_string()));
    assert!(fragments[1].is_final);
    assert_eq!(fragments[1].text, None);
    assert_eq!(reader.text(), "Hello");
    assert!(reader.is_finished());
    assert_eq!(reader.finish().len(), 0);
}

#[test]
fn frames_behind_the_terminator_are_not_read() {
    let stream: &[u8] = b"data: {\"choices\":[{\"delta\":{\"content\":\"a\"}}]}\n\n\
data: [DONE]\n\ndata: {\"choices\":[{\"delta\":{\"content\":\"b\"}}]}\n\n";
    assert_eq!(decode_stream(stream), "a");
    let mut reader = StreamReader::new();
    let fragments = reader.feed(stream);
    assert_eq!(fragments.len(), 2);
    assert!(reader.is_finished());
    assert_eq!(reader.feed(b"data: {\"choices\":[{\"delta\":{\"content\":\"c\"}}]}\n\n").len(), 0);
    assert_eq!(reader.text(), "a");
}

#[test]
fn a_bad_frame_does_not_end_the_stream() {
    let stream: &[u8] = b"data: {\"choices\":[{\"delta\":{\"content\":\"a\"}}]}\n\n\
data: {broken\n\n: comment\n\ndata: {\"choices\":[{\"delta\":{\"content\":\"b\"}}]}\n\ndata: [DONE]\n\n";
    assert_eq!(decode_stream(stream), "ab");
}

#[test]
fn a_stream_without_terminator_ends_unfinished() {
    let stream: &[u8] = b"data: {\"choices\":[{\"delta\":{\"content\":\"a\"}}]}\n\n\
data: {\"choices\":[{\"delta\":{\"content\":\"b\"}}]}";
    assert_eq!(read_chunks(&[stream]), ("ab".to_string(), false));
}

#[test]
fn the_last_frame_need_not_be_closed() {
    let mut reader = StreamReader::new();
    assert_eq!(reader.feed(b"data: [DONE]").len(), 0);
    assert!(!reader.is_finished());
    let fragments = reader.finish();
    assert_eq!(fragments.len(), 1);
    assert!(fragments[0].is_final);
    assert!(reader.is_finished());
}

#[test]
fn an_empty_stream_has_no_text() {
    assert_eq!(decode_stream(b""), "");
    assert_eq!(read_chunks(&[]), (String::new(), false));
    assert_eq!(read_chunks(&[b"", b""]), (String::new(), false));
}

#[test]
fn a_tail_of_line_breaks_is_tolerated() {
    assert_eq!(
        decode_stream(b"data: {\"choices\":[{\"delta\":{\"content\":\"a\"}}]}\n\n\n"),
        "a"
    );
}
