use chat_client::frames::FrameAssembler;

fn all_frames(chunks: &[&[u8]]) -> Vec<Vec<u8>> {
    let mut assembler = FrameAssembler::new();
    let mut frames: Vec<Vec<u8>> = Vec::new();
    for chunk in chunks {
        frames.extend(assembler.push_chunk(chunk));
    }
    if let Some(last) = assembler.finish() {
        frames.push(last);
    }
    frames
}

#[test]
fn a_chunk_with_two_frames_yields_both() {
    let mut assembler = FrameAssembler::new();
    let frames = assembler.push_chunk(b"data: one\n\ndata: two\n\n");
    assert_eq!(frames, vec![b"data: one".to_vec(), b"data: two".to_vec()]);
    assert_eq!(assembler.pending_len(), 0);
    assert_eq!(assembler.finish(), None);
}

#[test]
fn a_partial_frame_is_held_back() {
    let mut assembler = FrameAssembler::new();
    let frames = assembler.push_chunk(b"data: one\n\ndata: tw");
    assert_eq!(frames, vec![b"data: one".to_vec()]);
    assert_eq!(assembler.pending_len(), 8);
    let frames = assembler.push_chunk(b"o\n\n");
    assert_eq!(frames, vec![b"data: two".to_vec()]);
    assert_eq!(assembler.pending_len(), 0);
}

#[test]
fn a_delimiter_split_across_two_chunks_is_found() {
    let mut assembler = FrameAssembler::new();
    assert_eq!(assembler.push_chunk(b"data: one\n"), Vec::<Vec<u8>>::new());
    assert_eq!(assembler.pending_len(), 10);
    let frames = assembler.push_chunk(b"\ndata: two");
    assert_eq!(frames, vec![b"data: one".to_vec()]);
    assert_eq!(assembler.finish(), Some(b"data: two".to_vec()));
}

#[test]
fn a_single_line_break_closes_nothing() {
    let mut assembler = FrameAssembler::new();
    assert_eq!(assembler.push_chunk(b"a\nb\nc"), Vec::<Vec<u8>>::new());
    assert_eq!(assembler.finish(), Some(b"a\nb\nc".to_vec()));
}

#[test]
fn three_line_breaks_close_one_frame_and_start_the_next_with_one() {
    let mut assembler = FrameAssembler::new();
    let frames = assembler.push_chunk(b"a\n\n\nb\n\n");
    assert_eq!(frames, vec![b"a".to_vec(), b"\nb".to_vec()]);
}

#[test]
fn four_line_breaks_close_two_frames_the_second_empty() {
    let mut assembler = FrameAssembler::new();
    let frames = assembler.push_chunk(b"a\n\n\n\n");
    assert_eq!(frames, vec![b"a".to_vec(), b"".to_vec()]);
}

#[test]
fn finish_hands_out_the_unfinished_tail_once() {
    let mut assembler = FrameAssembler::new();
    assembler.push_chunk(b"data: one\n\ntail");
    assert_eq!(assembler.finish(), Some(b"tail".to_vec()));
    assert_eq!(assembler.pending_len(), 0);
    assert_eq!(assembler.finish(), None);
}

#[test]
fn finish_on_an_empty_assembler_gives_nothing() {
    let mut assembler = FrameAssembler::new();
    assert_eq!(assembler.finish(), None);
    assert_eq!(assembler.push_chunk(b""), Vec::<Vec<u8>>::new());
    assert_eq!(assembler.finish(), None);
}

#[test]
fn a_lone_line_break_at_the_end_is_the_last_frame() {
    let frames = all_frames(&[b"data: one\n\n\n"]);
    assert_eq!(frames, vec![b"data: one".to_vec(), b"\n".to_vec()]);
}

#[test]
fn every_cut_in_two_gives_the_frames_of_the_whole() {
    let stream: &[u8] = b"data: alpha\n\ndata: beta\n\n\ndata: gamma\n\ntail";
    let whole = all_frames(&[stream]);
    assert_eq!(
        whole,
        vec![
            b"data: alpha".to_vec(),
            b"data: beta".to_vec(),
            b"\ndata: gamma".to_vec(),
            b"tail".to_vec()
        ]
    );
    for cut in 0..=stream.len() {
        let (left, right) = stream.split_at(cut);
        assert_eq!(all_frames(&[left, right]), whole, "cut at {}", cut);
    }
}

#[test]
fn every_cut_in_three_gives_the_frames_of_the_whole() {
    let stream: &[u8] = b"a\n\nbc\n\n\n\nd\n";
    let whole = all_frames(&[stream]);
    for first in 0..=stream.len() {
        for second in first..=stream.len() {
            let chunks: [&[u8]; 3] =
                [&stream[..first], &stream[first..second], &stream[second..]];
            assert_eq!(all_frames(&chunks), whole, "cuts at {} and {}", first, second);
        }
    }
}

#[test]
fn byte_by_byte_gives_the_frames_of_the_whole() {
    let stream: &[u8] = b"data: x\n\ndata: y\n\ndata: [DONE]\n\n";
    let whole = all_frames(&[stream]);
    let bytes: Vec<&[u8]> = stream.chunks(1).collect();
    assert_eq!(all_frames(&bytes), whole);
    assert_eq!(whole.len(), 3);
}

/// The frames of a whole stream, found by searching for the delimiter from
/// the left again and again.
fn frames_by_search(stream: &[u8]) -> Vec<Vec<u8>> {
    let mut frames: Vec<Vec<u8>> = Vec::new();
    let mut rest = stream;
    while let Some(at) = rest.windows(2).position(|pair| pair == b"\n\n") {
        frames.push(rest[..at].to_vec());
        rest = &rest[at + 2..];
    }
    if !rest.is_empty() {
        frames.push(rest.to_vec());
    }
    frames
}

fn next(seed: &mut u64) -> u64 {
    *seed = seed.wrapping_mul(6364136223846793005).wrapping_add(1442695040888963407);
    *seed >> 33
}

#[test]
fn streams_of_many_line_breaks_are_cut_as_by_search() {
    let mut seed: u64 = 7;
    for _ in 0..400 {
        let len = (next(&mut seed) % 40) as usize;
        let stream: Vec<u8> = (0..len)
            .map(|_| match next(&mut seed) % 5 {
                0 | 1 | 2 => b'\n',
                3 => b'a',
                _ => b'b',
            })
            .collect();
        let expected = frames_by_search(&stream);
        assert_eq!(all_frames(&[&stream]), expected, "stream {:?}", stream);

        let mut chunks: Vec<&[u8]> = Vec::new();
        let mut rest: &[u8] = &stream;
        while !rest.is_empty() {
            let take = 1 + (next(&mut seed) as usize) % rest.len().min(4);
            let (chunk, tail) = rest.split_at(take);
            chunks.push(chunk);
            if next(&mut seed) % 4 == 0 {
                chunks.push(b"");
            }
            rest = tail;
        }
        assert_eq!(all_frames(&chunks), expected, "stream {:?} in {:?}", stream, chunks);
    }
}
