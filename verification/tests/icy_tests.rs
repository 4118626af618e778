use termusic::icy::{extract_title, find_sub, parse_icy_title, FilterOutIcyMetadata};

/// A 16-byte metadata block carrying the given short title.
fn block_for(title: &str) -> Vec<u8> {
    let mut text = format!("StreamTitle='{}';", title);
    let padded = text.len().div_ceil(16) * 16;
    while text.len() < padded {
        text.push('\0');
    }
    text.into_bytes()
}

/// Interleaves one metadata block after every `interval` audio bytes.
fn encode(audio: &[u8], blocks: &[Vec<u8>], interval: usize) -> Vec<u8> {
    let mut out = Vec::new();
    let mut bi = 0;
    let mut since = 0;
    for &b in audio {
        out.push(b);
        since += 1;
        if since == interval && bi < blocks.len() {
            out.push((blocks[bi].len() / 16) as u8);
            out.extend_from_slice(&blocks[bi]);
            bi += 1;
            since = 0;
        }
    }
    out
}

#[test]
fn round_trip_filters_all_metadata() {
    // 10 audio bytes, a block every 4: exactly floor(10/4) = 2 blocks
    let audio: Vec<u8> = (1..=10).collect();
    let blocks = vec![block_for("A"), block_for("B")];
    let stream = encode(&audio, &blocks, 4);
    let mut filter = FilterOutIcyMetadata::new(4);
    let (out, got_blocks) = filter.process(&stream);
    assert_eq!(out, audio);
    assert_eq!(got_blocks.len(), 2);
    assert_eq!(got_blocks[0], blocks[0]);
    assert_eq!(got_blocks[1], blocks[1]);
    assert_eq!(extract_title(&got_blocks[0]), "A");
    assert_eq!(extract_title(&got_blocks[1]), "B");
}

#[test]
fn a_block_spanning_two_reads_is_buffered() {
    let audio: Vec<u8> = (1..=8).collect();
    let blocks = vec![block_for("Song")];
    let stream = encode(&audio, &blocks, 8);
    // split in the middle of the metadata block
    let cut = 8 + 1 + 7;
    assert!(cut < stream.len());
    let mut filter = FilterOutIcyMetadata::new(8);
    let (out1, blocks1) = filter.process(&stream[..cut]);
    assert_eq!(out1, audio);
    assert_eq!(blocks1.len(), 0);
    let (out2, blocks2) = filter.process(&stream[cut..]);
    assert_eq!(out2.len(), 0);
    assert_eq!(blocks2.len(), 1);
    assert_eq!(extract_title(&blocks2[0]), "Song");
}

#[test]
fn zero_length_byte_means_no_metadata_this_cycle() {
    // interval 2: two audio bytes, a zero length byte, two more, another zero
    let stream = [10u8, 11, 0, 12, 13, 0];
    let mut filter = FilterOutIcyMetadata::new(2);
    let (out, blocks) = filter.process(&stream);
    assert_eq!(out, vec![10, 11, 12, 13]);
    assert_eq!(blocks.len(), 0);
}

#[test]
fn metadata_bytes_never_leak_even_when_they_look_like_audio() {
    // a block whose bytes could be mistaken for audio
    let mut block = vec![0x41u8; 16];
    block[0] = b'x';
    let audio = vec![0x41u8; 4];
    let stream = encode(&audio, &[block], 4);
    let mut filter = FilterOutIcyMetadata::new(4);
    let (out, blocks) = filter.process(&stream);
    assert_eq!(out, audio);
    assert_eq!(blocks.len(), 1);
}

#[test]
fn malformed_metadata_gives_an_empty_title_and_keeps_flowing() {
    let block = vec![0xFFu8; 16];
    let audio = vec![1u8, 2];
    let stream = encode(&audio, &[block], 2);
    let mut filter = FilterOutIcyMetadata::new(2);
    let (out, blocks) = filter.process(&stream);
    assert_eq!(out, audio);
    assert_eq!(blocks.len(), 1);
    assert_eq!(extract_title(&blocks[0]), "");
}

#[test]
fn parse_title_extracts_the_field() {
    assert_eq!(parse_icy_title("StreamTitle='Take Five';StreamUrl='';"), "Take Five");
    assert_eq!(parse_icy_title("StreamTitle='';"), "");
    assert_eq!(parse_icy_title("StreamUrl='x';"), "");
    assert_eq!(parse_icy_title("StreamTitle='unterminated"), "");
    assert_eq!(parse_icy_title(""), "");
}

#[test]
fn find_sub_finds_the_first_occurrence() {
    assert_eq!(find_sub("abcabc", "bc"), Some(1));
    assert_eq!(find_sub("abcabc", "zz"), None);
    assert_eq!(find_sub("abc", ""), Some(0));
    assert_eq!(find_sub("", "a"), None);
    assert_eq!(find_sub("aaab", "ab"), Some(2));
}
