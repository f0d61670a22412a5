use defmt_logger::encoder::{frame_chunks, keep_chunk, LogEncoder, Misuse};
use defmt_logger::line::{classify_line, LineKind};

fn lines_of(text: &[u8]) -> Vec<Vec<u8>> {
    text.split_inclusive(|byte| *byte == b'\n').map(|line| line.to_vec()).collect()
}

#[test]
fn a_new_encoder_is_not_locked() {
    let encoder: LogEncoder<u32> = LogEncoder::new(b"DEFMT-A");
    assert!(!encoder.is_locked());
}

#[test]
fn acquire_locks_and_release_unlocks() {
    let mut encoder: LogEncoder<u32> = LogEncoder::new(b"DEFMT-A");
    assert!(!encoder.is_frame_open());
    assert!(!encoder.is_closing());
    encoder.acquire(5);
    assert!(encoder.is_locked());
    assert!(encoder.is_frame_open());
    assert!(!encoder.is_closing());
    encoder.write(&[1, 2, 3]);
    assert!(encoder.is_locked());
    assert!(encoder.is_frame_open());
    encoder.end_frame();
    assert!(encoder.is_locked());
    assert!(!encoder.is_frame_open());
    assert!(encoder.is_closing());
    encoder.release();
    assert!(!encoder.is_locked());
    assert!(!encoder.is_frame_open());
    assert!(!encoder.is_closing());
}

#[test]
fn release_gives_back_the_token_of_the_matching_acquire() {
    let mut encoder: LogEncoder<u64> = LogEncoder::new(b"DEFMT-A");
    encoder.acquire(0xDEAD_BEEF);
    encoder.write(&[9]);
    encoder.end_frame();
    assert_eq!(encoder.release(), 0xDEAD_BEEF);
    encoder.acquire(17);
    encoder.end_frame();
    assert_eq!(encoder.release(), 17);
}

#[test]
fn the_first_frame_starts_with_a_separator() {
    let mut encoder: LogEncoder<()> = LogEncoder::new(b"DEFMT-A");
    let flush = encoder.acquire(());
    assert_eq!(flush.chunks, vec![vec![0x00]]);
    assert_eq!(flush.text, b"[DEFMT-A:00]\n".to_vec());
}

#[test]
fn later_frames_start_silently() {
    let mut encoder: LogEncoder<()> = LogEncoder::new(b"DEFMT-A");
    encoder.acquire(());
    encoder.end_frame();
    encoder.release();
    let flush = encoder.acquire(());
    assert_eq!(flush.chunks, Vec::<Vec<u8>>::new());
    assert_eq!(flush.text, Vec::<u8>::new());
}

#[test]
fn written_bytes_come_out_encoded_one_chunk_at_a_time() {
    let mut encoder: LogEncoder<()> = LogEncoder::new(b"DEFMT-A");
    encoder.acquire(());
    let flush = encoder.write(&[0x01, 0x02]);
    assert_eq!(flush.chunks, vec![vec![0x01], vec![0x02]]);
    assert_eq!(flush.text, b"[DEFMT-A:01]\n[DEFMT-A:02]\n".to_vec());
    let flush = encoder.end_frame();
    assert_eq!(flush.chunks, vec![vec![0x7C], vec![0x00]]);
    assert_eq!(flush.text, b"[DEFMT-A:7C]\n[DEFMT-A:00]\n".to_vec());
}

#[test]
fn a_zero_byte_is_held_back_until_the_frame_ends() {
    let mut encoder: LogEncoder<()> = LogEncoder::new(b"DEFMT-B");
    encoder.acquire(());
    let flush = encoder.write(&[0x00]);
    assert_eq!(flush.chunks, Vec::<Vec<u8>>::new());
    assert_eq!(flush.text, Vec::<u8>::new());
    let flush = encoder.end_frame();
    assert_eq!(flush.chunks, vec![vec![0x7F], vec![0x00]]);
    assert_eq!(flush.text, b"[DEFMT-B:7F]\n[DEFMT-B:00]\n".to_vec());
}

#[test]
fn an_empty_frame_still_flushes_at_its_end() {
    let mut encoder: LogEncoder<()> = LogEncoder::new(b"DEFMT-A");
    encoder.acquire(());
    let flush = encoder.end_frame();
    assert_eq!(flush.chunks, vec![vec![0x00]]);
    assert_eq!(flush.text, b"[DEFMT-A:00]\n".to_vec());
}

#[test]
fn writing_in_pieces_encodes_as_writing_at_once() {
    let mut whole: LogEncoder<()> = LogEncoder::new(b"M");
    whole.acquire(());
    let mut at_once = whole.write(&[1, 0, 2, 0, 0, 3, 4, 5]).chunks;
    at_once.extend(whole.end_frame().chunks);

    let mut pieces: LogEncoder<()> = LogEncoder::new(b"M");
    pieces.acquire(());
    let mut in_pieces = pieces.write(&[1, 0, 2]).chunks;
    in_pieces.extend(pieces.write(&[]).chunks);
    in_pieces.extend(pieces.write(&[0, 0, 3, 4, 5]).chunks);
    in_pieces.extend(pieces.end_frame().chunks);

    assert_eq!(at_once, in_pieces);
}

#[test]
fn every_line_of_a_frame_reads_back_as_its_chunk() {
    let mut encoder: LogEncoder<()> = LogEncoder::new(b"DEFMT-A");
    let mut chunks = Vec::new();
    let mut text = Vec::new();
    let data: Vec<u8> = (0..=255u8).chain(0..=255u8).collect();
    for flush in [encoder.acquire(()), encoder.write(&data), encoder.end_frame()] {
        chunks.extend(flush.chunks);
        text.extend(flush.text);
    }
    let lines = lines_of(&text);
    assert_eq!(lines.len(), chunks.len());
    for (line, chunk) in lines.iter().zip(chunks.iter()) {
        assert_eq!(classify_line(b"DEFMT-A", line), LineKind::Payload(chunk.clone()));
    }
}

#[test]
fn a_second_acquire_is_refused() {
    let mut encoder: LogEncoder<u8> = LogEncoder::new(b"DEFMT-A");
    assert!(encoder.try_acquire(1).is_ok());
    assert_eq!(encoder.try_acquire(2), Err(Misuse::Reentrant));
    assert!(encoder.is_frame_open());
    encoder.try_end_frame().unwrap();
    assert_eq!(encoder.try_release(), Ok(1));
}

#[test]
fn an_acquire_while_the_last_text_is_due_is_refused() {
    let mut encoder: LogEncoder<u8> = LogEncoder::new(b"DEFMT-A");
    encoder.try_acquire(1).unwrap();
    encoder.try_end_frame().unwrap();
    assert_eq!(encoder.try_acquire(2), Err(Misuse::Reentrant));
    assert!(encoder.is_closing());
    assert_eq!(encoder.try_release(), Ok(1));
    assert!(encoder.try_acquire(3).is_ok());
}

#[test]
fn write_without_acquire_is_refused() {
    let mut encoder: LogEncoder<u8> = LogEncoder::new(b"DEFMT-A");
    assert_eq!(encoder.try_write(&[1, 2]), Err(Misuse::WriteOutOfContext));
    assert!(!encoder.is_locked());
    encoder.try_acquire(1).unwrap();
    encoder.try_end_frame().unwrap();
    assert_eq!(encoder.try_write(&[1, 2]), Err(Misuse::WriteOutOfContext));
    assert!(encoder.is_closing());
    encoder.try_release().unwrap();
    assert_eq!(encoder.try_write(&[1, 2]), Err(Misuse::WriteOutOfContext));
}

#[test]
fn release_without_acquire_is_refused() {
    let mut encoder: LogEncoder<u8> = LogEncoder::new(b"DEFMT-A");
    assert_eq!(encoder.try_end_frame(), Err(Misuse::ReleaseOutOfContext));
    assert_eq!(encoder.try_release(), Err(Misuse::ReleaseOutOfContext));
    encoder.try_acquire(1).unwrap();
    encoder.try_end_frame().unwrap();
    encoder.try_release().unwrap();
    assert_eq!(encoder.try_end_frame(), Err(Misuse::ReleaseOutOfContext));
    assert_eq!(encoder.try_release(), Err(Misuse::ReleaseOutOfContext));
    assert!(!encoder.is_locked());
}

#[test]
fn the_lock_is_not_given_up_before_the_frame_is_ended() {
    let mut encoder: LogEncoder<u8> = LogEncoder::new(b"DEFMT-A");
    encoder.try_acquire(1).unwrap();
    assert_eq!(encoder.try_release(), Err(Misuse::ReleaseOutOfContext));
    assert!(encoder.is_frame_open());
    assert!(encoder.try_write(&[5]).is_ok());
}

#[test]
fn a_frame_is_ended_once() {
    let mut encoder: LogEncoder<u8> = LogEncoder::new(b"DEFMT-A");
    encoder.try_acquire(1).unwrap();
    encoder.try_end_frame().unwrap();
    assert_eq!(encoder.try_end_frame(), Err(Misuse::ReleaseOutOfContext));
    assert!(encoder.is_closing());
}

#[test]
fn the_checked_calls_do_what_the_plain_ones_do() {
    let mut checked: LogEncoder<u8> = LogEncoder::new(b"DEFMT-A");
    let mut plain: LogEncoder<u8> = LogEncoder::new(b"DEFMT-A");
    assert_eq!(checked.try_acquire(3).unwrap(), plain.acquire(3));
    assert_eq!(checked.try_write(&[7, 0, 7]).unwrap(), plain.write(&[7, 0, 7]));
    assert_eq!(checked.try_end_frame().unwrap(), plain.end_frame());
    assert_eq!(checked.try_release().unwrap(), plain.release());
}

#[test]
fn the_messages_of_misuse() {
    assert_eq!(Misuse::Reentrant.message(), "defmt logger taken reentrantly");
    assert_eq!(Misuse::WriteOutOfContext.message(), "defmt write out of context");
    assert_eq!(Misuse::ReleaseOutOfContext.message(), "defmt release out of context");
}

#[test]
fn keep_chunk_appends_a_copy() {
    let mut chunks = vec![vec![1u8]];
    keep_chunk(&mut chunks, &[2, 3]);
    keep_chunk(&mut chunks, &[]);
    assert_eq!(chunks, vec![vec![1u8], vec![2, 3], vec![]]);
}

#[test]
fn frame_chunks_keeps_the_chunks_and_frames_each() {
    let flush = frame_chunks(b"DEFMT-B", vec![vec![0xAB], vec![0x00, 0x01]]);
    assert_eq!(flush.chunks, vec![vec![0xAB], vec![0x00, 0x01]]);
    assert_eq!(flush.text, b"[DEFMT-B:AB]\n[DEFMT-B:0001]\n".to_vec());
    let nothing = frame_chunks(b"DEFMT-B", Vec::new());
    assert_eq!(nothing.text, Vec::<u8>::new());
}
