use zstd_seekable_s3::{UploadEvent, UploadPart, UploadParts, UploadStep};

fn feed_pieces(chunker: &mut UploadParts, data: &[u8], piece: usize) -> Vec<UploadPart> {
    let mut parts = Vec::new();
    for chunk in data.chunks(piece) {
        match chunker.step(UploadEvent::Chunk(chunk.to_vec())) {
            UploadStep::Emitted(p) => parts.push(p),
            UploadStep::NeedInput => {}
            UploadStep::Done => panic!("chunker ended early"),
        }
    }
    parts
}

#[test]
fn exactly_three_parts_for_three_minimums() {
    let minimum: usize = 100;
    let data: Vec<u8> = (0..3 * minimum).map(|i| (i % 251) as u8).collect();
    let mut chunker = UploadParts::new(minimum);
    let mut parts = feed_pieces(&mut chunker, &data, 7);
    match chunker.step(UploadEvent::End) {
        UploadStep::Emitted(p) => parts.push(p),
        UploadStep::Done => {}
        UploadStep::NeedInput => panic!("end of input must not ask for more"),
    }
    assert!(chunker.finished());
    assert_eq!(parts.len(), 3);
    let numbers: Vec<i64> = parts.iter().map(|p| p.part_number).collect();
    assert_eq!(numbers, vec![1, 2, 3]);
    // No part is empty, every part but the last reaches the minimum, and
    // together they carry exactly the input.
    for p in &parts[..parts.len() - 1] {
        assert!(p.body.len() >= minimum);
    }
    let mut rebuilt = Vec::new();
    for p in &parts {
        assert!(!p.body.is_empty());
        rebuilt.extend_from_slice(&p.body);
    }
    assert_eq!(rebuilt, data);
}

#[test]
fn one_short_part_when_input_ends_below_minimum() {
    let minimum: usize = 100;
    let data: Vec<u8> = vec![9u8; minimum - 1];
    let mut chunker = UploadParts::new(minimum);
    let parts = feed_pieces(&mut chunker, &data, 13);
    assert!(parts.is_empty());
    match chunker.step(UploadEvent::End) {
        UploadStep::Emitted(p) => {
            assert_eq!(p.part_number, 1);
            assert_eq!(p.body.len(), minimum - 1);
            assert_eq!(p.body, data);
        }
        _ => panic!("the final short part must still be emitted"),
    }
    assert!(chunker.finished());
}

#[test]
fn empty_input_emits_no_parts() {
    let mut chunker = UploadParts::new(64);
    assert!(matches!(chunker.step(UploadEvent::End), UploadStep::Done));
    assert!(chunker.finished());
}

#[test]
fn parts_are_never_clipped_to_the_minimum() {
    let minimum: usize = 10;
    let mut chunker = UploadParts::new(minimum);
    // One oversized chunk becomes one oversized part, not a clipped one.
    match chunker.step(UploadEvent::Chunk(vec![1u8; 25])) {
        UploadStep::Emitted(p) => {
            assert_eq!(p.body.len(), 25);
            assert_eq!(p.part_number, 1);
        }
        _ => panic!("an accumulator at the threshold must emit"),
    }
}

#[test]
fn accept_input_crosses_threshold_exactly() {
    let mut chunker = UploadParts::new(10);
    assert!(chunker.accept_input(&[1, 2, 3, 4]).is_none());
    assert!(chunker.accept_input(&[5, 6, 7, 8]).is_none());
    let part = chunker.accept_input(&[9, 10]).unwrap();
    assert_eq!(part.body, vec![1, 2, 3, 4, 5, 6, 7, 8, 9, 10]);
    assert_eq!(part.part_number, 1);
    // The accumulator restarted from empty.
    assert!(chunker.accept_input(&[11]).is_none());
    let last = chunker.end_stream().unwrap();
    assert_eq!(last.body, vec![11]);
    assert_eq!(last.part_number, 2);
}

#[test]
fn terminal_chunker_stays_terminal() {
    let mut chunker = UploadParts::new(8);
    assert!(matches!(chunker.step(UploadEvent::End), UploadStep::Done));
    assert!(chunker.finished());
    for _ in 0..3 {
        assert!(matches!(
            chunker.step(UploadEvent::Chunk(vec![1u8; 64])),
            UploadStep::Done
        ));
        assert!(matches!(chunker.step(UploadEvent::End), UploadStep::Done));
    }
    assert!(chunker.finished());
}
