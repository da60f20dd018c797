use zstd_seekable_s3::{Compress, CompressEvent, CompressStep, Error, SeekFrom, SeekableDecompress};

fn lines(n: usize) -> Vec<u8> {
    let mut s = String::new();
    for i in 0..n {
        s.push_str(&format!("This is line {}.\n", i));
    }
    s.into_bytes()
}

fn compress_all(level: usize, frame_size: usize, input: &[u8]) -> Vec<u8> {
    let mut c = Compress::new(level, frame_size).unwrap();
    let mut out = c.compress_input(input).unwrap();
    let mut tail = c.end_stream().unwrap();
    assert!(c.finished());
    out.append(&mut tail);
    out
}

fn decompress_all(d: &mut SeekableDecompress) -> Vec<u8> {
    let mut out = Vec::new();
    loop {
        let chunk = d.read(65536).unwrap();
        if chunk.is_empty() {
            break;
        }
        out.extend_from_slice(&chunk);
    }
    out
}

fn check_round_trip(level: usize, frame_size: usize, n: usize) {
    let input = lines(n);
    let compressed = compress_all(level, frame_size, &input);
    match SeekableDecompress::new(compressed) {
        Ok(mut d) => {
            assert_eq!(decompress_all(&mut d), input);
        }
        Err(Error::NoFrames) => {
            // A zero-frame object is not seekable; the fallback is regular
            // whole-object decompression, and only empty input produces it.
            assert!(input.is_empty());
        }
        Err(e) => panic!("unexpected error: {:?}", e),
    }
}

#[test]
fn round_trip_level_1() {
    for &frame_size in &[64usize, 1024, 65536] {
        for &n in &[0usize, 1, 5000] {
            check_round_trip(1, frame_size, n);
        }
    }
}

#[test]
fn round_trip_level_19() {
    for &frame_size in &[64usize, 1024, 65536] {
        for &n in &[0usize, 1, 5000] {
            check_round_trip(19, frame_size, n);
        }
    }
}

#[test]
fn mid_object_seek() {
    let input = lines(5000);
    let mut offset = 0u64;
    for i in 0..2500 {
        offset += format!("This is line {}.\n", i).len() as u64;
    }
    let compressed = compress_all(1, 1024, &input);
    let mut d = SeekableDecompress::new(compressed).unwrap();
    assert_eq!(d.seek(SeekFrom::Start(offset)).unwrap(), offset);
    let mut got = Vec::new();
    while got.len() < 256 {
        let chunk = d.read(256 - got.len()).unwrap();
        assert!(!chunk.is_empty());
        got.extend_from_slice(&chunk);
    }
    assert!(got.starts_with(b"This is line 2500.\n"));
}

#[test]
fn past_end_read_returns_nothing() {
    let input = lines(100);
    let compressed = compress_all(1, 1024, &input);
    let mut d = SeekableDecompress::new(compressed).unwrap();
    let size = d.seek(SeekFrom::End(0)).unwrap();
    let past = d.seek(SeekFrom::Start(size + 1000)).unwrap();
    assert_eq!(past, size + 1000);
    let chunk = d.read(128).unwrap();
    assert!(chunk.is_empty());
}

#[test]
fn end_relative_seek_returns_size() {
    let input = lines(100);
    let total = input.len() as u64;
    let compressed = compress_all(1, 1024, &input);
    let mut d = SeekableDecompress::new(compressed).unwrap();
    assert_eq!(d.seek(SeekFrom::End(0)).unwrap(), total);
}

#[test]
fn current_relative_seek() {
    let input = lines(100);
    let compressed = compress_all(1, 1024, &input);
    let mut d = SeekableDecompress::new(compressed).unwrap();
    assert_eq!(d.seek(SeekFrom::Start(10)).unwrap(), 10);
    assert_eq!(d.seek(SeekFrom::Current(5)).unwrap(), 15);
    assert_eq!(d.seek(SeekFrom::Current(-15)).unwrap(), 0);
}

#[test]
fn negative_seek_is_invalid() {
    let input = lines(10);
    let compressed = compress_all(1, 64, &input);
    let mut d = SeekableDecompress::new(compressed).unwrap();
    assert_eq!(d.seek(SeekFrom::Current(-1)).unwrap_err(), Error::InvalidSeek);
    // The failed seek left the cursor where it was.
    let chunk = d.read(4).unwrap();
    assert_eq!(&chunk, &input[..chunk.len()]);
}

#[test]
fn garbage_input_is_a_codec_error() {
    let garbage = vec![7u8; 64];
    match SeekableDecompress::new(garbage) {
        Err(Error::ZstdSeekable(_)) => {}
        Err(e) => panic!("expected a codec error, got {:?}", e),
        Ok(_) => panic!("expected a codec error, got success"),
    }
}

#[test]
fn finalize_effect_once_whether_stepped_or_explicit() {
    let input = lines(500);
    // One explicit pass: feed everything, then drain once.
    let explicit = compress_all(3, 256, &input);

    // One pull-driven pass over the same input, chunk by chunk.
    let mut c = Compress::new(3, 256).unwrap();
    let mut stepped = Vec::new();
    for chunk in input.chunks(97) {
        match c.step(CompressEvent::Chunk(chunk.to_vec())) {
            CompressStep::Emitted(out) => stepped.extend_from_slice(&out),
            CompressStep::NeedInput => {}
            other => panic!("unexpected step outcome: {:?}", step_name(&other)),
        }
    }
    match c.step(CompressEvent::End) {
        CompressStep::Emitted(out) => stepped.extend_from_slice(&out),
        CompressStep::Done => {}
        other => panic!("unexpected step outcome: {:?}", step_name(&other)),
    }
    assert!(c.finished());
    // Demanding more after the end emits nothing and changes nothing.
    assert!(matches!(c.step(CompressEvent::End), CompressStep::Done));
    assert!(matches!(
        c.step(CompressEvent::Chunk(vec![1, 2, 3])),
        CompressStep::Done
    ));
    assert!(c.finished());

    assert_eq!(stepped, explicit);
    let mut d = SeekableDecompress::new(stepped).unwrap();
    assert_eq!(decompress_all(&mut d), input);
}

fn step_name(s: &CompressStep) -> &'static str {
    match s {
        CompressStep::Emitted(_) => "emitted",
        CompressStep::NeedInput => "need input",
        CompressStep::Done => "done",
        CompressStep::Failed(_) => "failed",
    }
}

#[test]
fn error_descriptions_are_stable() {
    assert_eq!(
        Error::NoFrames.describe(),
        "no frames found in the stream; use regular decompression"
    );
    assert_eq!(
        Error::InvalidSeek.describe(),
        "invalid seek to a negative or overflowing position"
    );
}

#[test]
fn read_is_clamped_to_what_remains() {
    let input = lines(10);
    let total = input.len() as u64;
    let compressed = compress_all(1, 64, &input);
    let mut d = SeekableDecompress::new(compressed).unwrap();
    let near_end = total - 5;
    assert_eq!(d.seek(SeekFrom::Start(near_end)).unwrap(), near_end);
    // Asking for far more than remains yields exactly the remainder.
    let chunk = d.read(4096).unwrap();
    assert_eq!(chunk.len(), 5);
    assert_eq!(&chunk, &input[input.len() - 5..]);
    assert!(d.read(4096).unwrap().is_empty());
}
