use std::io::{BufRead, BufReader, BufWriter, Cursor, Read, Result, Seek, SeekFrom, Write};

use countio::{Counter, Progress};

/// The share that a fraction reports, as the percentage the tracker stands for.
fn percentage(fraction: Option<(usize, usize)>) -> Option<f64> {
    fraction.map(|(done, expected)| (done as f64) / (expected as f64))
}

#[test]
fn test_progress_basic() {
    let progress = Progress::new(Vec::<u8>::new());
    assert_eq!(progress.total_bytes(), 0);
    assert_eq!(progress.expected_reader_bytes(), None);
    assert_eq!(progress.expected_writer_bytes(), None);

    let progress = Progress::with_expected_writer_bytes(Vec::<u8>::new(), 1000);
    assert_eq!(progress.expected_writer_bytes(), Some(1000));
    assert_eq!(progress.expected_reader_bytes(), None);

    let progress = Progress::with_expected_reader_bytes(&b"test"[..], 4);
    assert_eq!(progress.expected_reader_bytes(), Some(4));
    assert_eq!(progress.expected_writer_bytes(), None);
}

#[test]
fn test_progress_with_expected_bytes() {
    let cursor = Cursor::new(vec![0u8; 100]);
    let progress = Progress::with_expected_bytes(cursor, 100, 50);
    assert_eq!(progress.expected_reader_bytes(), Some(100));
    assert_eq!(progress.expected_writer_bytes(), Some(50));
}

#[test]
fn test_progress_writer_percentage() -> Result<()> {
    let mut progress = Progress::with_expected_writer_bytes(Vec::new(), 100);
    progress.write_all(b"Hello")?;

    assert_eq!(percentage(progress.writer_fraction()), Some(0.05));

    let zero_progress = Progress::with_expected_writer_bytes(Vec::<u8>::new(), 0);
    assert_eq!(percentage(zero_progress.writer_fraction()), Some(1.0));

    let unknown_progress = Progress::new(Vec::<u8>::new());
    assert_eq!(percentage(unknown_progress.writer_fraction()), None);

    Ok(())
}

#[test]
fn test_progress_reader_percentage() -> Result<()> {
    let data = b"Hello, World!";
    let mut progress = Progress::with_expected_reader_bytes(&data[..], 13);
    let mut buf = [0u8; 5];
    progress.read_exact(&mut buf)?;

    let pct = percentage(progress.reader_fraction()).unwrap();
    assert!((pct - 5.0 / 13.0).abs() < 0.0001);

    Ok(())
}

#[test]
fn test_progress_from_counter() {
    let counter = Counter::new(Vec::<u8>::new());
    let progress = Progress::from(counter);
    assert_eq!(progress.total_bytes(), 0);
    assert_eq!(progress.expected_reader_bytes(), None);
    assert_eq!(progress.expected_writer_bytes(), None);
}

#[test]
fn test_progress_set_expected() {
    let mut progress = Progress::new(Vec::<u8>::new());
    assert_eq!(progress.expected_writer_bytes(), None);
    assert_eq!(percentage(progress.writer_fraction()), None);

    progress.set_expected_writer_bytes(Some(100));
    assert_eq!(progress.expected_writer_bytes(), Some(100));
    assert_eq!(percentage(progress.writer_fraction()), Some(0.0));

    progress.set_expected_writer_bytes(None);
    assert_eq!(progress.expected_writer_bytes(), None);
    assert_eq!(percentage(progress.writer_fraction()), None);

    progress.set_expected_reader_bytes(Some(50));
    assert_eq!(progress.expected_reader_bytes(), Some(50));
}

#[test]
fn test_progress_percentage_edge_cases() -> Result<()> {
    let progress = Progress::with_expected_writer_bytes(Vec::<u8>::new(), 0);
    assert_eq!(percentage(progress.writer_fraction()), Some(1.0));

    let progress = Progress::with_expected_writer_bytes(Vec::<u8>::new(), usize::MAX);
    assert_eq!(percentage(progress.writer_fraction()), Some(0.0));

    let mut progress = Progress::with_expected_writer_bytes(Vec::new(), usize::MAX);
    progress.write_all(b"x")?;
    let percentage = percentage(progress.writer_fraction()).unwrap();
    assert!(percentage > 0.0 && percentage < 0.000_000_1);

    Ok(())
}

#[test]
fn test_progress_from_counter_with_existing_data() -> Result<()> {
    let mut counter = Counter::new(Vec::new());
    counter.write_all(b"existing")?;

    let progress = Progress::from(counter);
    assert_eq!(progress.total_bytes(), 8);
    assert_eq!(progress.writer_bytes(), 8);
    assert_eq!(progress.expected_writer_bytes(), None);

    Ok(())
}

#[test]
fn test_progress_large_byte_counts() -> Result<()> {
    let mut progress = Progress::with_expected_writer_bytes(Vec::new(), 1000);

    for _ in 0..100 {
        progress.write_all(b"1234567890")?;
    }

    assert_eq!(progress.writer_bytes(), 1000);
    assert_eq!(progress.total_bytes(), 1000);
    assert_eq!(percentage(progress.writer_fraction()), Some(1.0));

    Ok(())
}

#[test]
fn test_progress_reset() -> Result<()> {
    let mut progress = Progress::with_expected_writer_bytes(Vec::new(), 100);
    progress.write_all(b"Hello")?;
    assert_eq!(progress.writer_bytes(), 5);

    progress.reset();
    assert_eq!(progress.writer_bytes(), 0);
    assert_eq!(percentage(progress.writer_fraction()), Some(0.0));
    assert_eq!(progress.expected_writer_bytes(), Some(100));

    Ok(())
}

#[test]
fn test_progress_clone() -> Result<()> {
    let mut progress = Progress::with_expected_writer_bytes(Vec::new(), 100);
    progress.write_all(b"Hello")?;

    let cloned = progress.clone();
    assert_eq!(cloned.writer_bytes(), 5);
    assert_eq!(cloned.expected_writer_bytes(), Some(100));

    Ok(())
}

#[test]
fn test_progress_default() {
    let progress: Progress<Vec<u8>> = Progress::default();
    assert_eq!(progress.reader_bytes(), 0);
    assert_eq!(progress.writer_bytes(), 0);
    assert_eq!(progress.expected_reader_bytes(), None);
    assert_eq!(progress.expected_writer_bytes(), None);
}

#[test]
fn test_progress_debug() -> Result<()> {
    let mut progress = Progress::with_expected_writer_bytes(Vec::new(), 100);
    progress.write_all(b"test")?;

    let debug_str = format!("{progress:?}");
    assert!(debug_str.contains("Progress"));
    assert!(debug_str.contains("written"));
    assert!(debug_str.contains("expected_writer_bytes"));

    Ok(())
}

#[test]
fn progress_stdlib_test_reader() -> Result<()> {
    let mut reader = Progress::new(&b"Hello World!"[..]);

    let mut buf = Vec::new();
    let len = reader.read_to_end(&mut buf)?;

    assert_eq!(len, reader.reader_bytes());
    assert_eq!(len as u128, reader.total_bytes());

    Ok(())
}

#[test]
fn progress_stdlib_test_buf_reader() -> Result<()> {
    let reader = BufReader::new(&b"Hello World!"[..]);
    let mut reader = Progress::new(reader);

    let mut buf = String::new();
    let len = reader.read_line(&mut buf)?;

    assert_eq!(len, reader.reader_bytes());
    assert_eq!(len as u128, reader.total_bytes());

    Ok(())
}

#[test]
fn progress_stdlib_test_writer() -> Result<()> {
    let writer = BufWriter::new(Vec::new());
    let mut writer = Progress::new(writer);

    let len = writer.write(b"Hello World!")?;
    writer.flush()?;

    assert_eq!(len, writer.writer_bytes());
    assert_eq!(len as u128, writer.total_bytes());

    Ok(())
}

#[test]
fn progress_stdlib_test_seek() -> Result<()> {
    let data = b"Hello, World!".to_vec();
    let cursor = Cursor::new(data);
    let mut progress = Progress::with_expected_reader_bytes(cursor, 13);

    let pos = progress.seek(SeekFrom::Start(0))?;
    assert_eq!(pos, 0);

    let pos = progress.seek(SeekFrom::End(0))?;
    assert_eq!(pos, 13);

    let pos = progress.seek(SeekFrom::Current(-5))?;
    assert_eq!(pos, 8);

    assert_eq!(progress.reader_bytes(), 0);
    assert_eq!(progress.writer_bytes(), 0);
    assert_eq!(progress.total_bytes(), 0);

    Ok(())
}

#[test]
fn stdlib_test_progress_with_known_total() -> Result<()> {
    let mut progress = Progress::with_expected_writer_bytes(Vec::new(), 100);
    progress.write_all(b"Hello")?;

    assert_eq!(percentage(progress.writer_fraction()), Some(0.05));
    assert_eq!(progress.writer_bytes(), 5);
    assert_eq!(progress.total_bytes(), 5);

    Ok(())
}

#[test]
fn test_progress_edge_cases() -> Result<()> {
    let zero_progress = Progress::with_expected_writer_bytes(Vec::<u8>::new(), 0);
    assert_eq!(percentage(zero_progress.writer_fraction()), Some(1.0));

    let mut progress = Progress::with_expected_writer_bytes(Vec::new(), 100);
    let len = progress.write(&[])?;
    assert_eq!(len, 0);
    assert_eq!(progress.writer_bytes(), 0);
    assert_eq!(percentage(progress.writer_fraction()), Some(0.0));

    Ok(())
}

#[test]
fn progress_stdlib_test_zero_byte_ops() -> Result<()> {
    let mut progress = Progress::with_expected_writer_bytes(Vec::new(), 100);
    let len = progress.write(&[])?;
    assert_eq!(len, 0);
    assert_eq!(progress.writer_bytes(), 0);
    assert_eq!(progress.total_bytes(), 0);

    let mut reader = Progress::new(&b""[..]);
    let mut buf = [0u8; 10];
    let len = reader.read(&mut buf)?;
    assert_eq!(len, 0);
    assert_eq!(reader.reader_bytes(), 0);
    assert_eq!(reader.total_bytes(), 0);

    Ok(())
}
