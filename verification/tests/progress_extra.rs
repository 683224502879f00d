//! Checks of the progress tracker on concrete values: its documented examples,
//! its laws and its edge cases.

use std::io::{BufRead, BufReader, Cursor, Read, Write};

use countio::{Counter, Progress};

#[test]
fn progress_readme_bidirectional() {
    let mut data = vec![0u8; 100];
    let cursor = Cursor::new(&mut data);
    let mut progress = Progress::with_expected_bytes(cursor, 50, 50);

    progress.write_all(b"Hello").unwrap();
    assert_eq!(progress.writer_bytes(), 5);
    assert_eq!(progress.writer_fraction(), Some((5, 50)));

    progress.get_mut().set_position(0);
    let mut buf = [0u8; 5];
    progress.read_exact(&mut buf).unwrap();
    assert_eq!(&buf, b"Hello");
    assert_eq!(progress.reader_bytes(), 5);
    assert_eq!(progress.reader_fraction(), Some((5, 50)));
}

#[test]
fn progress_fraction_cases() {
    let progress = Progress::new(());
    assert_eq!(progress.reader_fraction(), None);
    assert_eq!(progress.writer_fraction(), None);

    let progress = Progress::with_expected_bytes((), 0, 0);
    assert_eq!(progress.reader_fraction(), Some((1, 1)));
    assert_eq!(progress.writer_fraction(), Some((1, 1)));

    let mut progress = Progress::with_expected_bytes((), 8, 4);
    progress.count_read(2);
    progress.count_write(6);
    assert_eq!(progress.reader_fraction(), Some((2, 8)));
    assert_eq!(progress.writer_fraction(), Some((4, 4)));
    assert_eq!(progress.total_bytes(), 8);
}

#[test]
fn progress_reset_keeps_expectations() {
    let mut progress = Progress::with_expected_bytes((), 10, 20);
    progress.count_read(3);
    progress.count_write(4);
    progress.reset();
    assert_eq!(progress.reader_bytes(), 0);
    assert_eq!(progress.writer_bytes(), 0);
    assert_eq!(progress.expected_reader_bytes(), Some(10));
    assert_eq!(progress.expected_writer_bytes(), Some(20));
    assert_eq!(progress.reader_fraction(), Some((0, 10)));
    assert_eq!(progress.writer_fraction(), Some((0, 20)));
}

#[test]
fn progress_from_counter_keeps_tallies() {
    let counter = Counter::with_bytes(vec![1u8], 3, 5);
    let progress = Progress::from(counter);
    assert_eq!(progress.reader_bytes(), 3);
    assert_eq!(progress.writer_bytes(), 5);
    assert_eq!(progress.total_bytes(), 8);
    assert_eq!(progress.expected_reader_bytes(), None);
    assert_eq!(progress.into_inner(), vec![1u8]);
}

#[test]
fn progress_consume_counts() {
    let mut progress = Progress::with_expected_reader_bytes(BufReader::new(&b"abcdef"[..]), 6);
    assert_eq!(progress.fill_buf().unwrap().len(), 6);
    assert_eq!(progress.reader_bytes(), 0);
    progress.consume(3);
    assert_eq!(progress.reader_bytes(), 3);
    assert_eq!(progress.reader_fraction(), Some((3, 6)));
}

#[test]
fn progress_get_mut_is_not_counted() {
    let mut progress = Progress::with_expected_writer_bytes(Vec::new(), 4);
    progress.get_mut().extend_from_slice(b"abcd");
    assert_eq!(progress.writer_bytes(), 0);
    assert_eq!(progress.writer_fraction(), Some((0, 4)));
    assert_eq!(progress.get_ref(), b"abcd");
}

#[test]
fn progress_clone_keeps_state() {
    let mut progress = Progress::with_expected_bytes(vec![9u8], 2, 3);
    progress.count_read(1);
    let copy = progress.clone();
    assert_eq!(copy.reader_bytes(), 1);
    assert_eq!(copy.expected_reader_bytes(), Some(2));
    assert_eq!(copy.expected_writer_bytes(), Some(3));
    assert_eq!(copy.get_ref(), &vec![9u8]);
}

#[test]
fn progress_debug_shows_expectations() {
    let progress = Progress::with_expected_writer_bytes(Vec::<u8>::new(), 100);
    assert_eq!(
        format!("{progress:?}"),
        "Progress { counter: Counter { inner: [], read: 0, written: 0 }, expected_reader_bytes: None, expected_writer_bytes: Some(100) }"
    );
}

#[test]
fn progress_fraction_stays_at_most_one() {
    let mut progress = Progress::with_expected_reader_bytes(&b"Hello, World!"[..], 5);
    let mut buf = Vec::new();
    progress.read_to_end(&mut buf).unwrap();
    assert_eq!(progress.reader_bytes(), 13);
    assert_eq!(progress.reader_fraction(), Some((5, 5)));
}

#[test]
fn progress_record_hands_results_on() {
    let mut progress = Progress::with_expected_bytes((), 10, 10);
    assert_eq!(progress.record_read(Ok(4)).unwrap(), 4);
    assert_eq!(progress.record_write(Ok(3)).unwrap(), 3);
    let err = progress.record_write(Err(std::io::Error::other("full"))).unwrap_err();
    assert_eq!(err.to_string(), "full");
    assert!(progress.record_filled(Ok(()), 2, 7).is_ok());
    assert_eq!(progress.reader_bytes(), 9);
    assert_eq!(progress.writer_bytes(), 3);
    assert_eq!(progress.expected_reader_bytes(), Some(10));
}
