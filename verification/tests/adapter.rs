use reqwest_client::adapter::{ByteStreamAdapter, Pulled, DEFAULT_CHUNK_CAPACITY};
use reqwest_client::source::{ByteSource, ReadError, SourceEvent, SyncReader};

/// A byte source driven by a prepared list of events, handed out in order;
/// pulled past its script, it reports a source failure.
struct ScriptedSource {
    events: Vec<SourceEvent>,
    at: usize,
}

impl ScriptedSource {
    fn new(events: Vec<SourceEvent>) -> ScriptedSource {
        ScriptedSource { events, at: 0 }
    }
}

impl ByteSource for ScriptedSource {
    fn pull(&mut self) -> SourceEvent {
        if self.at >= self.events.len() {
            return SourceEvent::Failed(ReadError::Source);
        }
        let e = std::mem::replace(&mut self.events[self.at], SourceEvent::End);
        self.at += 1;
        e
    }
}

fn drain(a: &mut ByteStreamAdapter) -> (Vec<u8>, Option<ReadError>) {
    let mut all = Vec::new();
    loop {
        match a.next() {
            Pulled::Chunk(c) => all.extend_from_slice(&c),
            Pulled::Done => return (all, None),
            Pulled::Failed(e) => return (all, Some(e)),
        }
    }
}

#[test]
fn empty_source_first_pull_is_terminal_empty() {
    let mut a = ByteStreamAdapter::new(Box::new(SyncReader::new(Vec::new())));
    assert!(a.active());
    assert!(matches!(a.next(), Pulled::Done));
    assert!(!a.active());
    assert!(!a.failed());
    assert!(matches!(a.next(), Pulled::Done));
}

#[test]
fn in_memory_chunks_concat_to_the_source_bytes() {
    let data: Vec<u8> = (0u8..100).collect();
    let mut a = ByteStreamAdapter::new(Box::new(SyncReader::new(data.clone())));
    let (all, err) = drain(&mut a);
    assert_eq!(all, data);
    assert!(err.is_none());
    assert!(!a.failed());
}

#[test]
fn chunks_never_exceed_the_capacity() {
    let data: Vec<u8> = (0u8..10).collect();
    let mut a = ByteStreamAdapter::with_capacity(Box::new(SyncReader::new(data.clone())), 4);
    let mut chunks = Vec::new();
    loop {
        match a.next() {
            Pulled::Chunk(c) => {
                assert!(c.len() >= 1 && c.len() <= 4);
                chunks.push(c);
            }
            Pulled::Done => break,
            Pulled::Failed(_) => panic!("no failure was scripted"),
        }
    }
    assert_eq!(chunks.len(), 3);
    assert_eq!(chunks[0], vec![0, 1, 2, 3]);
    assert_eq!(chunks[1], vec![4, 5, 6, 7]);
    assert_eq!(chunks[2], vec![8, 9]);
}

#[test]
fn scripted_events_concat_in_order() {
    let src = ScriptedSource::new(vec![
        SourceEvent::Data(vec![1, 2]),
        SourceEvent::Data(vec![3]),
        SourceEvent::End,
    ]);
    let mut a = ByteStreamAdapter::new(Box::new(src));
    assert!(matches!(a.next(), Pulled::Chunk(c) if c == vec![1, 2]));
    assert!(matches!(a.next(), Pulled::Chunk(c) if c == vec![3]));
    assert!(matches!(a.next(), Pulled::Done));
    assert!(!a.failed());
}

#[test]
fn zero_byte_read_means_end_of_input() {
    let src = ScriptedSource::new(vec![SourceEvent::Data(Vec::new())]);
    let mut a = ByteStreamAdapter::new(Box::new(src));
    assert!(matches!(a.next(), Pulled::Done));
    assert!(!a.active());
    assert!(!a.failed());
}

#[test]
fn terminal_empty_is_idempotent() {
    let src = ScriptedSource::new(vec![SourceEvent::Data(vec![7]), SourceEvent::End]);
    let mut a = ByteStreamAdapter::new(Box::new(src));
    assert!(matches!(a.next(), Pulled::Chunk(c) if c == vec![7]));
    assert!(matches!(a.next(), Pulled::Done));
    for _ in 0..5 {
        assert!(matches!(a.next(), Pulled::Done));
        assert!(!a.failed());
    }
}

#[test]
fn error_surfaces_exactly_once_then_terminal() {
    let src = ScriptedSource::new(vec![
        SourceEvent::Data(vec![5]),
        SourceEvent::Failed(ReadError::TimedOut),
    ]);
    let mut a = ByteStreamAdapter::new(Box::new(src));
    assert!(matches!(a.next(), Pulled::Chunk(c) if c == vec![5]));
    assert!(matches!(a.next(), Pulled::Failed(ReadError::TimedOut)));
    assert!(a.failed());
    for _ in 0..5 {
        assert!(matches!(a.next(), Pulled::Done));
        assert!(a.failed());
    }
}

#[test]
fn oversized_event_is_split_without_pulling_again() {
    // The script ends after one event: a second pull would yield a failure,
    // so three clean chunks show the leftover was buffered, not re-read.
    let src = ScriptedSource::new(vec![SourceEvent::Data(vec![1, 2, 3, 4, 5])]);
    let mut a = ByteStreamAdapter::with_capacity(Box::new(src), 2);
    assert!(matches!(a.next(), Pulled::Chunk(c) if c == vec![1, 2]));
    assert!(matches!(a.next(), Pulled::Chunk(c) if c == vec![3, 4]));
    assert!(matches!(a.next(), Pulled::Chunk(c) if c == vec![5]));
    assert!(matches!(a.next(), Pulled::Failed(ReadError::Source)));
}

#[test]
fn sync_reader_yields_everything_once() {
    let mut r = SyncReader::new(vec![10, 20, 30]);
    assert!(matches!(r.take_all(), SourceEvent::Data(d) if d == vec![10, 20, 30]));
    assert!(matches!(r.take_all(), SourceEvent::End));
    assert!(matches!(r.take_all(), SourceEvent::End));
}

#[test]
fn sync_reader_of_nothing_ends_immediately() {
    let mut r = SyncReader::new(Vec::new());
    assert!(matches!(r.take_all(), SourceEvent::End));
}

#[test]
fn the_smallest_capacity_emits_byte_by_byte() {
    let mut a = ByteStreamAdapter::with_capacity(Box::new(SyncReader::new(vec![1, 2, 3])), 1);
    assert!(matches!(a.next(), Pulled::Chunk(c) if c == vec![1]));
    assert!(matches!(a.next(), Pulled::Chunk(c) if c == vec![2]));
    assert!(matches!(a.next(), Pulled::Chunk(c) if c == vec![3]));
    assert!(matches!(a.next(), Pulled::Done));
}

#[test]
fn default_capacity_bounds_chunks() {
    let data: Vec<u8> = vec![9; DEFAULT_CHUNK_CAPACITY + 1];
    let mut a = ByteStreamAdapter::new(Box::new(SyncReader::new(data.clone())));
    match a.next() {
        Pulled::Chunk(c) => assert_eq!(c.len(), DEFAULT_CHUNK_CAPACITY),
        _ => panic!("a chunk was expected"),
    }
    match a.next() {
        Pulled::Chunk(c) => assert_eq!(c, vec![9]),
        _ => panic!("a chunk was expected"),
    }
    assert!(matches!(a.next(), Pulled::Done));
}
