use media_source::errors::Error;
use media_source::media_source::{MediaSource, ReadyState};
use media_source::time_ranges::{TimeRange, TimeRanges};

fn open_source() -> MediaSource {
    let mut ms = MediaSource::new();
    ms.set_ready_state(ReadyState::Open);
    ms
}

#[test]
fn time_ranges_indexing() {
    let ranges = TimeRanges::new(vec![
        TimeRange { start: 0, end: 4 },
        TimeRange { start: 6, end: 9 },
    ]);
    assert_eq!(ranges.Length(), 2);
    assert_eq!(ranges.Start(0), Ok(0));
    assert_eq!(ranges.End(0), Ok(4));
    assert_eq!(ranges.Start(1), Ok(6));
    assert_eq!(ranges.End(1), Ok(9));
    assert_eq!(ranges.Start(2), Err(Error::IndexSize));
    assert_eq!(ranges.End(2), Err(Error::IndexSize));
}

#[test]
fn empty_time_ranges() {
    let ranges = TimeRanges::new(Vec::new());
    assert_eq!(ranges.Length(), 0);
    assert_eq!(ranges.Start(0), Err(Error::IndexSize));
    assert_eq!(ranges.End(0), Err(Error::IndexSize));
}

#[test]
fn set_live_seekable_range_validation() {
    let mut closed = MediaSource::new();
    assert_eq!(closed.SetLiveSeekableRange(1, 5), Err(Error::InvalidState));
    assert_eq!(closed.ClearLiveSeekableRange(), Err(Error::InvalidState));

    let mut ms = open_source();
    // A start beyond the end is malformed.
    assert_eq!(ms.SetLiveSeekableRange(5, 2), Err(Error::Type));
    // A negative start is malformed.
    assert_eq!(ms.SetLiveSeekableRange(-1, 2), Err(Error::Type));
    assert_eq!(ms.live_seekable_range().Length(), 0);
}

#[test]
fn set_then_clear_live_seekable_range() {
    let mut ms = open_source();
    assert_eq!(ms.SetLiveSeekableRange(1, 5), Ok(()));
    let range = ms.live_seekable_range();
    assert_eq!(range.Length(), 1);
    assert_eq!(range.Start(0), Ok(1));
    assert_eq!(range.End(0), Ok(5));

    assert_eq!(ms.ClearLiveSeekableRange(), Ok(()));
    assert_eq!(ms.live_seekable_range().Length(), 0);
    // Clearing an already-empty range is a permitted no-op.
    assert_eq!(ms.ClearLiveSeekableRange(), Ok(()));
    assert_eq!(ms.live_seekable_range().Length(), 0);
}

#[test]
fn set_live_seekable_range_replaces_wholesale() {
    let mut ms = open_source();
    assert_eq!(ms.SetLiveSeekableRange(1, 5), Ok(()));
    assert_eq!(ms.SetLiveSeekableRange(10, 12), Ok(()));
    let range = ms.live_seekable_range();
    assert_eq!(range.Length(), 1);
    assert_eq!(range.Start(0), Ok(10));
    assert_eq!(range.End(0), Ok(12));
    // A degenerate interval with start == end is accepted and stored.
    assert_eq!(ms.SetLiveSeekableRange(3, 3), Ok(()));
    assert_eq!(ms.live_seekable_range().Length(), 1);
}

#[test]
fn live_seekable_range_reads_empty_unless_open() {
    let mut ms = open_source();
    assert_eq!(ms.SetLiveSeekableRange(1, 5), Ok(()));
    assert_eq!(ms.EndOfStream(None), Ok(()));
    // A non-empty live range is only ever observable while open.
    assert_eq!(ms.live_seekable_range().Length(), 0);
    ms.set_ready_state(ReadyState::Open);
    assert_eq!(ms.live_seekable_range().Length(), 1);
}
