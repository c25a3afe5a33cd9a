use media_source::errors::{EndOfStreamError, Error};
use media_source::events::{EventName, Notification, NotificationTarget};
use media_source::media_source::{MediaSource, ReadyState};
use media_source::source_buffer_list::ListMode;
use media_source::source_buffer_list::SourceBufferList;
use media_source::time::MediaTime;

fn open_source() -> MediaSource {
    let mut ms = MediaSource::new();
    ms.set_ready_state(ReadyState::Open);
    ms
}

#[test]
fn constructor_yields_a_closed_source() {
    let ms = MediaSource::Constructor().unwrap();
    assert_eq!(ms.ReadyState(), ReadyState::Closed);
    assert_eq!(ms.Duration(), MediaTime::Nan);
    assert_eq!(ms.SourceBuffers().Length(&ms), 0);
    assert_eq!(ms.live_seekable_range().Length(), 0);
}

#[test]
fn add_buffer_fails_invalid_state_unless_open() {
    let mut ms = MediaSource::new();
    assert_eq!(ms.AddSourceBuffer("video/mp4"), Err(Error::InvalidState));

    let mut ms = open_source();
    assert!(ms.EndOfStream(None).is_ok());
    assert_eq!(ms.ReadyState(), ReadyState::Ended);
    assert_eq!(ms.AddSourceBuffer("video/mp4"), Err(Error::InvalidState));
}

#[test]
fn add_buffer_increases_all_count_by_one() {
    let mut ms = open_source();
    let all = ms.SourceBuffers();
    assert_eq!(all.Length(&ms), 0);
    let first = ms.AddSourceBuffer("video/mp4").unwrap();
    assert_eq!(all.Length(&ms), 1);
    let second = ms.AddSourceBuffer("audio/ogg").unwrap();
    assert_eq!(all.Length(&ms), 2);
    assert_ne!(first, second);
}

#[test]
fn add_buffer_validation_order() {
    let mut ms = MediaSource::new();
    // The empty-descriptor check precedes every other check.
    assert_eq!(ms.AddSourceBuffer(""), Err(Error::Type));
    // An unrecognized descriptor is reported before the state check.
    assert_eq!(ms.AddSourceBuffer("no slash here"), Err(Error::NotSupported));
}

#[test]
fn is_type_supported_follows_the_parser() {
    assert!(MediaSource::IsTypeSupported("video/mp4"));
    assert!(MediaSource::IsTypeSupported("*/*"));
    assert!(!MediaSource::IsTypeSupported(""));
    assert!(!MediaSource::IsTypeSupported("no slash here"));
}

#[test]
fn remove_buffer_not_found_for_unknown_handle() {
    let mut ms = MediaSource::new();
    assert_eq!(ms.RemoveSourceBuffer(0), Err(Error::NotFound));

    let mut ms = open_source();
    assert_eq!(ms.RemoveSourceBuffer(0), Err(Error::NotFound));

    let b = ms.AddSourceBuffer("video/mp4").unwrap();
    assert_eq!(ms.RemoveSourceBuffer(b), Ok(()));
    // Removing the same buffer again fails: handles are never reused.
    assert_eq!(ms.RemoveSourceBuffer(b), Err(Error::NotFound));

    assert!(ms.EndOfStream(None).is_ok());
    assert_eq!(ms.RemoveSourceBuffer(b), Err(Error::NotFound));
}

fn notification(target: NotificationTarget, name: EventName) -> Notification {
    Notification { target, name }
}

#[test]
fn remove_updating_active_buffer_event_order() {
    let mut ms = open_source();
    let b = ms.AddSourceBuffer("video/mp4").unwrap();
    ms.take_pending();
    ms.set_buffer_updating(b, true).unwrap();
    ms.set_buffer_active(b, true).unwrap();
    assert_eq!(ms.RemoveSourceBuffer(b), Ok(()));
    let pending = ms.take_pending();
    assert_eq!(
        pending,
        vec![
            notification(NotificationTarget::Buffer(b), EventName::Abort),
            notification(NotificationTarget::Buffer(b), EventName::UpdateEnd),
            notification(NotificationTarget::ActiveBuffers, EventName::RemoveSourceBuffer),
            notification(NotificationTarget::AllBuffers, EventName::RemoveSourceBuffer),
        ]
    );
}

#[test]
fn remove_updating_inactive_buffer_event_order() {
    let mut ms = open_source();
    let b = ms.AddSourceBuffer("video/mp4").unwrap();
    ms.take_pending();
    ms.set_buffer_updating(b, true).unwrap();
    assert_eq!(ms.RemoveSourceBuffer(b), Ok(()));
    let pending = ms.take_pending();
    assert_eq!(
        pending,
        vec![
            notification(NotificationTarget::Buffer(b), EventName::Abort),
            notification(NotificationTarget::Buffer(b), EventName::UpdateEnd),
            notification(NotificationTarget::AllBuffers, EventName::RemoveSourceBuffer),
        ]
    );
}

#[test]
fn remove_plain_buffer_enqueues_single_notification() {
    let mut ms = open_source();
    let b = ms.AddSourceBuffer("video/mp4").unwrap();
    ms.take_pending();
    assert_eq!(ms.RemoveSourceBuffer(b), Ok(()));
    let pending = ms.take_pending();
    assert_eq!(
        pending,
        vec![notification(NotificationTarget::AllBuffers, EventName::RemoveSourceBuffer)]
    );
}

#[test]
fn set_duration_idempotent_for_current_value() {
    let mut ms = open_source();
    assert_eq!(ms.SetDuration(MediaTime::Finite(5)), Ok(()));
    assert_eq!(ms.Duration(), MediaTime::Finite(5));
    assert!(ms.take_pending().is_empty());
    // Storing the already-current value is a no-op with no side effect.
    assert_eq!(ms.SetDuration(MediaTime::Finite(5)), Ok(()));
    assert_eq!(ms.Duration(), MediaTime::Finite(5));
    assert!(ms.take_pending().is_empty());
}

#[test]
fn set_duration_rejects_negative_and_nan_in_every_state() {
    let mut closed = MediaSource::new();
    assert_eq!(closed.SetDuration(MediaTime::Finite(-1)), Err(Error::Type));
    assert_eq!(closed.SetDuration(MediaTime::Nan), Err(Error::Type));
    assert_eq!(closed.SetDuration(MediaTime::NegInfinity), Err(Error::Type));

    let mut open = open_source();
    assert_eq!(open.SetDuration(MediaTime::Finite(-1)), Err(Error::Type));
    assert_eq!(open.SetDuration(MediaTime::Nan), Err(Error::Type));

    let mut ended = open_source();
    assert!(ended.EndOfStream(None).is_ok());
    assert_eq!(ended.SetDuration(MediaTime::Finite(-1)), Err(Error::Type));
    assert_eq!(ended.SetDuration(MediaTime::Nan), Err(Error::Type));
}

#[test]
fn set_duration_requires_open_and_no_active_buffer() {
    let mut ms = MediaSource::new();
    assert_eq!(ms.SetDuration(MediaTime::Finite(1)), Err(Error::InvalidState));

    let mut ended = open_source();
    assert_eq!(ended.EndOfStream(None), Ok(()));
    assert_eq!(ended.SetDuration(MediaTime::Finite(1)), Err(Error::InvalidState));

    let mut ms = open_source();
    let b = ms.AddSourceBuffer("video/mp4").unwrap();
    ms.set_buffer_active(b, true).unwrap();
    assert_eq!(ms.SetDuration(MediaTime::Finite(1)), Err(Error::InvalidState));
    ms.set_buffer_active(b, false).unwrap();
    assert_eq!(ms.SetDuration(MediaTime::Finite(1)), Ok(()));
    // An unbounded duration passes validation.
    assert_eq!(ms.SetDuration(MediaTime::Infinity), Ok(()));
    assert_eq!(ms.Duration(), MediaTime::Infinity);
}

#[test]
fn duration_reads_nan_while_closed() {
    let mut ms = MediaSource::new();
    assert_eq!(ms.Duration(), MediaTime::Nan);
    ms.set_ready_state(ReadyState::Open);
    assert_eq!(ms.SetDuration(MediaTime::Finite(5)), Ok(()));
    assert_eq!(ms.Duration(), MediaTime::Finite(5));
    // The stored value is hidden again as soon as the source closes.
    ms.set_ready_state(ReadyState::Closed);
    assert_eq!(ms.Duration(), MediaTime::Nan);
    ms.set_ready_state(ReadyState::Open);
    assert_eq!(ms.Duration(), MediaTime::Finite(5));
}

#[test]
fn end_of_stream_requires_open_and_no_updating_buffer() {
    let mut ms = MediaSource::new();
    assert_eq!(ms.EndOfStream(None), Err(Error::InvalidState));

    let mut ms = open_source();
    let b = ms.AddSourceBuffer("video/mp4").unwrap();
    ms.set_buffer_updating(b, true).unwrap();
    assert_eq!(ms.EndOfStream(None), Err(Error::InvalidState));
    ms.set_buffer_updating(b, false).unwrap();
    assert_eq!(ms.EndOfStream(None), Ok(()));
    assert_eq!(ms.ReadyState(), ReadyState::Ended);
    // A second signal fails: the source is no longer open.
    assert_eq!(ms.EndOfStream(None), Err(Error::InvalidState));
}

fn count_active_by_scan(ms: &MediaSource) -> u32 {
    let all = SourceBufferList::new(ListMode::All);
    let mut count = 0;
    let mut index = 0;
    while let Some(buffer) = all.IndexedGetter(ms, index) {
        if buffer.active {
            count += 1;
        }
        index += 1;
    }
    count
}

#[test]
fn active_list_length_matches_active_count_after_every_mutation() {
    let mut ms = open_source();
    let active = ms.ActiveSourceBuffers();
    let mut ids: Vec<u64> = Vec::new();
    // A deterministic linear congruential generator drives the op sequence.
    let mut state: u64 = 0x2545F4914F6CDD1D;
    for _ in 0..200 {
        state = state
            .wrapping_mul(6364136223846793005)
            .wrapping_add(1442695040888963407);
        let choice = (state >> 33) % 4;
        match choice {
            0 => {
                let id = ms.AddSourceBuffer("video/mp4").unwrap();
                ids.push(id);
            }
            1 => {
                if !ids.is_empty() {
                    let id = ids.remove(((state >> 5) as usize) % ids.len());
                    assert_eq!(ms.RemoveSourceBuffer(id), Ok(()));
                }
            }
            2 => {
                if !ids.is_empty() {
                    let id = ids[((state >> 7) as usize) % ids.len()];
                    ms.set_buffer_active(id, state & 1 == 0).unwrap();
                }
            }
            _ => {
                if !ids.is_empty() {
                    let id = ids[((state >> 9) as usize) % ids.len()];
                    ms.set_buffer_updating(id, state & 1 == 0).unwrap();
                }
            }
        }
        assert_eq!(active.Length(&ms), count_active_by_scan(&ms));
        assert_eq!(ms.SourceBuffers().Length(&ms), ids.len() as u32);
    }
}

#[test]
fn indexed_getter_presents_filtered_collection_order() {
    let mut ms = open_source();
    let first = ms.AddSourceBuffer("video/mp4").unwrap();
    let second = ms.AddSourceBuffer("audio/ogg").unwrap();
    let third = ms.AddSourceBuffer("video/webm").unwrap();
    ms.set_buffer_active(first, true).unwrap();
    ms.set_buffer_active(third, true).unwrap();

    let all = ms.SourceBuffers();
    assert_eq!(all.IndexedGetter(&ms, 0).unwrap().id, first);
    assert_eq!(all.IndexedGetter(&ms, 1).unwrap().id, second);
    assert_eq!(all.IndexedGetter(&ms, 2).unwrap().id, third);
    assert!(all.IndexedGetter(&ms, 3).is_none());

    let active = ms.ActiveSourceBuffers();
    assert_eq!(active.Length(&ms), 2);
    assert_eq!(active.IndexedGetter(&ms, 0).unwrap().id, first);
    assert_eq!(active.IndexedGetter(&ms, 1).unwrap().id, third);
    assert!(active.IndexedGetter(&ms, 2).is_none());
}

#[test]
fn get_buffer_reports_flags() {
    let mut ms = open_source();
    let b = ms.AddSourceBuffer("video/mp4").unwrap();
    let fresh = ms.get_buffer(b).unwrap();
    assert!(!fresh.updating);
    assert!(!fresh.active);
    ms.set_buffer_updating(b, true).unwrap();
    assert!(ms.get_buffer(b).unwrap().updating);
    assert_eq!(ms.set_buffer_active(42, true), Err(Error::NotFound));
    assert!(ms.get_buffer(42).is_none());
}

#[test]
fn end_to_end_lifecycle() {
    let mut ms = MediaSource::new();
    ms.set_ready_state(ReadyState::Open);
    let b = ms.AddSourceBuffer("valid/type").unwrap();
    assert!(ms.get_buffer(b).is_some());
    assert_eq!(ms.SourceBuffers().Length(&ms), 1);
    assert_eq!(ms.EndOfStream(None), Ok(()));
    assert_eq!(ms.ReadyState(), ReadyState::Ended);
    assert_eq!(ms.AddSourceBuffer("valid/type"), Err(Error::InvalidState));
    let pending = ms.take_pending();
    assert_eq!(
        pending,
        vec![
            notification(NotificationTarget::AllBuffers, EventName::AddSourceBuffer),
            notification(NotificationTarget::MediaSource, EventName::SourceEnded),
        ]
    );
    assert!(ms.take_pending().is_empty());
}

#[test]
fn end_of_stream_error_code_does_not_change_the_transition() {
    let mut ms = open_source();
    assert_eq!(ms.EndOfStream(Some(EndOfStreamError::Network)), Ok(()));
    assert_eq!(ms.ReadyState(), ReadyState::Ended);

    let mut ms = open_source();
    assert_eq!(ms.EndOfStream(Some(EndOfStreamError::Decode)), Ok(()));
    assert_eq!(ms.ReadyState(), ReadyState::Ended);
}
