use vstd::prelude::*;

use crate::errors::{EndOfStreamError, Error};
use crate::events::{EventName, Notification, NotificationTarget};
use crate::source_buffer::SourceBuffer;
use crate::source_buffer_list::{ListMode, SourceBufferList};
use crate::time::MediaTime;
use crate::time_ranges::{ranges_wf, TimeRange, TimeRanges};

verus! {

/// The aggregator's top-level lifecycle phase, gating which operations are
/// legal.
#[derive(Clone, Copy, Debug, PartialEq, Eq, Structural)]
pub enum ReadyState {
    /// The initial phase: no media element is attached.
    Closed,
    /// Buffers may be added and mutated.
    Open,
    /// End of stream was signalled; reopening is a collaborator-driven
    /// transition through `set_ready_state`.
    Ended,
}

/// The mathematical state of an aggregator: the contracts of every
/// operation are stated as functions over this model.
#[verifier::ext_equal]
pub ghost struct Model {
    /// The owned buffers, in insertion order.
    pub buffers: Seq<SourceBuffer>,
    /// The current lifecycle phase.
    pub ready_state: ReadyState,
    /// The stored duration; only meaningfully read while not closed.
    pub duration: MediaTime,
    /// The stored live-seekable range.
    pub live_seekable_range: Seq<TimeRange>,
    /// The outgoing queue of notifications not yet handed to the drain loop.
    pub pending: Seq<Notification>,
    /// The handle the next created buffer will receive; handles are never
    /// reused.
    pub next_id: u64,
}

/// The index of the first buffer with handle `id`, or `-1` when no owned
/// buffer has that handle.
pub open spec fn position_of(s: Seq<SourceBuffer>, id: u64) -> int
    decreases s.len(),
{
    if s.len() == 0 {
        -1
    } else if s[0].id == id {
        0
    } else {
        let p = position_of(s.drop_first(), id);
        if p < 0 {
            -1
        } else {
            p + 1
        }
    }
}

/// Whether some owned buffer carries the handle `id`.
pub open spec fn contains_id(s: Seq<SourceBuffer>, id: u64) -> bool {
    position_of(s, id) >= 0
}

/// Whether some buffer has contributed decodable samples at the playback
/// position.
pub open spec fn has_active(s: Seq<SourceBuffer>) -> bool {
    exists|i: int| 0 <= i < s.len() && (#[trigger] s[i]).active
}

/// Whether some buffer has an asynchronous append in flight.
pub open spec fn has_updating(s: Seq<SourceBuffer>) -> bool {
    exists|i: int| 0 <= i < s.len() && (#[trigger] s[i]).updating
}

impl Model {
    /// Validity of an aggregator state: handles are unique and below the
    /// next handle to be issued, and the stored live range is a well-formed
    /// time-range set.
    pub open spec fn wf(self) -> bool {
        &&& forall|i: int|
            0 <= i < self.buffers.len() ==> (#[trigger] self.buffers[i]).id < self.next_id
        &&& forall|i: int, j: int|
            0 <= i < j < self.buffers.len() ==> (#[trigger] self.buffers[i]).id != (
            #[trigger] self.buffers[j]).id
        &&& ranges_wf(self.live_seekable_range)
    }

    /// The state of a freshly constructed aggregator.
    pub open spec fn initial() -> Model {
        Model {
            buffers: Seq::empty(),
            ready_state: ReadyState::Closed,
            duration: MediaTime::Nan,
            live_seekable_range: Seq::empty(),
            pending: Seq::empty(),
            next_id: 0,
        }
    }
}

/// What a duration read returns: `Nan` while closed, regardless of the
/// stored value, and the stored value otherwise.
pub open spec fn duration_read(m: Model) -> MediaTime {
    if m.ready_state is Closed {
        MediaTime::Nan
    } else {
        m.duration
    }
}

/// What a live-seekable-range read returns: the stored range while open,
/// the empty set otherwise, so an observed non-empty range implies the open
/// state.
pub open spec fn live_range_read(m: Model) -> Seq<TimeRange> {
    if m.ready_state is Open {
        m.live_seekable_range
    } else {
        Seq::empty()
    }
}

/// Whether the outside media-type parser recognizes a descriptor; the
/// parse result is a function of the descriptor's characters alone.
pub uninterp spec fn recognized_media_type(descriptor: Seq<char>) -> bool;

/// mime's parsed media type, carried opaquely: this library reads nothing
/// out of it and only hands it to the compatibility policy hook.
#[verifier::external_type_specification]
#[verifier::external_body]
pub struct ExMime(mime::Mime);

/// Relies on mime's `FromStr` for `Mime`: whether a descriptor parses as a
/// media type depends on its characters alone.
#[verifier::external_body]
fn parse_mime_type(input: &str) -> (r: Option<mime::Mime>)
    ensures
        r is Some <==> recognized_media_type(input@),
{
    input.parse::<mime::Mime>().ok()
}

/// The outcome of `AddSourceBuffer`, checked in validation order: an empty
/// descriptor, then an unrecognized (or incompatible) descriptor, then a
/// readiness state other than open; on success the handle of the new
/// buffer.
pub open spec fn add_buffer_result(m: Model, descriptor: Seq<char>) -> Result<u64, Error> {
    if descriptor.len() == 0 {
        Err(Error::Type)
    } else if !recognized_media_type(descriptor) {
        Err(Error::NotSupported)
    } else if !(m.ready_state is Open) {
        Err(Error::InvalidState)
    } else {
        Ok(m.next_id)
    }
}

/// The buffer that a successful `AddSourceBuffer` creates.
pub open spec fn new_buffer(m: Model) -> SourceBuffer {
    SourceBuffer { id: m.next_id, updating: false, active: false }
}

/// The state after `AddSourceBuffer`: on success the new buffer is
/// appended, the next handle advances, and an `addsourcebuffer`
/// notification aimed at the all-buffers list is enqueued; on failure
/// nothing changes.
pub open spec fn add_buffer_model(m: Model, descriptor: Seq<char>) -> Model {
    if add_buffer_result(m, descriptor) is Ok {
        Model {
            buffers: m.buffers.push(new_buffer(m)),
            pending: m.pending.push(
                Notification {
                    target: NotificationTarget::AllBuffers,
                    name: EventName::AddSourceBuffer,
                },
            ),
            next_id: (m.next_id + 1) as u64,
            ..m
        }
    } else {
        m
    }
}

/// The outcome of an operation that must name an owned buffer: `NotFound`
/// exactly when no owned buffer carries the handle, whatever the readiness
/// state.
pub open spec fn owned_check(m: Model, id: u64) -> Result<(), Error> {
    if contains_id(m.buffers, id) {
        Ok(())
    } else {
        Err(Error::NotFound)
    }
}

/// The notifications that removing `b` enqueues, in order: `abort` then
/// `updateend` at the buffer when an append was in flight, then
/// `removesourcebuffer` at the active-buffers list when the buffer was
/// active, then `removesourcebuffer` at the all-buffers list.
pub open spec fn removal_notifications(b: SourceBuffer) -> Seq<Notification> {
    let aborts: Seq<Notification> = if b.updating {
        seq![
            Notification { target: NotificationTarget::Buffer(b.id), name: EventName::Abort },
            Notification { target: NotificationTarget::Buffer(b.id), name: EventName::UpdateEnd },
        ]
    } else {
        Seq::empty()
    };
    let actives: Seq<Notification> = if b.active {
        seq![
            Notification {
                target: NotificationTarget::ActiveBuffers,
                name: EventName::RemoveSourceBuffer,
            },
        ]
    } else {
        Seq::empty()
    };
    aborts + actives + seq![
        Notification {
            target: NotificationTarget::AllBuffers,
            name: EventName::RemoveSourceBuffer,
        },
    ]
}

/// The state after `RemoveSourceBuffer`: when the handle is owned, the
/// buffer leaves the collection and the removal notifications are appended
/// in order; otherwise nothing changes.
pub open spec fn remove_buffer_model(m: Model, id: u64) -> Model {
    if contains_id(m.buffers, id) {
        let p = position_of(m.buffers, id);
        Model {
            buffers: m.buffers.remove(p),
            pending: m.pending + removal_notifications(m.buffers[p]),
            ..m
        }
    } else {
        m
    }
}

/// The outcome of `SetDuration`: a negative or not-a-number value is a
/// `Type` error whatever the state; otherwise the state must be open and no
/// buffer may be active.
pub open spec fn set_duration_result(m: Model, value: MediaTime) -> Result<(), Error> {
    if value.spec_is_negative() || value.spec_is_nan() {
        Err(Error::Type)
    } else if !(m.ready_state is Open) {
        Err(Error::InvalidState)
    } else if has_active(m.buffers) {
        Err(Error::InvalidState)
    } else {
        Ok(())
    }
}

/// The state after `SetDuration`: on success the duration is stored,
/// except that storing the already-current value is a no-op; on failure
/// nothing changes. No notification is enqueued either way.
pub open spec fn set_duration_model(m: Model, value: MediaTime) -> Model {
    if set_duration_result(m, value) is Ok && value != m.duration {
        Model { duration: value, ..m }
    } else {
        m
    }
}

/// The outcome of `EndOfStream`: the state must be open and no buffer may
/// have an append in flight.
pub open spec fn end_of_stream_result(m: Model) -> Result<(), Error> {
    if !(m.ready_state is Open) {
        Err(Error::InvalidState)
    } else if has_updating(m.buffers) {
        Err(Error::InvalidState)
    } else {
        Ok(())
    }
}

/// The state after `EndOfStream`: on success the aggregator is ended and a
/// `sourceended` notification aimed at the aggregator is enqueued; on
/// failure nothing changes.
pub open spec fn end_of_stream_model(m: Model) -> Model {
    if end_of_stream_result(m) is Ok {
        Model {
            ready_state: ReadyState::Ended,
            pending: m.pending.push(
                Notification {
                    target: NotificationTarget::MediaSource,
                    name: EventName::SourceEnded,
                },
            ),
            ..m
        }
    } else {
        m
    }
}

/// The outcome of `SetLiveSeekableRange`: the state must be open, and the
/// interval must have a non-negative start no greater than its end.
pub open spec fn set_live_range_result(m: Model, start: i64, end: i64) -> Result<(), Error> {
    if !(m.ready_state is Open) {
        Err(Error::InvalidState)
    } else if start < 0 || start > end {
        Err(Error::Type)
    } else {
        Ok(())
    }
}

/// The state after `SetLiveSeekableRange`: on success the stored range is
/// replaced wholesale with the single interval; on failure nothing changes.
pub open spec fn set_live_range_model(m: Model, start: i64, end: i64) -> Model {
    if set_live_range_result(m, start, end) is Ok {
        Model { live_seekable_range: seq![TimeRange { start, end }], ..m }
    } else {
        m
    }
}

/// The outcome of `ClearLiveSeekableRange`: the state must be open.
pub open spec fn clear_live_range_result(m: Model) -> Result<(), Error> {
    if !(m.ready_state is Open) {
        Err(Error::InvalidState)
    } else {
        Ok(())
    }
}

/// The state after `ClearLiveSeekableRange`: on success the stored range is
/// the empty set (a no-op when it already was); on failure nothing changes.
pub open spec fn clear_live_range_model(m: Model) -> Model {
    if clear_live_range_result(m) is Ok {
        Model { live_seekable_range: Seq::empty(), ..m }
    } else {
        m
    }
}

/// The state after a flag update: when the handle is owned, that buffer's
/// `active` flag is replaced; otherwise nothing changes.
pub open spec fn set_buffer_active_model(m: Model, id: u64, active: bool) -> Model {
    if contains_id(m.buffers, id) {
        let p = position_of(m.buffers, id);
        Model {
            buffers: m.buffers.update(p, (SourceBuffer { active, ..m.buffers[p] })),
            ..m
        }
    } else {
        m
    }
}

/// The state after a flag update: when the handle is owned, that buffer's
/// `updating` flag is replaced; otherwise nothing changes.
pub open spec fn set_buffer_updating_model(m: Model, id: u64, updating: bool) -> Model {
    if contains_id(m.buffers, id) {
        let p = position_of(m.buffers, id);
        Model {
            buffers: m.buffers.update(p, (SourceBuffer { updating, ..m.buffers[p] })),
            ..m
        }
    } else {
        m
    }
}

/// Law: storing the duration is idempotent. Applying `SetDuration` with
/// the same value a second time changes nothing and reports the same
/// outcome, and neither application enqueues a notification.
pub proof fn lemma_set_duration_idempotent(m: Model, value: MediaTime)
    ensures
        set_duration_model(set_duration_model(m, value), value) == set_duration_model(m, value),
        set_duration_result(set_duration_model(m, value), value) == set_duration_result(m, value),
        set_duration_model(m, value).pending == m.pending,
{
}

/// Law: adding a buffer with a non-empty, recognized (and, under the
/// default policy, always compatible) descriptor fails `InvalidState` in
/// every readiness state other than open, and in the open state succeeds
/// and grows the owned collection by exactly one buffer.
pub proof fn lemma_add_buffer_law(m: Model, descriptor: Seq<char>)
    requires
        descriptor.len() > 0,
        recognized_media_type(descriptor),
    ensures
        !(m.ready_state is Open) ==> add_buffer_result(m, descriptor) == Err::<u64, Error>(
            Error::InvalidState,
        ) && add_buffer_model(m, descriptor) == m,
        m.ready_state is Open ==> add_buffer_result(m, descriptor) == Ok::<u64, Error>(m.next_id)
            && add_buffer_model(m, descriptor).buffers.len() == m.buffers.len() + 1,
{
}

/// No buffer of `s` carries the handle `id`, so no position holds it.
proof fn lemma_position_of_absent(s: Seq<SourceBuffer>, id: u64)
    requires
        forall|k: int| 0 <= k < s.len() ==> (#[trigger] s[k]).id != id,
    ensures
        position_of(s, id) == -1,
    decreases s.len(),
{
    if s.len() > 0 {
        assert(forall|k: int| 0 <= k < s.len() - 1 ==> (#[trigger] s.drop_first()[k]).id != id)
            by {
            assert(forall|k: int| 0 <= k < s.len() - 1 ==> s.drop_first()[k] == s[k + 1]);
        }
        lemma_position_of_absent(s.drop_first(), id);
    }
}

/// Law: a handle that was never issued is not owned, so removing it fails
/// `NotFound` in every readiness state.
pub proof fn lemma_never_added_not_found(m: Model, id: u64, ready_state: ReadyState)
    requires
        m.wf(),
        id >= m.next_id,
    ensures
        owned_check((Model { ready_state, ..m }), id) == Err::<(), Error>(Error::NotFound),
        remove_buffer_model((Model { ready_state, ..m }), id) == (Model { ready_state, ..m }),
{
    lemma_position_of_absent(m.buffers, id);
}

/// Law: once a buffer is removed its handle is no longer owned, so
/// removing it a second time fails `NotFound` in every readiness state.
pub proof fn lemma_removed_handle_not_found(m: Model, id: u64, ready_state: ReadyState)
    requires
        m.wf(),
        contains_id(m.buffers, id),
    ensures
        owned_check((Model { ready_state, ..remove_buffer_model(m, id) }), id) == Err::<(),
            Error,
        >(Error::NotFound),
{
    let p = position_of(m.buffers, id);
    lemma_position_of_first_match(m.buffers, id);
    let rest = m.buffers.remove(p);
    m.buffers.remove_ensures(p);
    assert forall|k: int| 0 <= k < rest.len() implies (#[trigger] rest[k]).id != id by {
        if k < p {
            assert(rest[k] == m.buffers[k]);
        } else {
            assert(rest[k] == m.buffers[k + 1]);
        }
    }
    lemma_position_of_absent(rest, id);
}

/// The position `position_of` reports lies in bounds and names a buffer
/// with the handle.
proof fn lemma_position_of_first_match(s: Seq<SourceBuffer>, id: u64)
    requires
        position_of(s, id) >= 0,
    ensures
        position_of(s, id) < s.len(),
        s[position_of(s, id)].id == id,
    decreases s.len(),
{
    if s.len() == 0 {
    } else if s[0].id == id {
    } else {
        lemma_position_of_first_match(s.drop_first(), id);
    }
}

/// Law: a negative or not-a-number duration is rejected with a `Type`
/// error, and nothing changes, whatever the readiness state and buffers.
pub proof fn lemma_set_duration_rejects_malformed(m: Model, value: MediaTime)
    requires
        value.spec_is_negative() || value.spec_is_nan(),
    ensures
        set_duration_result(m, value) == Err::<(), Error>(Error::Type),
        set_duration_model(m, value) == m,
{
}

/// If the first buffers with handle `id` are absent from the prefix of
/// length `j`, the first match is at `j` when `j` holds one, and absent
/// when `j` is the whole sequence.
proof fn lemma_position_of_prefix(s: Seq<SourceBuffer>, id: u64, j: int)
    requires
        0 <= j <= s.len(),
        forall|k: int| 0 <= k < j ==> (#[trigger] s[k]).id != id,
    ensures
        j < s.len() && s[j].id == id ==> position_of(s, id) == j,
        j == s.len() ==> position_of(s, id) == -1,
    decreases s.len(),
{
    if s.len() == 0 {
    } else if s[0].id == id {
    } else {
        if j >= 1 {
            assert(forall|k: int|
                0 <= k < j - 1 ==> (#[trigger] s.drop_first()[k]).id != id) by {
                assert(forall|k: int|
                    0 <= k < j - 1 ==> s.drop_first()[k] == s[k + 1]);
            }
            lemma_position_of_prefix(s.drop_first(), id, j - 1);
            if j < s.len() && s[j].id == id {
                assert(s.drop_first()[j - 1] == s[j]);
            }
        }
    }
}

/// The aggregator: owns the buffer collection, the readiness state
/// machine, the duration, the live-seekable range, and the outgoing queue
/// of notifications awaiting deferred delivery.
pub struct MediaSource {
    buffers: Vec<SourceBuffer>,
    ready_state: ReadyState,
    duration: MediaTime,
    live_seekable_range: Vec<TimeRange>,
    pending: Vec<Notification>,
    next_buffer_id: u64,
}

impl View for MediaSource {
    type V = Model;

    closed spec fn view(&self) -> Model {
        Model {
            buffers: self.buffers@,
            ready_state: self.ready_state,
            duration: self.duration,
            live_seekable_range: self.live_seekable_range@,
            pending: self.pending@,
            next_id: self.next_buffer_id,
        }
    }
}

impl MediaSource {
    /// A fresh aggregator: closed, without buffers, with a meaningless
    /// duration and an empty live-seekable range.
    pub fn new() -> (r: Self)
        ensures
            r@ == Model::initial(),
            r@.wf(),
    {
        let ms = MediaSource {
            buffers: Vec::new(),
            ready_state: ReadyState::Closed,
            duration: MediaTime::Nan,
            live_seekable_range: Vec::new(),
            pending: Vec::new(),
            next_buffer_id: 0,
        };
        proof {
            assert(ms@ =~= Model::initial());
        }
        ms
    }

    /// The script-visible constructor; construction itself cannot fail.
    pub fn Constructor() -> (r: Result<MediaSource, Error>)
        ensures
            r matches Ok(ms) && ms@ == Model::initial() && ms@.wf(),
    {
        Ok(MediaSource::new())
    }

    /// Whether a descriptor names a supported media type: exactly when the
    /// parser recognizes it.
    pub fn IsTypeSupported(type_: &str) -> (r: bool)
        ensures
            r == recognized_media_type(type_@),
    {
        parse_mime_type(type_).is_some()
    }

    /// The owned buffers, in insertion order.
    pub fn source_buffers(&self) -> (r: &Vec<SourceBuffer>)
        ensures
            r@ == self@.buffers,
    {
        &self.buffers
    }

    /// The current readiness state.
    pub fn ReadyState(&self) -> (r: ReadyState)
        ensures
            r == self@.ready_state,
    {
        self.ready_state
    }

    /// Sets the readiness state; the transition itself is driven by a
    /// collaborator outside this library, which only exposes the setter and
    /// the guards that read the current state.
    pub fn set_ready_state(&mut self, ready_state: ReadyState)
        requires
            old(self)@.wf(),
        ensures
            final(self)@ == (Model { ready_state: ready_state, ..old(self)@ }),
            final(self)@.wf(),
    {
        self.ready_state = ready_state;
    }

    /// The all-buffers list view; its contents are recomputed from the live
    /// collection on every access.
    pub fn SourceBuffers(&self) -> (r: SourceBufferList)
        ensures
            r.list_mode == ListMode::All,
    {
        SourceBufferList::new(ListMode::All)
    }

    /// The active-buffers list view; its contents are recomputed from the
    /// live collection on every access.
    pub fn ActiveSourceBuffers(&self) -> (r: SourceBufferList)
        ensures
            r.list_mode == ListMode::Active,
    {
        SourceBufferList::new(ListMode::Active)
    }

    /// Reads the duration: `Nan` while closed, whatever value is stored.
    pub fn Duration(&self) -> (r: MediaTime)
        ensures
            r == duration_read(self@),
            self@.ready_state is Closed ==> r is Nan,
    {
        if self.ready_state == ReadyState::Closed {
            return MediaTime::Nan;
        }
        self.duration
    }

    /// Stores a new duration after validating the value and the state.
    pub fn SetDuration(&mut self, value: MediaTime) -> (r: Result<(), Error>)
        requires
            old(self)@.wf(),
        ensures
            r == set_duration_result(old(self)@, value),
            final(self)@ == set_duration_model(old(self)@, value),
            final(self)@.wf(),
    {
        if value.is_negative() {
            return Err(Error::Type);
        }
        if value.is_nan() {
            return Err(Error::Type);
        }
        if self.ready_state != ReadyState::Open {
            return Err(Error::InvalidState);
        }
        if self.any_active() {
            return Err(Error::InvalidState);
        }
        self.change_duration(value)
    }

    /// The duration-change algorithm: a no-op for the already-current
    /// value, otherwise the value is stored. The clamp of the stored value
    /// to the highest end time across buffers awaits per-buffer timestamp
    /// tracking; with no samples tracked that time is zero, and a validated
    /// duration is never below zero.
    fn change_duration(&mut self, new_duration: MediaTime) -> (r: Result<(), Error>)
        ensures
            r == Ok::<(), Error>(()),
            final(self)@ == (if new_duration == old(self)@.duration {
                old(self)@
            } else {
                (Model { duration: new_duration, ..old(self)@ })
            }),
    {
        if self.duration == new_duration {
            return Ok(());
        }
        if self.is_less_than_highest_presentation_time(new_duration) {
            return Err(Error::InvalidState);
        }
        self.duration = new_duration;
        Ok(())
    }

    /// Policy hook: whether a candidate duration falls below the highest
    /// presentation timestamp seen across buffers. Timestamp tracking is
    /// not implemented, so the hook reports no conflict.
    fn is_less_than_highest_presentation_time(&self, _value: MediaTime) -> (r: bool)
        ensures
            !r,
    {
        false
    }

    /// Policy hook: whether a new media type conflicts with the already
    /// attached buffers. The default policy reports no conflict.
    fn is_compatible_with_other_source_buffers(&self, _mime: &mime::Mime) -> (r: bool)
        ensures
            !r,
    {
        false
    }

    /// Whether some owned buffer is active.
    fn any_active(&self) -> (r: bool)
        ensures
            r == has_active(self@.buffers),
    {
        let mut i: usize = 0;
        while i < self.buffers.len()
            invariant
                i <= self.buffers.len(),
                forall|k: int| 0 <= k < i ==> !(#[trigger] self.buffers@[k]).active,
            decreases self.buffers.len() - i,
        {
            if self.buffers[i].active {
                return true;
            }
            i += 1;
        }
        false
    }

    /// Whether some owned buffer has an append in flight.
    fn any_updating(&self) -> (r: bool)
        ensures
            r == has_updating(self@.buffers),
    {
        let mut i: usize = 0;
        while i < self.buffers.len()
            invariant
                i <= self.buffers.len(),
                forall|k: int| 0 <= k < i ==> !(#[trigger] self.buffers@[k]).updating,
            decreases self.buffers.len() - i,
        {
            if self.buffers[i].updating {
                return true;
            }
            i += 1;
        }
        false
    }

    /// The index of the owned buffer with handle `id`, if any.
    fn position_of_buffer(&self, id: u64) -> (r: Option<usize>)
        ensures
            r matches Some(p) ==> position_of(self@.buffers, id) == p
                && p < self@.buffers.len() && self@.buffers[p as int].id == id,
            r is None ==> position_of(self@.buffers, id) == -1,
    {
        let mut i: usize = 0;
        while i < self.buffers.len()
            invariant
                i <= self.buffers.len(),
                forall|k: int| 0 <= k < i ==> (#[trigger] self.buffers@[k]).id != id,
            decreases self.buffers.len() - i,
        {
            if self.buffers[i].id == id {
                proof {
                    lemma_position_of_prefix(self@.buffers, id, i as int);
                }
                return Some(i);
            }
            i += 1;
        }
        proof {
            lemma_position_of_prefix(self@.buffers, id, self@.buffers.len() as int);
        }
        None
    }

    /// A copy of the owned buffer with handle `id`, if any.
    pub fn get_buffer(&self, id: u64) -> (r: Option<SourceBuffer>)
        ensures
            contains_id(self@.buffers, id) ==> r == Some(
                self@.buffers[position_of(self@.buffers, id)],
            ),
            !contains_id(self@.buffers, id) ==> r is None,
    {
        match self.position_of_buffer(id) {
            Some(p) => Some(self.buffers[p]),
            None => None,
        }
    }

    /// Creates a buffer for a validated descriptor, appends it to the
    /// owned collection, and defers an `addsourcebuffer` notification; the
    /// new buffer's handle is returned.
    pub fn AddSourceBuffer(&mut self, type_: &str) -> (r: Result<u64, Error>)
        requires
            old(self)@.wf(),
            old(self)@.next_id < u64::MAX,
        ensures
            r == add_buffer_result(old(self)@, type_@),
            final(self)@ == add_buffer_model(old(self)@, type_@),
            final(self)@.wf(),
    {
        if type_.is_empty() {
            return Err(Error::Type);
        }
        let mime = match parse_mime_type(type_) {
            Some(mime) => mime,
            None => {
                return Err(Error::NotSupported);
            },
        };
        if self.is_compatible_with_other_source_buffers(&mime) {
            return Err(Error::NotSupported);
        }
        if self.ready_state != ReadyState::Open {
            return Err(Error::InvalidState);
        }
        let id = self.next_buffer_id;
        self.buffers.push(SourceBuffer { id, updating: false, active: false });
        self.next_buffer_id = id + 1;
        self.pending.push(
            Notification { target: NotificationTarget::AllBuffers, name: EventName::AddSourceBuffer },
        );
        proof {
            assert(self@ =~= add_buffer_model(old(self)@, type_@));
        }
        Ok(id)
    }

    /// Detaches the buffer with handle `id` from the aggregator, deferring
    /// the removal notifications in their required order.
    pub fn RemoveSourceBuffer(&mut self, id: u64) -> (r: Result<(), Error>)
        requires
            old(self)@.wf(),
        ensures
            r == owned_check(old(self)@, id),
            final(self)@ == remove_buffer_model(old(self)@, id),
            final(self)@.wf(),
    {
        let pos = match self.position_of_buffer(id) {
            Some(pos) => pos,
            None => {
                return Err(Error::NotFound);
            },
        };
        let buffer = self.buffers[pos];
        if buffer.updating {
            // Aborting the in-flight append itself is the appending
            // collaborator's duty; this library defers the notifications.
            self.pending.push(
                Notification {
                    target: NotificationTarget::Buffer(buffer.id),
                    name: EventName::Abort,
                },
            );
            self.pending.push(
                Notification {
                    target: NotificationTarget::Buffer(buffer.id),
                    name: EventName::UpdateEnd,
                },
            );
        }
        if buffer.active {
            self.pending.push(
                Notification {
                    target: NotificationTarget::ActiveBuffers,
                    name: EventName::RemoveSourceBuffer,
                },
            );
        }
        self.buffers.remove(pos);
        self.pending.push(
            Notification {
                target: NotificationTarget::AllBuffers,
                name: EventName::RemoveSourceBuffer,
            },
        );
        proof {
            assert(self@.pending =~= old(self)@.pending + removal_notifications(buffer));
            assert(self@ =~= remove_buffer_model(old(self)@, id));
        }
        Ok(())
    }

    /// Replaces the `active` flag of the buffer with handle `id`; the flag
    /// itself is computed by collaborators outside this library.
    pub fn set_buffer_active(&mut self, id: u64, active: bool) -> (r: Result<(), Error>)
        requires
            old(self)@.wf(),
        ensures
            r == owned_check(old(self)@, id),
            final(self)@ == set_buffer_active_model(old(self)@, id, active),
            final(self)@.wf(),
    {
        let pos = match self.position_of_buffer(id) {
            Some(pos) => pos,
            None => {
                return Err(Error::NotFound);
            },
        };
        let buffer = self.buffers[pos];
        self.buffers[pos] = SourceBuffer { active, ..buffer };
        proof {
            assert(self@ =~= set_buffer_active_model(old(self)@, id, active));
        }
        Ok(())
    }

    /// Replaces the `updating` flag of the buffer with handle `id`; the
    /// flag itself is driven by the appending collaborator.
    pub fn set_buffer_updating(&mut self, id: u64, updating: bool) -> (r: Result<(), Error>)
        requires
            old(self)@.wf(),
        ensures
            r == owned_check(old(self)@, id),
            final(self)@ == set_buffer_updating_model(old(self)@, id, updating),
            final(self)@.wf(),
    {
        let pos = match self.position_of_buffer(id) {
            Some(pos) => pos,
            None => {
                return Err(Error::NotFound);
            },
        };
        let buffer = self.buffers[pos];
        self.buffers[pos] = SourceBuffer { updating, ..buffer };
        proof {
            assert(self@ =~= set_buffer_updating_model(old(self)@, id, updating));
        }
        Ok(())
    }

    /// Signals the end of the stream: the aggregator becomes ended and a
    /// `sourceended` notification is deferred.
    pub fn EndOfStream(&mut self, error: Option<EndOfStreamError>) -> (r: Result<(), Error>)
        requires
            old(self)@.wf(),
        ensures
            r == end_of_stream_result(old(self)@),
            final(self)@ == end_of_stream_model(old(self)@),
            final(self)@.wf(),
    {
        if self.ready_state != ReadyState::Open {
            return Err(Error::InvalidState);
        }
        if self.any_updating() {
            return Err(Error::InvalidState);
        }
        self.end_of_stream(error);
        Ok(())
    }

    /// The end-of-stream algorithm; the error code selects only the
    /// reporting surface delegated to collaborators.
    fn end_of_stream(&mut self, _error: Option<EndOfStreamError>)
        ensures
            final(self)@ == (Model {
                ready_state: ReadyState::Ended,
                pending: old(self)@.pending.push(
                    Notification {
                        target: NotificationTarget::MediaSource,
                        name: EventName::SourceEnded,
                    },
                ),
                ..old(self)@
            }),
    {
        self.ready_state = ReadyState::Ended;
        self.pending.push(
            Notification { target: NotificationTarget::MediaSource, name: EventName::SourceEnded },
        );
    }

    /// Replaces the live-seekable range wholesale with the single interval
    /// `[start, end)`.
    pub fn SetLiveSeekableRange(&mut self, start: i64, end: i64) -> (r: Result<(), Error>)
        requires
            old(self)@.wf(),
        ensures
            r == set_live_range_result(old(self)@, start, end),
            final(self)@ == set_live_range_model(old(self)@, start, end),
            final(self)@.wf(),
    {
        if self.ready_state != ReadyState::Open {
            return Err(Error::InvalidState);
        }
        if start < 0 {
            return Err(Error::Type);
        }
        if start > end {
            return Err(Error::Type);
        }
        let mut range: Vec<TimeRange> = Vec::new();
        range.push(TimeRange { start, end });
        self.live_seekable_range = range;
        proof {
            assert(self@.live_seekable_range =~= seq![TimeRange { start, end }]);
            assert(self@.live_seekable_range[0] == (TimeRange { start, end }));
            assert(ranges_wf(self@.live_seekable_range));
            assert(self@ =~= set_live_range_model(old(self)@, start, end));
        }
        Ok(())
    }

    /// Replaces the live-seekable range with the empty set; a no-op when
    /// it already is empty.
    pub fn ClearLiveSeekableRange(&mut self) -> (r: Result<(), Error>)
        requires
            old(self)@.wf(),
        ensures
            r == clear_live_range_result(old(self)@),
            final(self)@ == clear_live_range_model(old(self)@),
            final(self)@.wf(),
    {
        if self.ready_state != ReadyState::Open {
            return Err(Error::InvalidState);
        }
        if self.live_seekable_range.len() > 0 {
            self.live_seekable_range = Vec::new();
        }
        proof {
            assert(self@ =~= clear_live_range_model(old(self)@));
        }
        Ok(())
    }

    /// Reads the live-seekable range: the stored set while open, the empty
    /// set otherwise, so a non-empty range is only ever observed while
    /// open.
    pub fn live_seekable_range(&self) -> (r: TimeRanges)
        requires
            self@.wf(),
        ensures
            r@ == live_range_read(self@),
    {
        if self.ready_state == ReadyState::Open {
            let mut out: Vec<TimeRange> = Vec::new();
            let mut i: usize = 0;
            while i < self.live_seekable_range.len()
                invariant
                    self@.wf(),
                    i <= self.live_seekable_range.len(),
                    out@ == self.live_seekable_range@.take(i as int),
                decreases self.live_seekable_range.len() - i,
            {
                proof {
                    assert(self.live_seekable_range@.take(i + 1).drop_last() =~= self
                        .live_seekable_range@.take(i as int));
                }
                out.push(self.live_seekable_range[i]);
                proof {
                    assert(out@ =~= self.live_seekable_range@.take(i + 1));
                }
                i += 1;
            }
            proof {
                assert(self.live_seekable_range@.take(self.live_seekable_range@.len() as int)
                    =~= self.live_seekable_range@);
            }
            TimeRanges::new(out)
        } else {
            TimeRanges::new(Vec::new())
        }
    }

    /// Hands the queued notifications to the drain loop, in submission
    /// order, leaving the queue empty.
    pub fn take_pending(&mut self) -> (r: Vec<Notification>)
        requires
            old(self)@.wf(),
        ensures
            r@ == old(self)@.pending,
            final(self)@ == (Model { pending: Seq::empty(), ..old(self)@ }),
            final(self)@.wf(),
    {
        let mut out: Vec<Notification> = Vec::new();
        let mut i: usize = 0;
        while i < self.pending.len()
            invariant
                *self == *old(self),
                i <= self.pending.len(),
                out@ == self.pending@.take(i as int),
            decreases self.pending.len() - i,
        {
            out.push(self.pending[i]);
            proof {
                assert(self.pending@.take(i + 1).drop_last() =~= self.pending@.take(i as int));
                assert(out@ =~= self.pending@.take(i + 1));
            }
            i += 1;
        }
        self.pending.clear();
        proof {
            assert(out@ =~= old(self)@.pending);
            assert(self@ =~= (Model { pending: Seq::empty(), ..old(self)@ }));
        }
        out
    }
}

} // verus!
