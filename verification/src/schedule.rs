//! The answer of the server to a check-in, and what it says about playlists and polling.

use vstd::prelude::*;
use crate::model::optional;
use crate::playlist_id::{optional_playlist_id, PlaylistId};
use crate::time::{Timestamp, TimestampView};

verus! {

/// What the server wants this player to pick up.
#[derive(Clone, Debug)]
pub struct ClientUpdateFlagsResponse {
    pub playlist_update_needed: bool,
    pub schedule_update_needed: bool,
    pub content_update_needed: bool,
    /// The layout or the rotation has changed.
    pub layout_change: bool,
    pub current_layout: Option<String>,
}

/// The schedule of this player as the server sees it.
#[derive(Clone, Debug)]
pub struct ClientTimelineScheduleResponse {
    pub active_playlist_id: Option<String>,
    pub fallback_playlist_id: Option<String>,
    pub next_playlist_id: Option<String>,
    pub schedule_ends_at: Option<Timestamp>,
    pub next_schedule_starts_at: Option<Timestamp>,
    pub update_flags: ClientUpdateFlagsResponse,
    pub layout: Option<String>,
    pub rotation: Option<i32>,
}

/// What a [`ClientUpdateFlagsResponse`] denotes.
pub struct UpdateFlagsView {
    pub playlist_update_needed: bool,
    pub schedule_update_needed: bool,
    pub content_update_needed: bool,
    pub layout_change: bool,
    pub current_layout: Option<Seq<char>>,
}

/// What a [`ClientTimelineScheduleResponse`] denotes.
pub struct ScheduleView {
    pub active_playlist_id: Option<Seq<char>>,
    pub fallback_playlist_id: Option<Seq<char>>,
    pub next_playlist_id: Option<Seq<char>>,
    pub schedule_ends_at: Option<TimestampView>,
    pub next_schedule_starts_at: Option<TimestampView>,
    pub update_flags: UpdateFlagsView,
    pub layout: Option<Seq<char>>,
    pub rotation: Option<i32>,
}

impl View for ClientUpdateFlagsResponse {
    type V = UpdateFlagsView;

    open spec fn view(&self) -> UpdateFlagsView {
        UpdateFlagsView {
            playlist_update_needed: self.playlist_update_needed,
            schedule_update_needed: self.schedule_update_needed,
            content_update_needed: self.content_update_needed,
            layout_change: self.layout_change,
            current_layout: optional(self.current_layout),
        }
    }
}

impl View for ClientTimelineScheduleResponse {
    type V = ScheduleView;

    open spec fn view(&self) -> ScheduleView {
        ScheduleView {
            active_playlist_id: optional(self.active_playlist_id),
            fallback_playlist_id: optional(self.fallback_playlist_id),
            next_playlist_id: optional(self.next_playlist_id),
            schedule_ends_at: optional(self.schedule_ends_at),
            next_schedule_starts_at: optional(self.next_schedule_starts_at),
            update_flags: self.update_flags@,
            layout: optional(self.layout),
            rotation: self.rotation,
        }
    }
}

impl UpdateFlagsView {
    /// Some update waits to be picked up. A change of the layout does not count.
    pub open spec fn update_pending(self) -> bool {
        self.playlist_update_needed || self.schedule_update_needed || self.content_update_needed
    }
}

/// The playlists of a schedule, as far as their identifiers can be read.
#[derive(Clone, Copy, Debug, PartialEq, Eq, Structural)]
pub struct SchedulePlaylists {
    /// The playlist to show.
    pub effective: Option<PlaylistId>,
    pub next: Option<PlaylistId>,
    pub fallback: Option<PlaylistId>,
}

/// The playlist that an identifier was read as; `None` if it is missing or cannot be read.
pub open spec fn readable(id: Option<Option<PlaylistId>>) -> Option<PlaylistId> {
    match id {
        Some(read) => read,
        None => None,
    }
}

/// The instant lies ahead of `now`, by at least a whole second and less than five minutes.
pub open spec fn is_near(instant: Option<TimestampView>, now: TimestampView) -> bool {
    instant matches Some(t) && 0 < t.seconds_since(now) < 300
}

/// The playlist to show, from what the active and the fallback identifier were read as: the active
/// one if the server names one, even if it cannot be read, and otherwise the fallback.
pub open spec fn effective_playlist_of(
    active: Option<Option<PlaylistId>>,
    fallback: Option<Option<PlaylistId>>,
) -> Option<PlaylistId> {
    match active {
        Some(id) => id,
        None => match fallback {
            Some(id) => id,
            None => None,
        },
    }
}

impl ScheduleView {
    /// The playlist to show.
    pub open spec fn effective_playlist(self) -> Option<PlaylistId> {
        effective_playlist_of(
            optional_playlist_id(self.active_playlist_id),
            optional_playlist_id(self.fallback_playlist_id),
        )
    }

    /// The playlists of the schedule, as far as their identifiers can be read.
    pub open spec fn playlists(self) -> SchedulePlaylists {
        SchedulePlaylists {
            effective: self.effective_playlist(),
            next: readable(optional_playlist_id(self.next_playlist_id)),
            fallback: readable(optional_playlist_id(self.fallback_playlist_id)),
        }
    }

    /// A schedule runs or is to come.
    pub open spec fn has_schedule(self) -> bool {
        self.schedule_ends_at is Some || self.next_schedule_starts_at is Some
    }

    /// The seconds to wait between two check-ins, as seen at `now`.
    pub open spec fn poll_interval(self, now: TimestampView) -> u64 {
        if is_near(self.schedule_ends_at, now) || is_near(self.next_schedule_starts_at, now) {
            10
        } else if self.update_flags.update_pending() {
            5
        } else if self.has_schedule() {
            30
        } else {
            60
        }
    }
}

impl ClientUpdateFlagsResponse {
    /// Some update waits to be picked up. A change of the layout does not count.
    pub fn update_pending(&self) -> (result: bool)
        ensures
            result == self@.update_pending(),
        result <==> self.playlist_update_needed || self.schedule_update_needed
            || self.content_update_needed,
    {
        self.playlist_update_needed || self.schedule_update_needed || self.content_update_needed
    }
}

/// An identifier that is there and can be read is the playlist that it was read as.
pub proof fn readable_is_what_was_read(id: Option<PlaylistId>)
    ensures
        readable(Some(id)) == id,
        readable(None) is None,
{
}

/// The playlist to show, from what the active and the fallback identifier were read as.
pub fn effective_playlist(
    active: Option<Option<PlaylistId>>,
    fallback: Option<Option<PlaylistId>>,
) -> (result: Option<PlaylistId>)
    ensures
        result == effective_playlist_of(active, fallback),
        active matches Some(id) ==> result == id,
        active is None && fallback is Some ==> result == fallback->0,
        active is None && fallback is None ==> result is None,
{
    if let Some(id) = active {
        id
    } else if let Some(id) = fallback {
        id
    } else {
        None
    }
}

/// Whether the server wants another playlist than the current one, and the one that it wants.
pub fn playlist_changed(
    current_playlist: Option<PlaylistId>,
    schedule_response: &ClientTimelineScheduleResponse,
) -> (result: (bool, Option<PlaylistId>))
    ensures
        result.0 == (current_playlist != schedule_response@.effective_playlist()),
        result.1 == schedule_response@.effective_playlist(),
{
    let active = PlaylistId::parse_optional(&schedule_response.active_playlist_id);
    let fallback = PlaylistId::parse_optional(&schedule_response.fallback_playlist_id);
    let effective = effective_playlist(active, fallback);
    (current_playlist != effective, effective)
}

/// The playlist that an identifier was read as; `None` if it is missing or cannot be read.
pub fn if_readable(id: Option<Option<PlaylistId>>) -> (result: Option<PlaylistId>)
    ensures
        result == readable(id),
        id is Some ==> result == id->0,
        id is None ==> result is None,
{
    match id {
        Some(read) => read,
        None => None,
    }
}

/// The instant lies ahead of `now`, by at least a whole second and less than five minutes.
fn near(instant: &Option<Timestamp>, now: Timestamp) -> (result: bool)
    ensures
        result == is_near(optional(*instant), now@),
        match *instant {
            Some(t) => result == (1 <= t@.seconds_since(now@) <= 299),
            None => !result,
        },
{
    match instant {
        Some(t) => {
            let seconds: i64 = t.seconds_since(now);
            0 < seconds && seconds < 300
        },
        None => false,
    }
}

/// The seconds to wait between two check-ins, as seen at `now`.
pub fn poll_interval_at(
    schedule_response: &ClientTimelineScheduleResponse,
    now: Timestamp,
) -> (result: u64)
    ensures
        result == schedule_response@.poll_interval(now@),
{
    if near(&schedule_response.schedule_ends_at, now) {
        return 10;
    }
    if near(&schedule_response.next_schedule_starts_at, now) {
        return 10;
    }
    if schedule_response.update_flags.update_pending() {
        return 5;
    }
    if schedule_response.schedule_ends_at.is_some()
        || schedule_response.next_schedule_starts_at.is_some() {
        return 30;
    }
    60
}

/// The seconds to wait between two check-ins, as seen at the present instant.
pub fn calculate_poll_interval(schedule_response: &ClientTimelineScheduleResponse) -> (result: u64)
    ensures
        exists|now: TimestampView|
            now.valid() && now.seconds >= 0 && !now.in_leap_second() && result
                == #[trigger] schedule_response@.poll_interval(now),
{
    let now = Timestamp::now();
    poll_interval_at(schedule_response, now)
}

} // verus!
