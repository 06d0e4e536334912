//! What holds of the player as a whole.

use vstd::prelude::*;
use crate::daemon::{
    Action, DaemonView, EventView, PurposeView, StageView, LEGACY_POLL_SECONDS,
};
use crate::data::DataView;
use crate::player::{device_rotation, is_device_rotation, rotation_or_none};
use crate::playlist::{
    at_place, by_asset_order, in_order, sorted_form_exists, sorted_form_keeps_videos, Video,
};
use crate::playlist_id::{uuid_value, PlaylistId};
use crate::request::acknowledgement_of;
use crate::schedule::{effective_playlist_of, is_near, SchedulePlaylists, ScheduleView};
use crate::time::TimestampView;

verus! {

/// The order of instants is strict and total.
pub proof fn instants_are_ordered(first: TimestampView, second: TimestampView, third: TimestampView)
    ensures
        !first.later_than(first),
        first.later_than(second) ==> !second.later_than(first),
        first != second ==> first.later_than(second) || second.later_than(first),
        first.later_than(second) && second.later_than(third) ==> first.later_than(third),
{
}

/// No time passes from an instant to itself, and a whole second only to a later instant.
pub proof fn seconds_point_ahead(instant: TimestampView, earlier: TimestampView)
    requires
        instant.valid(),
        earlier.valid(),
    ensures
        instant.seconds_since(instant) == 0,
        instant.seconds_since(earlier) > 0 ==> instant.later_than(earlier),
{
}

/// An event is near only while it is still to come.
pub proof fn near_is_ahead(instant: TimestampView, now: TimestampView)
    requires
        instant.valid(),
        now.valid(),
        is_near(Some(instant), now),
    ensures
        instant.later_than(now),
{
    seconds_point_ahead(instant, now);
}

/// The player checks in at least once a minute, and at least every ten seconds while something is
/// pending or near.
pub proof fn polling_is_prompt(response: ScheduleView, now: TimestampView)
    ensures
        5 <= response.poll_interval(now) <= 60,
        response.update_flags.update_pending() || is_near(response.schedule_ends_at, now)
            || is_near(response.next_schedule_starts_at, now) <==> response.poll_interval(now) <= 10,
        response.poll_interval(now) == 60 ==> !response.has_schedule(),
{
}

/// The playlist that the server names as active is shown before any fallback, and the fallback only
/// where none is named.
pub proof fn active_before_fallback(response: ScheduleView, fallback: Option<Seq<char>>)
    ensures
        response.active_playlist_id is Some ==> response.effective_playlist() == (ScheduleView {
            fallback_playlist_id: fallback,
            ..response
        }).effective_playlist(),
        response.active_playlist_id is None && response.fallback_playlist_id is None
            ==> response.effective_playlist() is None,
{
}

/// Once a schedule is taken over, the same schedule calls for no other playlist: only the flags can
/// call for another update.
pub proof fn schedule_settles(
    data: DataView,
    response: ScheduleView,
    now: TimestampView,
)
    ensures
        data.with_schedule(response, now).needs_content_update(response) <==>
            response.update_flags.playlist_update_needed
            || response.update_flags.content_update_needed,
{
}

/// Once layout and rotation are taken over, the same response changes nothing more and calls for no
/// other restart.
pub proof fn layout_settles(data: DataView, response: ScheduleView)
    ensures
        !data.with_layout(response).rotation_to_apply(response),
        data.with_layout(response).with_layout(response) == data.with_layout(response),
{
}

/// A layout or a rotation that was applied stays so until the server announces a change.
pub proof fn applied_until_announced(data: DataView, response: ScheduleView)
    requires
        !response.update_flags.layout_change,
    ensures
        data.layout_applied is Some ==> data.with_layout(response).layout_applied
            == data.layout_applied,
        data.rotation_applied is Some ==> data.with_layout(response).rotation_applied
            == data.rotation_applied && !data.rotation_to_apply(response),
{
}

/// Where the rotation calls for a restart, mpv is then started with it, as far as it is one that
/// the player can apply.
pub proof fn restart_applies_rotation(data: DataView, response: ScheduleView)
    requires
        data.rotation_to_apply(response),
    ensures
        data.with_layout(response).rotation_applied == response.rotation,
        data.with_layout(response).current_rotation == response.rotation,
        rotation_or_none(data.with_layout(response).current_rotation)
            == device_rotation(response.rotation->0),
{
}

/// An update settles the matter: the change that it picks up is no news any more, and no request
/// for an update is left open.
pub proof fn update_settles(
    data: DataView,
    videos: Seq<Video>,
    updated: Option<TimestampView>,
)
    ensures
        !data.with_videos(videos, updated).is_news(updated),
        !data.with_videos(videos, updated).update_requested(),
{
}

/// An update leaves the videos that the server sent, every one of them and no other, in the order of
/// their places.
pub proof fn update_keeps_videos(
    data: DataView,
    videos: Seq<Video>,
    updated: Option<TimestampView>,
)
    ensures
        in_order(data.with_videos(videos, updated).videos),
        data.with_videos(videos, updated).videos.to_multiset() == videos.to_multiset(),
{
    sorted_form_exists(videos);
    sorted_form_keeps_videos(videos, by_asset_order(videos));
}

/// A later second is later, and within one second a later nanosecond.
pub proof fn later_by_second_and_nanosecond(instant: TimestampView, other: TimestampView)
    ensures
        instant.seconds > other.seconds ==> instant.later_than(other),
        instant.seconds == other.seconds ==> (instant.later_than(other) <==> instant.nanoseconds
            > other.nanoseconds),
        instant.seconds < other.seconds ==> !instant.later_than(other),
{
}

/// Outside leap seconds, the whole seconds between two instants are those of the time that has
/// passed: as many as fit into it.
pub proof fn seconds_measure_time(instant: TimestampView, earlier: TimestampView, whole: int)
    requires
        !instant.in_leap_second(),
        !earlier.in_leap_second(),
        whole >= 0,
        whole * 1_000_000_000 <= (instant.seconds - earlier.seconds) * 1_000_000_000
            + instant.nanoseconds - earlier.nanoseconds < (whole + 1) * 1_000_000_000,
    ensures
        instant.seconds_since(earlier) == whole,
{
}

/// From a later instant back to an earlier one it is as far as forward.
pub proof fn seconds_are_symmetric(instant: TimestampView, other: TimestampView)
    ensures
        instant.seconds_since(other) == -other.seconds_since(instant),
{
}

/// An identifier that the server names as active decides, whether or not it can be read. Only where
/// none is named does the fallback decide, and where that is missing too there is no playlist.
pub proof fn wanted_playlist(response: ScheduleView, text: Seq<char>)
    ensures
        response.active_playlist_id == Some(text) || (response.active_playlist_id is None
            && response.fallback_playlist_id == Some(text)) ==> match uuid_value(text) {
            Some(value) => response.effective_playlist() == Some(PlaylistId { value }),
            None => response.effective_playlist() is None,
        },
        response.active_playlist_id is None && response.fallback_playlist_id is None
            ==> response.effective_playlist() is None,
        response.playlists().effective == response.effective_playlist(),
        response.next_playlist_id == Some(text) ==> match uuid_value(text) {
            Some(value) => response.playlists().next == Some(PlaylistId { value }),
            None => response.playlists().next is None,
        },
        response.next_playlist_id is None ==> response.playlists().next is None,
        response.fallback_playlist_id == Some(text) ==> match uuid_value(text) {
            Some(value) => response.playlists().fallback == Some(PlaylistId { value }),
            None => response.playlists().fallback is None,
        },
        response.fallback_playlist_id is None ==> response.playlists().fallback is None,
{
}

/// Of what the two identifiers were read as, the active one is shown if there is one.
pub proof fn active_decides(
    active: Option<PlaylistId>,
    fallback: Option<PlaylistId>,
    any: Option<Option<PlaylistId>>,
)
    ensures
        effective_playlist_of(Some(active), any) == active,
        effective_playlist_of(None, Some(fallback)) == fallback,
        effective_playlist_of(None, None) is None,
{
}

/// The content is fetched anew exactly if the wanted playlist differs from the current one, or the
/// flag for the playlist or the one for the content is raised. Neither what else the player
/// remembers nor the other flags matter.
pub proof fn need_for_update(data: DataView, response: ScheduleView)
    ensures
        data.current_playlist != response.effective_playlist() ==> data.needs_content_update(
            response,
        ),
        response.update_flags.playlist_update_needed ==> data.needs_content_update(response),
        response.update_flags.content_update_needed ==> data.needs_content_update(response),
        data.needs_content_update(response) && !response.update_flags.playlist_update_needed
            && !response.update_flags.content_update_needed ==> data.current_playlist
            != response.effective_playlist(),
{
}

/// The same of playlists that were read already.
pub proof fn need_for_update_to(
    data: DataView,
    response: ScheduleView,
    effective: Option<PlaylistId>,
)
    ensures
        data.current_playlist != effective ==> data.needs_update_to(response, effective),
        response.update_flags.playlist_update_needed ==> data.needs_update_to(response, effective),
        response.update_flags.content_update_needed ==> data.needs_update_to(response, effective),
        data.current_playlist == effective && data.needs_update_to(response, effective)
            ==> response.update_flags.playlist_update_needed
            || response.update_flags.content_update_needed,
{
}

/// A schedule that is taken over is what the player remembers of schedules from then on; the rest
/// stays as it was.
pub proof fn schedule_is_remembered(
    data: DataView,
    response: ScheduleView,
    playlists: SchedulePlaylists,
    now: TimestampView,
)
    ensures
        data.with_schedule(response, now) == data.with_playlists(
            response,
            response.playlists(),
            now,
        ),
        ({
            let after = data.with_playlists(response, playlists, now);
            &&& after.current_playlist == playlists.effective
            &&& after.next_playlist_id == playlists.next
            &&& after.fallback_playlist == playlists.fallback
            &&& after.active_schedule_ends == response.schedule_ends_at
            &&& after.next_schedule_starts == response.next_schedule_starts_at
            &&& after.last_schedule_check == Some(now)
            &&& after.videos == data.videos
            &&& after.last_update == data.last_update
            &&& after.update_content == data.update_content
            &&& after.current_layout == data.current_layout
            &&& after.layout_applied == data.layout_applied
            &&& after.current_rotation == data.current_rotation
            &&& after.rotation_applied == data.rotation_applied
        }),
{
}

/// Nothing is remembered at first: everything that may be missing is.
pub proof fn blank_remembers_nothing()
    ensures
        DataView::blank().videos.len() == 0,
        DataView::blank().last_update is None,
        DataView::blank().current_playlist is None,
        DataView::blank().active_schedule_ends is None,
        DataView::blank().next_schedule_starts is None,
        DataView::blank().next_playlist_id is None,
        DataView::blank().fallback_playlist is None,
        DataView::blank().update_content is None,
        DataView::blank().last_schedule_check is None,
        DataView::blank().current_layout is None,
        DataView::blank().layout_applied is None,
        DataView::blank().current_rotation is None,
        DataView::blank().rotation_applied is None,
{
}

/// A change of the content is news to a player that has never picked one up, and otherwise exactly
/// if it is later than the last one. What else the player remembers does not matter.
pub proof fn news_by_time(data: DataView, time: TimestampView, last: TimestampView)
    ensures
        !data.is_news(None),
        data.last_update is None ==> data.is_news(Some(time)),
        data.last_update == Some(last) ==> (data.is_news(Some(time)) <==> time.seconds
            > last.seconds || (time.seconds == last.seconds && time.nanoseconds
            > last.nanoseconds)),
        data.update_requested() <==> data.update_content == Some(true),
{
}

/// An update leaves the videos in the order of their places, those that share a place in the order
/// in which the server has sent them; it remembers when the content was changed, and nothing else
/// but the settled request changes.
pub proof fn update_is_remembered(
    data: DataView,
    videos: Seq<Video>,
    updated: Option<TimestampView>,
    place: i64,
)
    ensures
        ({
            let after = data.with_videos(videos, updated);
            &&& after == (DataView {
                videos: after.videos,
                last_update: updated,
                update_content: Some(false),
                ..data
            })
            &&& after.videos.len() == videos.len()
            &&& after.videos.to_multiset() == videos.to_multiset()
            &&& forall|i: int, j: int|
                0 <= i <= j < after.videos.len() ==> after.videos[i].asset_order
                    <= after.videos[j].asset_order
            &&& after.videos.filter(|video: Video| video.asset_order == place) == videos.filter(
                |video: Video| video.asset_order == place,
            )
        }),
{
    sorted_form_exists(videos);
    sorted_form_keeps_videos(videos, by_asset_order(videos));
    assert(at_place(by_asset_order(videos), place) == at_place(videos, place));
}

/// The rotation of the start becomes both the current and the applied one, and nothing else changes.
pub proof fn rotation_is_remembered(data: DataView, rotation: i32)
    ensures
        data.with_rotation(rotation) == (DataView {
            current_rotation: Some(rotation),
            rotation_applied: Some(rotation),
            ..data
        }),
{
}

/// Every rotation that the server announces is applied, zero as well: one that was not applied
/// before becomes current and calls for a restart. One that was applied before changes nothing.
pub proof fn announced_rotation_is_applied(data: DataView, response: ScheduleView, rotation: i32)
    requires
        response.update_flags.layout_change,
        response.rotation == Some(rotation),
    ensures
        data.with_layout(response).rotation_applied == Some(rotation),
        data.rotation_applied != Some(rotation) ==> data.with_layout(response).current_rotation
            == Some(rotation) && data.rotation_to_apply(response),
        data.rotation_applied == Some(rotation) ==> data.with_layout(response).current_rotation
            == data.current_rotation && !data.rotation_to_apply(response),
{
}

/// A layout that the server announces becomes current and applied. The one that is named with the
/// flags goes before the one of the schedule.
pub proof fn announced_layout_is_applied(data: DataView, response: ScheduleView, layout: Seq<char>)
    requires
        response.update_flags.layout_change,
    ensures
        response.update_flags.current_layout == Some(layout) || (
        response.update_flags.current_layout is None && response.layout == Some(layout))
            ==> data.with_layout(response).current_layout == Some(layout) && data.with_layout(
            response,
        ).layout_applied == Some(layout),
        response.update_flags.current_layout is None && response.layout is None
            ==> data.with_layout(response).current_layout == data.current_layout
            && data.with_layout(response).layout_applied == data.layout_applied,
{
}

/// A rotation that is not announced becomes current. It is applied, with a restart, only if none ever
/// was and it was not current before.
pub proof fn unannounced_rotation_is_tracked(data: DataView, response: ScheduleView, rotation: i32)
    requires
        !response.update_flags.layout_change,
        response.rotation == Some(rotation),
    ensures
        data.with_layout(response).current_rotation == Some(rotation),
        data.rotation_applied is None && data.current_rotation != Some(rotation)
            ==> data.with_layout(response).rotation_applied == Some(rotation)
            && data.rotation_to_apply(response),
        data.rotation_applied is Some || data.current_rotation == Some(rotation)
            ==> data.with_layout(response).rotation_applied == data.rotation_applied
            && !data.rotation_to_apply(response),
{
}

/// A layout that is not announced becomes current. It counts as applied only if none ever was and it
/// was not current before. A layout that is named with the flags alone does not count.
pub proof fn unannounced_layout_is_tracked(data: DataView, response: ScheduleView)
    requires
        !response.update_flags.layout_change,
    ensures
        response.layout is Some ==> data.with_layout(response).current_layout == response.layout,
        response.layout is Some && data.layout_applied is None && data.current_layout
            != response.layout ==> data.with_layout(response).layout_applied == response.layout,
        data.layout_applied is Some || data.current_layout == response.layout
            ==> data.with_layout(response).layout_applied == data.layout_applied,
        response.layout is None ==> data.with_layout(response).current_layout == data.current_layout
            && data.with_layout(response).layout_applied == data.layout_applied,
{
}

/// A response without a rotation leaves the rotation alone, and layout and rotation concern nothing
/// else that the player remembers.
pub proof fn layout_concerns_nothing_else(data: DataView, response: ScheduleView)
    ensures
        ({
            let after = data.with_layout(response);
            &&& response.rotation is None ==> after.current_rotation == data.current_rotation
                && after.rotation_applied == data.rotation_applied && !data.rotation_to_apply(
                response,
            )
            &&& after == (DataView {
                current_layout: after.current_layout,
                layout_applied: after.layout_applied,
                current_rotation: after.current_rotation,
                rotation_applied: after.rotation_applied,
                ..data
            })
        }),
{
}

/// The player checks in every ten seconds while the schedule ends, or the next one starts, in more
/// than none and less than three hundred seconds. Otherwise it does so every five seconds while any
/// update is pending, every thirty while there is a schedule, and every minute without one.
pub proof fn polling_by_need(response: ScheduleView, now: TimestampView)
    ensures
        ({
            let ends_soon = response.schedule_ends_at matches Some(end) && 1 <= end.seconds_since(
                now,
            ) <= 299;
            let starts_soon = response.next_schedule_starts_at matches Some(start) && 1
                <= start.seconds_since(now) <= 299;
            let pending = response.update_flags.playlist_update_needed
                || response.update_flags.schedule_update_needed
                || response.update_flags.content_update_needed;
            let scheduled = response.schedule_ends_at is Some
                || response.next_schedule_starts_at is Some;
            &&& ends_soon || starts_soon <==> response.poll_interval(now) == 10
            &&& !ends_soon && !starts_soon && pending <==> response.poll_interval(now) == 5
            &&& !ends_soon && !starts_soon && !pending && scheduled <==> response.poll_interval(now)
                == 30
            &&& !pending && !scheduled <==> response.poll_interval(now) == 60
        }),
{
}

/// The steps of the daemon from `daemon` on, with what happens and when.
pub open spec fn run(
    daemon: DaemonView,
    events: Seq<(EventView, TimestampView)>,
) -> DaemonView
    decreases events.len(),
{
    if events.len() == 0 {
        daemon
    } else {
        run(daemon, events.drop_last()).next(events.last().0, events.last().1)
    }
}

impl StageView {
    /// A stage that the daemon can be at before it has reached the server.
    pub open spec fn without_server(self) -> bool {
        match self {
            StageView::CleaningUp
            | StageView::Loading { .. }
            | StageView::Probing { .. }
            | StageView::Pausing { .. }
            | StageView::ExchangingKey
            | StageView::StartingPlayer
            | StageView::Idle
            | StageView::ProbingOffline
            | StageView::Polling
            | StageView::Reviving
            | StageView::Resting
            | StageView::Killing
            | StageView::Stopped { .. } => true,
            _ => false,
        }
    }

    /// What the daemon carries from one action of a check-in to the next fits together.
    pub open spec fn coherent(self) -> bool {
        match self {
            StageView::Acknowledging { response, report } => acknowledgement_of(
                response.update_flags,
            ) == Some(report),
            StageView::AcknowledgingLayout { response, content_updated, restart } => {
                &&& response.update_flags.layout_change
                &&& content_updated ==> restart
            },
            StageView::SavingSchedule { content_updated, restart, .. } => content_updated
                ==> restart,
            _ => true,
        }
    }

    /// The content was updated at this check-in, and mpv was not restarted since.
    pub open spec fn owes_restart(self) -> bool {
        match self {
            StageView::Acknowledging { .. } => true,
            StageView::AcknowledgingLayout { content_updated, .. } => content_updated,
            StageView::SavingSchedule { content_updated, .. } => content_updated,
            StageView::Restarting { .. } => true,
            _ => false,
        }
    }

    /// What the player remembers may differ from what was stored last.
    pub open spec fn unsaved(self) -> bool {
        match self {
            StageView::Syncing { purpose } => purpose is Schedule,
            StageView::Receiving { purpose, .. } => purpose is Schedule,
            StageView::SavingVideos { .. }
            | StageView::SavingRotation
            | StageView::AcknowledgingLayout { .. }
            | StageView::SavingSchedule { .. } => true,
            _ => false,
        }
    }

    /// A bound on the actions that can still come before the daemon waits again, at a check-in or on
    /// the way to the first one. The server being down does not count: the daemon may ask for it
    /// for ever.
    pub open spec fn distance(self) -> nat {
        match self {
            StageView::Idle | StageView::Stopped { .. } => 0,
            StageView::Probing { .. } | StageView::Pausing { .. } => 13,
            StageView::CleaningUp => 15,
            StageView::Loading { starting } => if starting {
                14
            } else {
                1
            },
            StageView::ExchangingKey => 12,
            StageView::Syncing { purpose } => purpose.distance() + 3,
            StageView::Receiving { purpose, .. } => purpose.distance() + 2,
            StageView::SavingVideos { purpose } => purpose.distance() + 1,
            StageView::Rebuilding { purpose } => purpose.distance(),
            StageView::ReadingRotation => 3,
            StageView::SavingRotation => 2,
            StageView::StartingPlayer => 1,
            StageView::ProbingOffline => 13,
            StageView::CheckingSchedule => 17,
            StageView::Acknowledging { .. } => 8,
            StageView::AcknowledgingLayout { .. } => 7,
            StageView::SavingSchedule { .. } => 6,
            StageView::Restarting { again } => if again {
                5
            } else {
                4
            },
            StageView::Polling => 3,
            StageView::Reviving => 2,
            StageView::Resting | StageView::Killing => 1,
        }
    }
}

impl PurposeView {
    /// A bound on the actions that can still come once the playlist is to be rebuilt.
    pub open spec fn distance(self) -> nat {
        match self {
            PurposeView::First => 8,
            PurposeView::Requested => 4,
            PurposeView::Schedule(_) => 9,
            PurposeView::Legacy => 13,
            PurposeView::LegacyRequested => 9,
        }
    }
}

impl DaemonView {
    /// What holds of the daemon at all times.
    pub open spec fn sound(self) -> bool {
        &&& self.status.poll_seconds == 5 || self.status.poll_seconds == 10
            || self.status.poll_seconds == LEGACY_POLL_SECONDS || self.status.poll_seconds == 30
            || self.status.poll_seconds == 60
        &&& self.status.online || self.stage.without_server()
        &&& self.stage.coherent()
        &&& self.stage is SavingVideos || self.stage is Rebuilding
            ==> !self.status.data.update_requested()
    }
}

/// The daemon is sound from its start on, whatever happens.
pub proof fn always_sound(events: Seq<(EventView, TimestampView)>)
    ensures
        run(DaemonView::initial(), events).sound(),
    decreases events.len(),
{
    if events.len() > 0 {
        always_sound(events.drop_last());
        step_keeps_sound(
            run(DaemonView::initial(), events.drop_last()),
            events.last().0,
            events.last().1,
        );
    }
}

/// A step leaves a sound daemon sound.
pub proof fn step_keeps_sound(daemon: DaemonView, event: EventView, now: TimestampView)
    requires
        daemon.sound(),
    ensures
        daemon.next(event, now).sound(),
{
}

/// mpv is only ever started with a rotation that the player can apply, and with the one that is
/// current.
pub proof fn player_rotation(daemon: DaemonView)
    ensures
        match daemon.action() {
            Action::StartPlayer { rotation } | Action::RestartPlayer { rotation } => {
                &&& is_device_rotation(rotation)
                &&& rotation == rotation_or_none(daemon.status.data.current_rotation)
            },
            _ => true,
        },
{
}

/// After an update of the content at a check-in, mpv is restarted before the daemon waits again.
pub proof fn update_restarts_player(daemon: DaemonView, event: EventView, now: TimestampView)
    requires
        daemon.sound(),
    ensures
        daemon.action() == Action::RebuildPlaylist && event == EventView::Done && (daemon.stage
            matches StageView::Rebuilding { purpose } && !(purpose is First)
            && !(purpose is Requested)) ==> daemon.next(event, now).stage.owes_restart(),
        daemon.stage.owes_restart() ==> {
            ||| daemon.next(event, now).stage.owes_restart()
            ||| daemon.next(event, now).stage is Stopped
            ||| daemon.action() is RestartPlayer && event == EventView::Done
        },
{
}

/// A step changes what the player remembers only on the way to storing it, or by reading it.
pub proof fn changes_are_unsaved(daemon: DaemonView, event: EventView, now: TimestampView)
    ensures
        daemon.next(event, now).status.data != daemon.status.data ==> daemon.next(
            event,
            now,
        ).stage.unsaved() || event is Loaded,
{
}

/// What the caller has stored, or read, last.
pub open spec fn stored(events: Seq<(EventView, TimestampView)>) -> DataView
    decreases events.len(),
{
    if events.len() == 0 {
        DataView::blank()
    } else {
        let before = run(DaemonView::initial(), events.drop_last());
        match events.last().0 {
            EventView::Done if before.action() == Action::SaveData => before.status.data,
            EventView::Loaded(data) if before.action() == Action::Load => data,
            _ => stored(events.drop_last()),
        }
    }
}

/// Whenever the daemon waits, what it remembers is what was stored last.
pub proof fn waiting_is_saved(events: Seq<(EventView, TimestampView)>)
    ensures
        run(DaemonView::initial(), events).action() == Action::Await ==> stored(events) == run(
            DaemonView::initial(),
            events,
        ).status.data,
{
    saved_unless_pending(events);
}

proof fn saved_unless_pending(events: Seq<(EventView, TimestampView)>)
    ensures
        ({
            let daemon = run(DaemonView::initial(), events);
            daemon.stage.unsaved() || daemon.stage is Stopped || stored(events)
                == daemon.status.data
        }),
    decreases events.len(),
{
    if events.len() > 0 {
        saved_unless_pending(events.drop_last());
    }
}

/// A check-in comes to an end: every step that is taken brings the daemon closer to waiting again,
/// unless it waits already or the server is down at the start.
pub proof fn check_in_ends(daemon: DaemonView, event: EventView, now: TimestampView)
    requires
        daemon.action() != Action::Await,
        !(daemon.stage is Probing),
        !(daemon.stage is Pausing),
    ensures
        daemon.next(event, now) == daemon || daemon.next(event, now).stage.distance()
            < daemon.stage.distance(),
{
}

/// A player with nothing to show that finds the server down after `retries` retries asks again when
/// `retries` seconds have passed since it began to ask, whatever the server has replied, and counts
/// one retry more.
pub proof fn retries_are_counted(
    daemon: DaemonView,
    retries: u64,
    status: Option<u16>,
    waited_seconds: u64,
    now: TimestampView,
    later: TimestampView,
)
    requires
        daemon.stage == (StageView::Probing { retries }),
        retries < u64::MAX,
        status != Some(200u16),
    ensures
        ({
            let waiting = daemon.next(
                EventView::Health { status, cached: false, waited_seconds },
                now,
            );
            &&& waiting.action() == (Action::AwaitRetry { due_seconds: retries })
            &&& waiting.next(EventView::Done, later) == daemon.status.at(
                StageView::Probing { retries: (retries + 1) as u64 },
            )
        }),
{
}

/// The daemon ends without a failure only when it was asked to, after it has ended mpv.
pub proof fn ends_when_asked(daemon: DaemonView, event: EventView, now: TimestampView)
    requires
        !(daemon.stage is Stopped),
    ensures
        daemon.next(event, now).action() == (Action::Exit { failed: false }) ==> daemon.action()
            == Action::KillPlayer && event == EventView::Done,
        daemon.action() != Action::KillPlayer && daemon.next(event, now).action()
            == Action::KillPlayer ==> daemon.action() == Action::Await && event == EventView::Stop,
        daemon.action() == Action::Await && event == EventView::Stop ==> daemon.next(
            event,
            now,
        ).action() == Action::KillPlayer,
{
}

/// The end is the end.
pub proof fn end_is_final(daemon: DaemonView, event: EventView, now: TimestampView)
    requires
        daemon.stage is Stopped,
    ensures
        daemon.next(event, now) == daemon,
{
}

/// Trouble with the server or with mpv costs nothing that the player remembers. A schedule that
/// cannot be had at a check-in makes the player ask for changes without one, and a layout that
/// cannot be reported is passed over; it is only the rotation at the start that falls back to none.
pub proof fn failures(daemon: DaemonView, now: TimestampView)
    ensures
        !(daemon.stage is ReadingRotation) ==> daemon.next(EventView::Failed, now).status
            == daemon.status,
        daemon.stage is ReadingRotation ==> daemon.next(EventView::Failed, now).status.rotation()
            == 0,
        daemon.stage is CheckingSchedule ==> daemon.next(EventView::Failed, now).action()
            == Action::Sync,
        daemon.action() == Action::AcknowledgeLayout ==> daemon.next(EventView::Failed, now)
            == daemon.next(EventView::Done, now),
        match daemon.action() {
            Action::CheckSchedule | Action::AcknowledgeLayout | Action::PollPlayer => !(daemon.next(
                EventView::Failed,
                now,
            ).stage is Stopped),
            Action::Exit { .. } => daemon.next(EventView::Failed, now) == daemon,
            _ => daemon.next(EventView::Failed, now).action() == (Action::Exit { failed: true }),
        },
{
}

/// A check-in that brings nothing new leaves mpv alone: the schedule is stored, the interval is set
/// and mpv is looked after.
pub proof fn quiet_check_in(
    daemon: DaemonView,
    response: ScheduleView,
    received: TimestampView,
    saved: TimestampView,
)
    requires
        daemon.stage is CheckingSchedule,
        !daemon.status.data.needs_content_update(response),
        !daemon.status.data.rotation_to_apply(response),
        !response.update_flags.layout_change,
    ensures
        ({
            let saving = daemon.next(EventView::Schedule(response), received);
            let done = saving.next(EventView::Done, saved);
            &&& saving.action() == Action::SaveData
            &&& done.action() == Action::PollPlayer
            &&& done.status.data == daemon.status.data.with_schedule(
                response,
                received,
            ).with_layout(response)
            &&& done.status.poll_seconds == response.poll_interval(saved)
        }),
{
}

/// The server learns of an update only after it was carried out, and exactly of what it had asked
/// for.
pub proof fn acknowledged_after_update(daemon: DaemonView, event: EventView, now: TimestampView)
    ensures
        match daemon.next(event, now).action() {
            Action::AcknowledgeUpdates { report } => daemon.next(event, now) == daemon || {
                &&& daemon.stage matches StageView::Rebuilding { purpose }
                &&& purpose matches PurposeView::Schedule(response)
                &&& event == EventView::Done
                &&& report.playlist_updated == response.update_flags.playlist_update_needed
                &&& report.schedule_updated == response.update_flags.schedule_update_needed
                &&& report.content_updated == response.update_flags.content_update_needed
            },
            _ => true,
        },
{
}

/// Until a key was exchanged, the player asks the server for nothing but whether it is up, and for
/// the key.
pub proof fn offline_is_quiet(daemon: DaemonView)
    requires
        daemon.sound(),
        !daemon.status.online,
    ensures
        match daemon.action() {
            Action::CheckSchedule
            | Action::Sync
            | Action::ReceiveVideos
            | Action::AcknowledgeUpdates { .. }
            | Action::AcknowledgeLayout => false,
            _ => true,
        },
{
}

} // verus!
