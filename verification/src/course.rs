//! The course of the player: what it does next after each outcome, and what it comes to.
//!
//! The laws speak of what the player remembers, of what the server and mpv have reported, and of the
//! action that follows. They hold whatever else the player remembers.

use vstd::prelude::*;
use crate::daemon::{Action, DaemonView, Event, EventView, PurposeView, StageView, StatusView};
use crate::data::{Data, DataView};
use crate::playlist::Video;
use crate::playlist_id::uuid_value;
use crate::request::Acknowledgement;
use crate::schedule::{ClientTimelineScheduleResponse, ScheduleView};
use crate::time::{Timestamp, TimestampView};

verus! {

/// The daemon goes by all that an event reports.
pub proof fn event_is_taken_as_reported(
    data: Data,
    status: Option<u16>,
    cached: bool,
    waited_seconds: u64,
    response: ClientTimelineScheduleResponse,
    updated: Timestamp,
    videos: Vec<Video>,
)
    ensures
        Event::Done@ == EventView::Done,
        Event::Failed@ == EventView::Failed,
        Event::Loaded(data)@ == EventView::Loaded(data@),
        (Event::Health { status, cached, waited_seconds })@ == (EventView::Health {
            status,
            cached,
            waited_seconds,
        }),
        Event::Schedule(response)@ == EventView::Schedule(response@),
        Event::Synced(Some(updated))@ == EventView::Synced(Some(updated@)),
        Event::Synced(None)@ == EventView::Synced(None),
        Event::Videos(videos)@ == EventView::Videos(videos@),
        Event::PlayerExited@ == EventView::PlayerExited,
        Event::Tick@ == EventView::Tick,
        Event::Stop@ == EventView::Stop,
        Event::Hangup@ == EventView::Hangup,
{
}

/// The daemon goes by all that a schedule says.
pub proof fn schedule_is_taken_as_sent(response: ClientTimelineScheduleResponse)
    ensures
        response@.active_playlist_id is Some <==> response.active_playlist_id is Some,
        response.active_playlist_id matches Some(text) ==> response@.active_playlist_id == Some(
            text@,
        ),
        response@.fallback_playlist_id is Some <==> response.fallback_playlist_id is Some,
        response.fallback_playlist_id matches Some(text) ==> response@.fallback_playlist_id == Some(
            text@,
        ),
        response@.next_playlist_id is Some <==> response.next_playlist_id is Some,
        response.next_playlist_id matches Some(text) ==> response@.next_playlist_id == Some(text@),
        response@.schedule_ends_at is Some <==> response.schedule_ends_at is Some,
        response.schedule_ends_at matches Some(end) ==> response@.schedule_ends_at == Some(end@),
        response@.next_schedule_starts_at is Some <==> response.next_schedule_starts_at is Some,
        response.next_schedule_starts_at matches Some(start) ==> response@.next_schedule_starts_at
            == Some(start@),
        response@.update_flags.playlist_update_needed
            == response.update_flags.playlist_update_needed,
        response@.update_flags.schedule_update_needed
            == response.update_flags.schedule_update_needed,
        response@.update_flags.content_update_needed == response.update_flags.content_update_needed,
        response@.update_flags.layout_change == response.update_flags.layout_change,
        response@.update_flags.current_layout is Some <==> response.update_flags.current_layout
            is Some,
        response.update_flags.current_layout matches Some(layout)
            ==> response@.update_flags.current_layout == Some(layout@),
        response@.layout is Some <==> response.layout is Some,
        response.layout matches Some(layout) ==> response@.layout == Some(layout@),
        response@.rotation == response.rotation,
{
}

/// The daemon goes by all that the player remembers.
pub proof fn data_is_taken_as_stored(data: Data)
    ensures
        data@.videos == data.videos@,
        data@.last_update is Some <==> data.last_update is Some,
        data.last_update matches Some(time) ==> data@.last_update == Some(time@),
        data@.current_playlist == data.current_playlist,
        data@.active_schedule_ends is Some <==> data.active_schedule_ends is Some,
        data.active_schedule_ends matches Some(time) ==> data@.active_schedule_ends == Some(time@),
        data@.next_schedule_starts is Some <==> data.next_schedule_starts is Some,
        data.next_schedule_starts matches Some(time) ==> data@.next_schedule_starts == Some(time@),
        data@.next_playlist_id == data.next_playlist_id,
        data@.fallback_playlist == data.fallback_playlist,
        data@.update_content == data.update_content,
        data@.last_schedule_check is Some <==> data.last_schedule_check is Some,
        data.last_schedule_check matches Some(time) ==> data@.last_schedule_check == Some(time@),
        data@.current_layout is Some <==> data.current_layout is Some,
        data.current_layout matches Some(layout) ==> data@.current_layout == Some(layout@),
        data@.layout_applied is Some <==> data.layout_applied is Some,
        data.layout_applied matches Some(layout) ==> data@.layout_applied == Some(layout@),
        data@.current_rotation == data.current_rotation,
        data@.rotation_applied == data.rotation_applied,
{
}

/// A player starts with nothing remembered, without the server and without mpv; it checks in once a
/// minute until it learns better. It clears up, reads its files and then looks for the server.
pub proof fn starts_from_nothing(daemon: DaemonView, data: DataView, now: TimestampView)
    ensures
        DaemonView::initial().stage is CleaningUp,
        DaemonView::initial().status.data == DataView::blank(),
        DaemonView::initial().status.poll_seconds == 60,
        !DaemonView::initial().status.online,
        !DaemonView::initial().status.playing,
        daemon.stage is CleaningUp ==> {
            &&& daemon.action() == Action::CleanUp
            &&& daemon.next(EventView::Done, now) == (DaemonView {
                stage: StageView::Loading { starting: true },
                ..daemon
            })
        },
        daemon.stage == (StageView::Loading { starting: true }) ==> {
            &&& daemon.action() == Action::Load
            &&& daemon.next(EventView::Loaded(data), now) == (DaemonView {
                status: StatusView { data, ..daemon.status },
                stage: StageView::Probing { retries: 0 },
            })
        },
{
}

/// What was read after a hangup replaces what was remembered, and the player goes back to waiting.
pub proof fn hangup_reloads(daemon: DaemonView, data: DataView, now: TimestampView)
    ensures
        daemon.stage is Idle ==> daemon.next(EventView::Hangup, now) == (DaemonView {
            stage: StageView::Loading { starting: false },
            ..daemon
        }),
        daemon.stage == (StageView::Loading { starting: false }) ==> {
            &&& daemon.action() == Action::Load
            &&& daemon.next(EventView::Loaded(data), now) == (DaemonView {
                status: StatusView { data, ..daemon.status },
                stage: StageView::Idle,
            })
        },
{
}

/// The player goes on to the key exchange as soon as the server replies with 200, and never before.
/// Without it, a player with a playlist goes offline after thirty seconds, and any other player
/// keeps asking, once a second.
pub proof fn server_is_awaited(
    daemon: DaemonView,
    retries: u64,
    status: Option<u16>,
    cached: bool,
    waited_seconds: u64,
    now: TimestampView,
)
    requires
        daemon.stage == (StageView::Probing { retries }),
    ensures
        daemon.action() == Action::ProbeHealth,
        ({
            let next = daemon.next(EventView::Health { status, cached, waited_seconds }, now);
            &&& next.status == daemon.status
            &&& next.action() == Action::ExchangeKey <==> status == Some(200u16)
            &&& next.stage is ExchangingKey <==> status == Some(200u16)
            &&& next.stage is StartingPlayer <==> status != Some(200u16) && cached && waited_seconds
                >= 30
            &&& status != Some(200u16) && !cached ==> next.stage == (StageView::Pausing {
                retries,
                due_seconds: retries,
            })
            &&& status != Some(200u16) && cached && waited_seconds < 30 && retries <= 30
                ==> next.stage == (StageView::Pausing { retries, due_seconds: retries })
            &&& status != Some(200u16) && cached && waited_seconds < 30 && retries > 30
                ==> next.stage == (StageView::Pausing { retries, due_seconds: 30 })
        }),
{
}

/// Once a retry is due, the server is asked again.
pub proof fn retry_asks_again(
    daemon: DaemonView,
    retries: u64,
    due_seconds: u64,
    now: TimestampView,
)
    requires
        daemon.stage == (StageView::Pausing { retries, due_seconds }),
    ensures
        daemon.action() == (Action::AwaitRetry { due_seconds }),
        daemon.next(EventView::Done, now).status == daemon.status,
        daemon.next(EventView::Done, now).stage matches StageView::Probing { retries: counted }
            && counted >= retries && (retries < u64::MAX ==> counted == retries + 1),
{
}

/// With the key the player is online. It then fetches the content if it never did, or if the server
/// has asked for it, and asks for the schedule otherwise.
pub proof fn key_brings_player_online(daemon: DaemonView, now: TimestampView)
    requires
        daemon.stage is ExchangingKey,
    ensures
        daemon.action() == Action::ExchangeKey,
        ({
            let next = daemon.next(EventView::Done, now);
            &&& next.status == (StatusView { online: true, ..daemon.status })
            &&& daemon.status.data.last_update is None ==> next.stage == (StageView::Syncing {
                purpose: PurposeView::First,
            })
            &&& daemon.status.data.last_update is Some && daemon.status.data.update_content == Some(
                true,
            ) ==> next.stage == (StageView::Syncing { purpose: PurposeView::Requested })
            &&& daemon.status.data.last_update is Some && daemon.status.data.update_content != Some(
                true,
            ) ==> next.stage is ReadingRotation
        }),
{
}

/// An update runs through: once the server has said when the content was changed, its videos are
/// asked for; they are taken over and stored, and the playlist is rebuilt. Only without a schedule
/// does the answer decide whether there is an update at all.
pub proof fn update_runs_through(
    daemon: DaemonView,
    purpose: PurposeView,
    updated: Option<TimestampView>,
    videos: Seq<Video>,
    now: TimestampView,
)
    ensures
        daemon.stage == (StageView::Syncing { purpose }) ==> daemon.action() == Action::Sync,
        daemon.stage == (StageView::Syncing { purpose }) && !(purpose is Legacy) ==> daemon.next(
            EventView::Synced(updated),
            now,
        ) == (DaemonView { stage: StageView::Receiving { purpose, updated }, ..daemon }),
        daemon.stage == (StageView::Receiving { purpose, updated }) ==> {
            &&& daemon.action() == Action::ReceiveVideos
            &&& daemon.next(EventView::Videos(videos), now) == (DaemonView {
                status: StatusView {
                    data: daemon.status.data.with_videos(videos, updated),
                    ..daemon.status
                },
                stage: StageView::SavingVideos { purpose },
            })
        },
        daemon.stage == (StageView::SavingVideos { purpose }) ==> {
            &&& daemon.action() == Action::SaveData
            &&& daemon.next(EventView::Done, now) == (DaemonView {
                stage: StageView::Rebuilding { purpose },
                ..daemon
            })
        },
        daemon.stage == (StageView::Rebuilding { purpose }) ==> daemon.action()
            == Action::RebuildPlaylist,
{
}

/// Without a schedule, a change of the content is picked up exactly if none was picked up before or
/// it is later than the last one, whatever else the player remembers.
pub proof fn legacy_change_is_picked_up(
    daemon: DaemonView,
    updated: Option<TimestampView>,
    now: TimestampView,
)
    requires
        daemon.stage == (StageView::Syncing { purpose: PurposeView::Legacy }),
    ensures
        ({
            let next = daemon.next(EventView::Synced(updated), now);
            let receiving = DaemonView {
                stage: StageView::Receiving { purpose: PurposeView::Legacy, updated },
                ..daemon
            };
            match (updated, daemon.status.data.last_update) {
                (Some(time), Some(last)) => {
                    if time.seconds > last.seconds || (time.seconds == last.seconds
                        && time.nanoseconds > last.nanoseconds) {
                        next == receiving
                    } else {
                        !(next.action() is ReceiveVideos)
                    }
                },
                (Some(_), None) => next == receiving,
                (None, _) => !(next.action() is ReceiveVideos),
            }
        }),
{
}

/// Without a schedule and without a change, the content is fetched exactly if the server has asked
/// for it. If it has not, the check-in is over: mpv is left to run, and the next one follows after
/// twenty seconds.
pub proof fn legacy_without_change(
    daemon: DaemonView,
    updated: Option<TimestampView>,
    now: TimestampView,
)
    requires
        daemon.stage == (StageView::Syncing { purpose: PurposeView::Legacy }),
        match (updated, daemon.status.data.last_update) {
            (Some(time), Some(last)) => time == last || last.later_than(time),
            (Some(_), None) => false,
            (None, _) => true,
        },
    ensures
        ({
            let next = daemon.next(EventView::Synced(updated), now);
            &&& daemon.status.data.update_content == Some(true) ==> next == (DaemonView {
                stage: StageView::Syncing { purpose: PurposeView::LegacyRequested },
                ..daemon
            })
            &&& daemon.status.data.update_content != Some(true) ==> next == (DaemonView {
                status: StatusView { poll_seconds: 20, ..daemon.status },
                stage: StageView::Polling,
            })
        }),
{
}

/// After an update at the start, a request for another one is met first; then the rotation is asked
/// for.
pub proof fn start_goes_on_after_update(daemon: DaemonView, now: TimestampView)
    ensures
        daemon.stage == (StageView::Rebuilding { purpose: PurposeView::First }) ==> daemon.next(
            EventView::Done,
            now,
        ) == (DaemonView {
            stage: if daemon.status.data.update_content == Some(true) {
                StageView::Syncing { purpose: PurposeView::Requested }
            } else {
                StageView::ReadingRotation
            },
            ..daemon
        }),
        daemon.stage == (StageView::Rebuilding { purpose: PurposeView::Requested }) ==> daemon.next(
            EventView::Done,
            now,
        ) == (DaemonView { stage: StageView::ReadingRotation, ..daemon }),
{
}

/// After an update without a schedule mpv is restarted, once, and the next check-in follows after
/// twenty seconds; but a request for another update is met first.
pub proof fn legacy_update_restarts_player(daemon: DaemonView, now: TimestampView)
    ensures
        daemon.stage == (StageView::Rebuilding { purpose: PurposeView::Legacy })
            && daemon.status.data.update_content == Some(true) ==> daemon.next(EventView::Done, now)
            == (DaemonView {
            stage: StageView::Syncing { purpose: PurposeView::LegacyRequested },
            ..daemon
        }),
        (daemon.stage == (StageView::Rebuilding { purpose: PurposeView::Legacy })
            && daemon.status.data.update_content != Some(true)) || daemon.stage == (
        StageView::Rebuilding { purpose: PurposeView::LegacyRequested }) ==> daemon.next(
            EventView::Done,
            now,
        ) == (DaemonView {
            status: StatusView { poll_seconds: 20, ..daemon.status },
            stage: StageView::Restarting { again: false },
        }),
{
}

/// After an update that the schedule has called for, the server is sent a report if it has raised
/// any of its three flags, and the report holds exactly these flags. The layout does not count.
pub proof fn raised_flags_are_acknowledged(
    daemon: DaemonView,
    response: ScheduleView,
    now: TimestampView,
)
    requires
        daemon.stage == (StageView::Rebuilding { purpose: PurposeView::Schedule(response) }),
    ensures
        response.update_flags.playlist_update_needed || response.update_flags.schedule_update_needed
            || response.update_flags.content_update_needed ==> {
            let next = daemon.next(EventView::Done, now);
            let report = Acknowledgement {
                playlist_updated: response.update_flags.playlist_update_needed,
                schedule_updated: response.update_flags.schedule_update_needed,
                content_updated: response.update_flags.content_update_needed,
            };
            &&& next.status == daemon.status
            &&& next.stage == (StageView::Acknowledging { response, report })
            &&& next.action() == (Action::AcknowledgeUpdates { report })
        },
        !response.update_flags.playlist_update_needed
            && !response.update_flags.schedule_update_needed
            && !response.update_flags.content_update_needed ==> !(daemon.next(
            EventView::Done,
            now,
        ).action() is AcknowledgeUpdates),
{
}

/// Layout and rotation are taken over once the updates are acknowledged, or at once where there is
/// nothing to acknowledge; mpv is then to be restarted for the content in any case.
pub proof fn layout_follows_update(daemon: DaemonView, response: ScheduleView, now: TimestampView)
    requires
        daemon.stage is Acknowledging && daemon.stage->Acknowledging_response == response || (
        daemon.stage == (StageView::Rebuilding { purpose: PurposeView::Schedule(response) })
            && !response.update_flags.playlist_update_needed
            && !response.update_flags.schedule_update_needed
            && !response.update_flags.content_update_needed),
    ensures
        ({
            let next = daemon.next(EventView::Done, now);
            &&& next.status == (StatusView {
                data: daemon.status.data.with_layout(response),
                ..daemon.status
            })
            &&& response.update_flags.layout_change ==> next.action() == Action::AcknowledgeLayout
                && next.stage == (StageView::AcknowledgingLayout {
                response,
                content_updated: true,
                restart: true,
            })
            &&& !response.update_flags.layout_change ==> next.action() == Action::SaveData
                && next.stage == (StageView::SavingSchedule {
                response,
                content_updated: true,
                restart: true,
            })
        }),
{
}

/// A player that waits checks in when it is time: for the schedule if the server was reached before,
/// and otherwise for the server. Asked to end, it ends mpv.
pub proof fn waiting_ends(daemon: DaemonView, now: TimestampView)
    requires
        daemon.stage is Idle,
    ensures
        daemon.action() == Action::Await,
        daemon.status.online ==> daemon.next(EventView::Tick, now) == (DaemonView {
            stage: StageView::CheckingSchedule,
            ..daemon
        }) && daemon.next(EventView::Tick, now).action() == Action::CheckSchedule,
        !daemon.status.online ==> daemon.next(EventView::Tick, now) == (DaemonView {
            stage: StageView::ProbingOffline,
            ..daemon
        }) && daemon.next(EventView::Tick, now).action() == Action::ProbeHealth,
        daemon.next(EventView::Stop, now) == (DaemonView { stage: StageView::Killing, ..daemon }),
        daemon.next(EventView::Stop, now).action() == Action::KillPlayer,
{
}

/// A player that plays offline makes up for its start as soon as the server replies with 200, and
/// otherwise sees to mpv.
pub proof fn offline_until_server_is_back(
    daemon: DaemonView,
    status: Option<u16>,
    cached: bool,
    waited_seconds: u64,
    now: TimestampView,
)
    requires
        daemon.stage is ProbingOffline,
    ensures
        daemon.next(EventView::Health { status, cached, waited_seconds }, now) == (DaemonView {
            stage: if status == Some(200u16) {
                StageView::ExchangingKey
            } else {
                StageView::Polling
            },
            ..daemon
        }),
{
}

/// Where the server wants another playlist than the current one, whether or not there was one, the
/// content is fetched, and the wanted playlist becomes the current one.
pub proof fn other_playlist_is_fetched(
    daemon: DaemonView,
    response: ScheduleView,
    now: TimestampView,
)
    requires
        daemon.stage is CheckingSchedule,
        daemon.status.data.current_playlist != response.effective_playlist(),
    ensures
        ({
            let next = daemon.next(EventView::Schedule(response), now);
            &&& next.stage == (StageView::Syncing { purpose: PurposeView::Schedule(response) })
            &&& next.action() == Action::Sync
            &&& next.status.data.current_playlist == response.effective_playlist()
        }),
{
}

/// Where the server names a playlist as active that is not the current one, the content is fetched.
pub proof fn named_playlist_is_fetched(
    daemon: DaemonView,
    response: ScheduleView,
    text: Seq<char>,
    value: u128,
    now: TimestampView,
)
    requires
        daemon.stage is CheckingSchedule,
        response.active_playlist_id == Some(text),
        uuid_value(text) == Some(value),
        match daemon.status.data.current_playlist {
            Some(current) => current.value != value,
            None => true,
        },
    ensures
        ({
            let next = daemon.next(EventView::Schedule(response), now);
            &&& next.action() == Action::Sync
            &&& next.stage == (StageView::Syncing { purpose: PurposeView::Schedule(response) })
            &&& next.status.data.current_playlist matches Some(current) && current.value == value
        }),
{
}

/// A raised flag for the playlist or for the content has the content fetched, whatever playlist is
/// current.
pub proof fn raised_flag_fetches(daemon: DaemonView, response: ScheduleView, now: TimestampView)
    requires
        daemon.stage is CheckingSchedule,
        response.update_flags.playlist_update_needed || response.update_flags.content_update_needed,
    ensures
        daemon.next(EventView::Schedule(response), now).stage == (StageView::Syncing {
            purpose: PurposeView::Schedule(response),
        }),
{
}

/// With the wanted playlist current and no such flag raised, nothing is fetched: schedule, layout
/// and rotation are taken over, and mpv is to be restarted only for a rotation.
pub proof fn nothing_is_fetched_without_need(
    daemon: DaemonView,
    response: ScheduleView,
    now: TimestampView,
)
    requires
        daemon.stage is CheckingSchedule,
        daemon.status.data.current_playlist == response.effective_playlist(),
        !response.update_flags.playlist_update_needed,
        !response.update_flags.content_update_needed,
    ensures
        ({
            let next = daemon.next(EventView::Schedule(response), now);
            let scheduled = daemon.status.data.with_schedule(response, now);
            let restart = daemon.status.data.rotation_to_apply(response);
            &&& next.status == (StatusView {
                data: scheduled.with_layout(response),
                ..daemon.status
            })
            &&& response.update_flags.layout_change ==> next.stage == (
            StageView::AcknowledgingLayout { response, content_updated: false, restart })
                && next.action() == Action::AcknowledgeLayout
            &&& !response.update_flags.layout_change ==> next.stage == (StageView::SavingSchedule {
                response,
                content_updated: false,
                restart,
            }) && next.action() == Action::SaveData
        }),
{
}

/// Whether or not the content is fetched, the schedule of a check-in is taken over as it is, and
/// nothing but the data changes.
pub proof fn schedule_is_taken_over(daemon: DaemonView, response: ScheduleView, now: TimestampView)
    requires
        daemon.stage is CheckingSchedule,
    ensures
        daemon.action() == Action::CheckSchedule,
        ({
            let next = daemon.next(EventView::Schedule(response), now);
            let before = daemon.status.data;
            let after = next.status.data;
            &&& next.status == (StatusView { data: after, ..daemon.status })
            &&& after.current_playlist == response.effective_playlist()
            &&& after.active_schedule_ends == response.schedule_ends_at
            &&& after.next_schedule_starts == response.next_schedule_starts_at
            &&& after.last_schedule_check == Some(now)
            &&& after.next_playlist_id == before.with_schedule(response, now).next_playlist_id
            &&& after.fallback_playlist == before.with_schedule(response, now).fallback_playlist
            &&& after.videos == before.videos
            &&& after.last_update == before.last_update
            &&& after.update_content == before.update_content
            &&& next.stage is Syncing ==> after == before.with_schedule(response, now)
        }),
{
}

/// A layout that was reported, or could not be, is followed by storing the data, with nothing
/// forgotten of what is still to be done.
pub proof fn report_of_layout_changes_nothing(
    daemon: DaemonView,
    response: ScheduleView,
    content_updated: bool,
    restart: bool,
    now: TimestampView,
)
    requires
        daemon.stage == (StageView::AcknowledgingLayout { response, content_updated, restart }),
    ensures
        daemon.action() == Action::AcknowledgeLayout,
        ({
            let saving = DaemonView {
                stage: StageView::SavingSchedule { response, content_updated, restart },
                ..daemon
            };
            &&& saving.action() == Action::SaveData
            &&& daemon.next(EventView::Done, now) == saving
            &&& daemon.next(EventView::Failed, now) == saving
        }),
{
}

/// Once the data is stored, the interval is set by the schedule, and mpv is restarted: for the
/// rotation or the content once, for new content that the schedule has called for once more. Where
/// neither has changed, mpv is left to run.
pub proof fn stored_check_in_restarts_player(
    daemon: DaemonView,
    response: ScheduleView,
    content_updated: bool,
    restart: bool,
    now: TimestampView,
)
    requires
        daemon.stage == (StageView::SavingSchedule { response, content_updated, restart }),
    ensures
        ({
            let next = daemon.next(EventView::Done, now);
            &&& next.status == (StatusView {
                poll_seconds: response.poll_interval(now),
                ..daemon.status
            })
            &&& next.action() is RestartPlayer <==> restart || content_updated
            &&& next.stage == (StageView::Restarting { again: true }) <==> restart
                && content_updated
            &&& next.stage == (StageView::Restarting { again: false }) <==> restart
                != content_updated
            &&& next.stage is Polling <==> !restart && !content_updated
        }),
{
}

/// A restart passes on the rotation that is current, and afterwards mpv is looked at.
pub proof fn restart_comes_to_its_end(daemon: DaemonView, now: TimestampView)
    ensures
        daemon.stage is Restarting ==> daemon.action() == (Action::RestartPlayer {
            rotation: daemon.status.rotation(),
        }),
        daemon.stage == (StageView::Restarting { again: true }) ==> daemon.next(
            EventView::Done,
            now,
        ) == (DaemonView { stage: StageView::Restarting { again: false }, ..daemon }),
        daemon.stage == (StageView::Restarting { again: false }) ==> daemon.next(
            EventView::Done,
            now,
        ) == (DaemonView { stage: StageView::Polling, ..daemon }),
{
}

/// An mpv that has ended is started again, with the rotation that is current; one that runs, or
/// cannot be looked at, is left alone. Then the player rests for ten seconds and waits.
pub proof fn player_is_seen_to(daemon: DaemonView, now: TimestampView)
    ensures
        daemon.stage is Polling ==> {
            let resting = DaemonView { stage: StageView::Resting, ..daemon };
            let reviving = DaemonView { stage: StageView::Reviving, ..daemon };
            &&& daemon.action() == Action::PollPlayer
            &&& daemon.next(EventView::Done, now) == resting
            &&& daemon.next(EventView::Failed, now) == resting
            &&& daemon.next(EventView::PlayerExited, now) == reviving
        },
        daemon.stage is Reviving ==> {
            &&& daemon.action() == (Action::StartPlayer { rotation: daemon.status.rotation() })
            &&& daemon.next(EventView::Done, now) == (DaemonView {
                stage: StageView::Resting,
                ..daemon
            })
        },
        daemon.stage is Resting ==> {
            &&& daemon.action() == (Action::Pause { seconds: 10 })
            &&& daemon.next(EventView::Done, now) == (DaemonView {
                stage: StageView::Idle,
                ..daemon
            })
        },
{
}

/// mpv is started with the rotation that is current if that is a quarter turn, and without one
/// otherwise.
pub proof fn rotation_of_player(status: StatusView)
    ensures
        status.data.current_rotation is None ==> status.rotation() == 0,
        status.data.current_rotation matches Some(degrees) ==> status.rotation() == (if 0 <= degrees
            < 360 && degrees % 90 == 0 {
            degrees
        } else {
            0
        }),
{
}

/// At the start the rotation of the schedule is taken over and counts as applied, if it is a quarter
/// turn. Any other rotation, and a schedule without one or that cannot be had, count as no rotation.
pub proof fn start_takes_rotation(daemon: DaemonView, response: ScheduleView, now: TimestampView)
    requires
        daemon.stage is ReadingRotation,
    ensures
        daemon.action() == Action::CheckSchedule,
        ({
            let next = daemon.next(EventView::Schedule(response), now);
            let degrees = match response.rotation {
                Some(rotation) if 0 <= rotation < 360 && rotation % 90 == 0 => rotation,
                _ => 0,
            };
            &&& next.stage is SavingRotation
            &&& next.action() == Action::SaveData
            &&& next.status == (StatusView {
                data: DataView {
                    current_rotation: Some(degrees),
                    rotation_applied: Some(degrees),
                    ..daemon.status.data
                },
                ..daemon.status
            })
            &&& next.status.rotation() == degrees
        }),
        daemon.next(EventView::Failed, now) == (DaemonView {
            status: StatusView {
                data: DataView {
                    current_rotation: Some(0),
                    rotation_applied: Some(0),
                    ..daemon.status.data
                },
                ..daemon.status
            },
            stage: StageView::SavingRotation,
        }),
{
}

/// Once the rotation is stored, mpv is started, or restarted if it plays already; then the player
/// waits.
pub proof fn start_ends_with_player(daemon: DaemonView, now: TimestampView)
    ensures
        daemon.stage is SavingRotation ==> daemon.next(EventView::Done, now) == (DaemonView {
            stage: StageView::StartingPlayer,
            ..daemon
        }),
        daemon.stage is StartingPlayer ==> {
            &&& !daemon.status.playing ==> daemon.action() == (Action::StartPlayer {
                rotation: daemon.status.rotation(),
            })
            &&& daemon.status.playing ==> daemon.action() == (Action::RestartPlayer {
                rotation: daemon.status.rotation(),
            })
            &&& daemon.next(EventView::Done, now) == (DaemonView {
                status: StatusView { playing: true, ..daemon.status },
                stage: StageView::Idle,
            })
        },
{
}

/// Once mpv is ended on request, the player ends without a failure.
pub proof fn requested_end(daemon: DaemonView, now: TimestampView)
    ensures
        daemon.stage is Killing ==> {
            let next = daemon.next(EventView::Done, now);
            &&& daemon.action() == Action::KillPlayer
            &&& next == (DaemonView { stage: StageView::Stopped { failed: false }, ..daemon })
            &&& next.action() == (Action::Exit { failed: false })
        },
{
}

/// A failure is passed over where the player can do without: a schedule, the report of a layout, a
/// look at mpv. Every other failure ends the player, with what it remembers as it was.
pub proof fn failure_ends_player_or_is_passed_over(daemon: DaemonView, now: TimestampView)
    ensures
        ({
            let next = daemon.next(EventView::Failed, now);
            match daemon.stage {
                StageView::CheckingSchedule => next == (DaemonView {
                    stage: StageView::Syncing { purpose: PurposeView::Legacy },
                    ..daemon
                }),
                StageView::ReadingRotation => next.stage is SavingRotation,
                StageView::AcknowledgingLayout { .. } => next.stage is SavingSchedule,
                StageView::Polling => next.stage is Resting,
                StageView::Stopped { .. } => next == daemon,
                _ => next == (DaemonView { stage: StageView::Stopped { failed: true }, ..daemon })
                    && next.action() == (Action::Exit { failed: true }),
            }
        }),
{
}

/// An event that is no outcome of the action at hand changes nothing.
pub proof fn out_of_turn_changes_nothing(
    daemon: DaemonView,
    event: EventView,
    now: TimestampView,
)
    requires
        match daemon.action() {
            Action::Load => !(event is Loaded),
            Action::ProbeHealth => !(event is Health),
            Action::CheckSchedule => !(event is Schedule),
            Action::Sync => !(event is Synced),
            Action::ReceiveVideos => !(event is Videos),
            Action::PollPlayer => !(event is Done) && !(event is PlayerExited),
            Action::Await => !(event is Tick) && !(event is Stop) && !(event is Hangup),
            Action::Exit { .. } => true,
            _ => !(event is Done),
        },
        !(event is Failed),
    ensures
        daemon.next(event, now) == daemon,
{
}

/// The interval changes only at the end of a check-in, the player comes online only by a key, and
/// starts to play only by starting mpv; it never goes back on either.
pub proof fn standing_changes_in_its_turn(
    daemon: DaemonView,
    event: EventView,
    now: TimestampView,
)
    ensures
        ({
            let next = daemon.next(event, now);
            &&& next.status.poll_seconds != daemon.status.poll_seconds ==> next.stage is Restarting
                || next.stage is Polling
            &&& daemon.status.online ==> next.status.online
            &&& next.status.online && !daemon.status.online ==> daemon.action()
                == Action::ExchangeKey && event is Done
            &&& daemon.status.playing ==> next.status.playing
            &&& next.status.playing && !daemon.status.playing ==> daemon.stage is StartingPlayer
                && event is Done
        }),
{
}

/// From a tick to the next wait, where the server wants another playlist, has raised no flag and
/// names neither layout nor rotation: the content is fetched and stored, the playlist is rebuilt, and
/// mpv is restarted.
pub proof fn playlist_switch_from_end_to_end(
    daemon: DaemonView,
    response: ScheduleView,
    updated: Option<TimestampView>,
    videos: Seq<Video>,
    now: TimestampView,
)
    requires
        daemon.stage is Idle,
        daemon.status.online,
        daemon.status.data.current_playlist != response.effective_playlist(),
        !response.update_flags.playlist_update_needed,
        !response.update_flags.schedule_update_needed,
        !response.update_flags.content_update_needed,
        !response.update_flags.layout_change,
        response.layout is None,
        response.rotation is None,
    ensures
        ({
            let checking = daemon.next(EventView::Tick, now);
            let syncing = checking.next(EventView::Schedule(response), now);
            let receiving = syncing.next(EventView::Synced(updated), now);
            let saving = receiving.next(EventView::Videos(videos), now);
            let rebuilding = saving.next(EventView::Done, now);
            let storing = rebuilding.next(EventView::Done, now);
            let restarting = storing.next(EventView::Done, now);
            let again = restarting.next(EventView::Done, now);
            let polling = again.next(EventView::Done, now);
            let resting = polling.next(EventView::Done, now);
            let waiting = resting.next(EventView::Done, now);
            &&& checking.action() == Action::CheckSchedule
            &&& syncing.action() == Action::Sync
            &&& receiving.action() == Action::ReceiveVideos
            &&& saving.action() == Action::SaveData
            &&& rebuilding.action() == Action::RebuildPlaylist
            &&& storing.action() == Action::SaveData
            &&& restarting.action() is RestartPlayer
            &&& again.action() is RestartPlayer
            &&& polling.action() == Action::PollPlayer
            &&& resting.action() is Pause
            &&& waiting.action() == Action::Await
            &&& waiting.status.data.current_playlist == response.effective_playlist()
        }),
{
}

/// A check-in that finds the wanted playlist current, with no flag raised and neither layout nor
/// rotation named, stores the schedule and leaves mpv to run.
pub proof fn same_playlist_is_left_alone(
    daemon: DaemonView,
    response: ScheduleView,
    now: TimestampView,
)
    requires
        daemon.stage is Idle,
        daemon.status.online,
        daemon.status.data.current_playlist == response.effective_playlist(),
        !response.update_flags.playlist_update_needed,
        !response.update_flags.content_update_needed,
        !response.update_flags.layout_change,
        response.layout is None,
        response.rotation is None,
    ensures
        ({
            let storing = daemon.next(EventView::Tick, now).next(EventView::Schedule(response), now);
            let polling = storing.next(EventView::Done, now);
            &&& storing.action() == Action::SaveData
            &&& polling.action() == Action::PollPlayer
            &&& polling.status.data == daemon.status.data.with_schedule(response, now)
        }),
{
}

/// Where the server announces a rotation other than the applied one, zero as well, and nothing else
/// is new, mpv is restarted with it as far as it is a quarter turn; the same answer then calls for
/// no other restart.
pub proof fn announced_rotation_from_end_to_end(
    daemon: DaemonView,
    response: ScheduleView,
    rotation: i32,
    now: TimestampView,
)
    requires
        daemon.stage is CheckingSchedule,
        daemon.status.data.current_playlist == response.effective_playlist(),
        !response.update_flags.playlist_update_needed,
        !response.update_flags.content_update_needed,
        response.update_flags.layout_change,
        response.rotation == Some(rotation),
        daemon.status.data.rotation_applied != Some(rotation),
    ensures
        ({
            let reporting = daemon.next(EventView::Schedule(response), now);
            let storing = reporting.next(EventView::Done, now);
            let restarting = storing.next(EventView::Done, now);
            let polling = restarting.next(EventView::Done, now);
            let repeated = (DaemonView { stage: StageView::CheckingSchedule, ..polling }).next(
                EventView::Schedule(response),
                now,
            ).next(EventView::Done, now).next(EventView::Done, now);
            &&& reporting.action() == Action::AcknowledgeLayout
            &&& storing.action() == Action::SaveData
            &&& restarting.action() == (Action::RestartPlayer {
                rotation: if 0 <= rotation < 360 && rotation % 90 == 0 {
                    rotation
                } else {
                    0
                },
            })
            &&& restarting.status.data.current_rotation == Some(rotation)
            &&& restarting.status.data.rotation_applied == Some(rotation)
            &&& polling.action() == Action::PollPlayer
            &&& repeated.action() == Action::PollPlayer
        }),
{
}

} // verus!
