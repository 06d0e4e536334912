use signaged::daemon::{Action, Daemon, Event};
use signaged::data::Data;
use signaged::playlist::Video;
use signaged::request::Acknowledgement;
use signaged::schedule::{ClientTimelineScheduleResponse, ClientUpdateFlagsResponse};
use signaged::time::Timestamp;

const NOW: i64 = 1_000_000;

fn at(seconds: i64) -> Timestamp {
    Timestamp::new(seconds, 0).unwrap()
}

fn response() -> ClientTimelineScheduleResponse {
    ClientTimelineScheduleResponse {
        active_playlist_id: None,
        fallback_playlist_id: None,
        next_playlist_id: None,
        schedule_ends_at: None,
        next_schedule_starts_at: None,
        update_flags: ClientUpdateFlagsResponse {
            playlist_update_needed: false,
            schedule_update_needed: false,
            content_update_needed: false,
            layout_change: false,
            current_layout: None,
        },
        layout: None,
        rotation: None,
    }
}

fn video(asset_order: i64) -> Video {
    Video { url: format!("v{}", asset_order), asset_order }
}

fn health(status: Option<u16>, cached: bool, waited_seconds: u64) -> Event {
    Event::Health { status, cached, waited_seconds }
}

/// Checks the action at hand and reports its outcome.
fn answer(daemon: Daemon, action: Action, event: Event) -> Daemon {
    assert_eq!(daemon.action(), action);
    daemon.step_at(event, at(NOW))
}

/// A daemon that waits for its first check-in, with content of second 500 and no rotation.
fn waiting() -> Daemon {
    let mut data = Data::new();
    data.last_update = Some(at(500));
    let daemon = answer(Daemon::new(), Action::CleanUp, Event::Done);
    let daemon = answer(daemon, Action::Load, Event::Loaded(data));
    let daemon = answer(daemon, Action::ProbeHealth, health(Some(200), true, 0));
    let daemon = answer(daemon, Action::ExchangeKey, Event::Done);
    let daemon = answer(daemon, Action::CheckSchedule, Event::Schedule(response()));
    let daemon = answer(daemon, Action::SaveData, Event::Done);
    let daemon = answer(daemon, Action::StartPlayer { rotation: 0 }, Event::Done);
    assert_eq!(daemon.action(), Action::Await);
    assert_eq!(daemon.poll_seconds(), 60);
    daemon
}

/// The end of a check-in: mpv runs, and the daemon rests.
fn see_to_player(daemon: Daemon) -> Daemon {
    let daemon = answer(daemon, Action::PollPlayer, Event::Done);
    let daemon = answer(daemon, Action::Pause { seconds: 10 }, Event::Done);
    assert_eq!(daemon.action(), Action::Await);
    daemon
}

#[test]
fn first_boot_updates_before_playing() {
    let daemon = answer(Daemon::new(), Action::CleanUp, Event::Done);
    let daemon = answer(daemon, Action::Load, Event::Loaded(Data::new()));
    let daemon = answer(daemon, Action::ProbeHealth, health(None, false, 0));
    let daemon = answer(daemon, Action::AwaitRetry { due_seconds: 0 }, Event::Done);
    let daemon = answer(daemon, Action::ProbeHealth, health(Some(500), false, 0));
    let daemon = answer(daemon, Action::AwaitRetry { due_seconds: 1 }, Event::Done);
    let daemon = answer(daemon, Action::ProbeHealth, health(Some(503), false, 100));
    let daemon = answer(daemon, Action::AwaitRetry { due_seconds: 2 }, Event::Done);
    let daemon = answer(daemon, Action::ProbeHealth, health(Some(200), false, 100));
    let daemon = answer(daemon, Action::ExchangeKey, Event::Done);
    let daemon = answer(daemon, Action::Sync, Event::Synced(Some(at(7))));
    let daemon = answer(daemon, Action::ReceiveVideos, Event::Videos(vec![video(2), video(1)]));
    assert_eq!(daemon.data().videos[0].asset_order, 1);
    assert_eq!(daemon.data().last_update.unwrap().seconds(), 7);
    assert_eq!(daemon.data().update_content, Some(false));
    let daemon = answer(daemon, Action::SaveData, Event::Done);
    let daemon = answer(daemon, Action::RebuildPlaylist, Event::Done);
    let mut schedule = response();
    schedule.rotation = Some(90);
    let daemon = answer(daemon, Action::CheckSchedule, Event::Schedule(schedule));
    assert_eq!(daemon.data().current_rotation, Some(90));
    assert_eq!(daemon.data().rotation_applied, Some(90));
    let daemon = answer(daemon, Action::SaveData, Event::Done);
    let daemon = answer(daemon, Action::StartPlayer { rotation: 90 }, Event::Done);
    assert_eq!(daemon.action(), Action::Await);
}

#[test]
fn requested_update_comes_before_playing() {
    let mut data = Data::new();
    data.last_update = Some(at(500));
    data.update_content = Some(true);
    let daemon = answer(Daemon::new(), Action::CleanUp, Event::Done);
    let daemon = answer(daemon, Action::Load, Event::Loaded(data));
    let daemon = answer(daemon, Action::ProbeHealth, health(Some(200), true, 0));
    let daemon = answer(daemon, Action::ExchangeKey, Event::Done);
    let daemon = answer(daemon, Action::Sync, Event::Synced(None));
    let daemon = answer(daemon, Action::ReceiveVideos, Event::Videos(Vec::new()));
    assert!(daemon.data().last_update.is_none());
    let daemon = answer(daemon, Action::SaveData, Event::Done);
    let daemon = answer(daemon, Action::RebuildPlaylist, Event::Done);
    // Without a schedule the picture is not turned, nor by a rotation that cannot be applied.
    let daemon = answer(daemon, Action::CheckSchedule, Event::Failed);
    assert_eq!(daemon.data().current_rotation, Some(0));
    assert_eq!(daemon.action(), Action::SaveData);
}

#[test]
fn odd_rotation_at_the_start_is_none() {
    let daemon = answer(Daemon::new(), Action::CleanUp, Event::Done);
    let mut data = Data::new();
    data.last_update = Some(at(500));
    let daemon = answer(daemon, Action::Load, Event::Loaded(data));
    let daemon = answer(daemon, Action::ProbeHealth, health(Some(200), true, 0));
    let daemon = answer(daemon, Action::ExchangeKey, Event::Done);
    let mut schedule = response();
    schedule.rotation = Some(45);
    let daemon = answer(daemon, Action::CheckSchedule, Event::Schedule(schedule));
    assert_eq!(daemon.data().rotation_applied, Some(0));
}

#[test]
fn cached_playlist_is_played_offline() {
    let mut data = Data::new();
    data.current_rotation = Some(180);
    let daemon = answer(Daemon::new(), Action::CleanUp, Event::Done);
    let daemon = answer(daemon, Action::Load, Event::Loaded(data));
    let daemon = answer(daemon, Action::ProbeHealth, health(Some(500), true, 2));
    let daemon = answer(daemon, Action::AwaitRetry { due_seconds: 0 }, Event::Done);
    let daemon = answer(daemon, Action::ProbeHealth, health(None, true, 30));
    let daemon = answer(daemon, Action::StartPlayer { rotation: 180 }, Event::Done);
    // A check-in only asks whether the server is back, and mpv is seen to.
    let daemon = answer(daemon, Action::Await, Event::Tick);
    let daemon = answer(daemon, Action::ProbeHealth, health(Some(503), true, 0));
    let daemon = answer(daemon, Action::PollPlayer, Event::PlayerExited);
    let daemon = answer(daemon, Action::StartPlayer { rotation: 180 }, Event::Done);
    let daemon = answer(daemon, Action::Pause { seconds: 10 }, Event::Done);
    // Once it is back, the start is made up for.
    let daemon = answer(daemon, Action::Await, Event::Tick);
    let daemon = answer(daemon, Action::ProbeHealth, health(Some(200), true, 0));
    let daemon = answer(daemon, Action::ExchangeKey, Event::Done);
    let daemon = answer(daemon, Action::Sync, Event::Synced(None));
    let daemon = answer(daemon, Action::ReceiveVideos, Event::Videos(Vec::new()));
    let daemon = answer(daemon, Action::SaveData, Event::Done);
    let daemon = answer(daemon, Action::RebuildPlaylist, Event::Done);
    let daemon = answer(daemon, Action::CheckSchedule, Event::Failed);
    let daemon = answer(daemon, Action::SaveData, Event::Done);
    let daemon = answer(daemon, Action::RestartPlayer { rotation: 0 }, Event::Done);
    let daemon = answer(daemon, Action::Await, Event::Tick);
    assert_eq!(daemon.action(), Action::CheckSchedule);
}

#[test]
fn quiet_check_in_only_saves() {
    let daemon = answer(waiting(), Action::Await, Event::Tick);
    let mut schedule = response();
    schedule.schedule_ends_at = Some(at(NOW + 60));
    let daemon = answer(daemon, Action::CheckSchedule, Event::Schedule(schedule));
    assert_eq!(daemon.data().last_schedule_check.unwrap().seconds(), NOW);
    assert_eq!(daemon.data().active_schedule_ends.unwrap().seconds(), NOW + 60);
    let daemon = answer(daemon, Action::SaveData, Event::Done);
    assert_eq!(daemon.poll_seconds(), 10);
    see_to_player(daemon);
}

#[test]
fn new_playlist_is_fetched_and_shown() {
    let daemon = answer(waiting(), Action::Await, Event::Tick);
    let mut schedule = response();
    schedule.active_playlist_id = Some("00000000-0000-0000-0000-000000000005".to_string());
    let daemon = answer(daemon, Action::CheckSchedule, Event::Schedule(schedule));
    assert_eq!(daemon.data().current_playlist.unwrap().value, 5);
    let daemon = answer(daemon, Action::Sync, Event::Synced(Some(at(400))));
    let daemon = answer(daemon, Action::ReceiveVideos, Event::Videos(vec![video(1)]));
    let daemon = answer(daemon, Action::SaveData, Event::Done);
    let daemon = answer(daemon, Action::RebuildPlaylist, Event::Done);
    // No flag was raised, so there is nothing to acknowledge.
    let daemon = answer(daemon, Action::SaveData, Event::Done);
    let daemon = answer(daemon, Action::RestartPlayer { rotation: 0 }, Event::Done);
    let daemon = answer(daemon, Action::RestartPlayer { rotation: 0 }, Event::Done);
    assert_eq!(daemon.poll_seconds(), 60);
    see_to_player(daemon);
}

#[test]
fn flagged_update_is_acknowledged() {
    let daemon = answer(waiting(), Action::Await, Event::Tick);
    let mut schedule = response();
    schedule.update_flags.content_update_needed = true;
    schedule.update_flags.schedule_update_needed = true;
    schedule.update_flags.layout_change = true;
    schedule.rotation = Some(270);
    let daemon = answer(daemon, Action::CheckSchedule, Event::Schedule(schedule));
    let daemon = answer(daemon, Action::Sync, Event::Synced(None));
    let daemon = answer(daemon, Action::ReceiveVideos, Event::Videos(Vec::new()));
    let daemon = answer(daemon, Action::SaveData, Event::Done);
    let daemon = answer(daemon, Action::RebuildPlaylist, Event::Done);
    let report = Acknowledgement {
        playlist_updated: false,
        schedule_updated: true,
        content_updated: true,
    };
    let daemon = answer(daemon, Action::AcknowledgeUpdates { report }, Event::Done);
    assert_eq!(daemon.data().rotation_applied, Some(270));
    let daemon = answer(daemon, Action::AcknowledgeLayout, Event::Failed);
    let daemon = answer(daemon, Action::SaveData, Event::Done);
    assert_eq!(daemon.poll_seconds(), 5);
    let daemon = answer(daemon, Action::RestartPlayer { rotation: 270 }, Event::Done);
    let daemon = answer(daemon, Action::RestartPlayer { rotation: 270 }, Event::Done);
    see_to_player(daemon);
}

#[test]
fn rotation_restarts_once() {
    let daemon = answer(waiting(), Action::Await, Event::Tick);
    let mut schedule = response();
    schedule.update_flags.layout_change = true;
    schedule.rotation = Some(33);
    let daemon = answer(daemon, Action::CheckSchedule, Event::Schedule(schedule));
    let daemon = answer(daemon, Action::AcknowledgeLayout, Event::Done);
    let daemon = answer(daemon, Action::SaveData, Event::Done);
    assert_eq!(daemon.data().current_rotation, Some(33));
    let daemon = answer(daemon, Action::RestartPlayer { rotation: 0 }, Event::Done);
    see_to_player(daemon);
}

#[test]
fn without_a_schedule_changes_are_picked_up() {
    let daemon = answer(waiting(), Action::Await, Event::Tick);
    let daemon = answer(daemon, Action::CheckSchedule, Event::Failed);
    let daemon = answer(daemon, Action::Sync, Event::Synced(Some(at(501))));
    let daemon = answer(daemon, Action::ReceiveVideos, Event::Videos(vec![video(3)]));
    let daemon = answer(daemon, Action::SaveData, Event::Done);
    let daemon = answer(daemon, Action::RebuildPlaylist, Event::Done);
    assert_eq!(daemon.poll_seconds(), 20);
    let daemon = answer(daemon, Action::RestartPlayer { rotation: 0 }, Event::Done);
    let daemon = see_to_player(daemon);
    // The same change again is no news.
    let daemon = answer(daemon, Action::Await, Event::Tick);
    let daemon = answer(daemon, Action::CheckSchedule, Event::Failed);
    let daemon = answer(daemon, Action::Sync, Event::Synced(Some(at(501))));
    see_to_player(daemon);
}

#[test]
fn without_a_schedule_a_requested_update_is_carried_out() {
    let daemon = answer(waiting(), Action::Await, Event::Hangup);
    let mut data = Data::new();
    data.last_update = Some(at(500));
    data.update_content = Some(true);
    let daemon = answer(daemon, Action::Load, Event::Loaded(data));
    let daemon = answer(daemon, Action::Await, Event::Tick);
    let daemon = answer(daemon, Action::CheckSchedule, Event::Failed);
    let daemon = answer(daemon, Action::Sync, Event::Synced(Some(at(500))));
    let daemon = answer(daemon, Action::Sync, Event::Synced(Some(at(500))));
    let daemon = answer(daemon, Action::ReceiveVideos, Event::Videos(Vec::new()));
    let daemon = answer(daemon, Action::SaveData, Event::Done);
    let daemon = answer(daemon, Action::RebuildPlaylist, Event::Done);
    assert_eq!(daemon.poll_seconds(), 20);
    let daemon = answer(daemon, Action::RestartPlayer { rotation: 0 }, Event::Done);
    see_to_player(daemon);
}

#[test]
fn mpv_that_has_ended_is_started_again() {
    let daemon = answer(waiting(), Action::Await, Event::Tick);
    let daemon = answer(daemon, Action::CheckSchedule, Event::Schedule(response()));
    let daemon = answer(daemon, Action::SaveData, Event::Done);
    let daemon = answer(daemon, Action::PollPlayer, Event::PlayerExited);
    let daemon = answer(daemon, Action::StartPlayer { rotation: 0 }, Event::Done);
    let daemon = answer(daemon, Action::Pause { seconds: 10 }, Event::Done);
    // An mpv that cannot be looked at is left alone.
    let daemon = answer(daemon, Action::Await, Event::Tick);
    let daemon = answer(daemon, Action::CheckSchedule, Event::Schedule(response()));
    let daemon = answer(daemon, Action::SaveData, Event::Done);
    let daemon = answer(daemon, Action::PollPlayer, Event::Failed);
    assert_eq!(daemon.action(), Action::Pause { seconds: 10 });
}

#[test]
fn signals_end_or_reload() {
    let daemon = answer(waiting(), Action::Await, Event::Stop);
    let daemon = answer(daemon, Action::KillPlayer, Event::Done);
    assert_eq!(daemon.action(), Action::Exit { failed: false });
    let daemon = daemon.step_at(Event::Tick, at(NOW));
    assert_eq!(daemon.action(), Action::Exit { failed: false });

    let daemon = answer(waiting(), Action::Await, Event::Hangup);
    let mut data = Data::new();
    data.current_rotation = Some(90);
    let daemon = answer(daemon, Action::Load, Event::Loaded(data));
    assert_eq!(daemon.action(), Action::Await);
    assert_eq!(daemon.data().current_rotation, Some(90));
}

#[test]
fn failures_end_the_daemon() {
    let failed = Action::Exit { failed: true };
    assert_eq!(answer(Daemon::new(), Action::CleanUp, Event::Failed).action(), failed);
    let loading = answer(Daemon::new(), Action::CleanUp, Event::Done);
    assert_eq!(answer(loading, Action::Load, Event::Failed).action(), failed);
    let syncing = answer(answer(waiting(), Action::Await, Event::Tick), Action::CheckSchedule, Event::Failed);
    assert_eq!(answer(syncing, Action::Sync, Event::Failed).action(), failed);
    assert_eq!(answer(waiting(), Action::Await, Event::Failed).action(), failed);
    let killing = answer(waiting(), Action::Await, Event::Stop);
    assert_eq!(answer(killing, Action::KillPlayer, Event::Failed).action(), failed);
}

#[test]
fn events_out_of_turn_change_nothing() {
    let daemon = waiting().step_at(Event::Done, at(NOW));
    assert_eq!(daemon.action(), Action::Await);
    let daemon = daemon.step_at(Event::PlayerExited, at(NOW));
    assert_eq!(daemon.action(), Action::Await);
    let daemon = daemon.step_at(Event::Videos(vec![video(1)]), at(NOW));
    assert_eq!(daemon.action(), Action::Await);
    assert!(daemon.data().videos.is_empty());
    let daemon = daemon.step_at(Event::Tick, at(NOW)).step_at(Event::Stop, at(NOW));
    assert_eq!(daemon.action(), Action::CheckSchedule);
}

#[test]
fn steps_are_taken_at_the_present_instant() {
    let before = chrono::Utc::now().timestamp();
    let daemon = waiting().step(Event::Tick).step(Event::Schedule(response()));
    let after = chrono::Utc::now().timestamp();
    let check = daemon.data().last_schedule_check.unwrap().seconds();
    assert!(before <= check && check <= after);
}
