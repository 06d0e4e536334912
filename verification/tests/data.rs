use signaged::data::Data;
use signaged::playlist::Video;
use signaged::playlist_id::PlaylistId;
use signaged::schedule::{
    ClientTimelineScheduleResponse, ClientUpdateFlagsResponse, SchedulePlaylists,
};
use signaged::time::Timestamp;

fn response() -> ClientTimelineScheduleResponse {
    ClientTimelineScheduleResponse {
        active_playlist_id: None,
        fallback_playlist_id: None,
        next_playlist_id: None,
        schedule_ends_at: None,
        next_schedule_starts_at: None,
        update_flags: ClientUpdateFlagsResponse {
            playlist_update_needed: false,
            schedule_update_needed: false,
            content_update_needed: false,
            layout_change: false,
            current_layout: None,
        },
        layout: None,
        rotation: None,
    }
}

fn at(seconds: i64) -> Timestamp {
    Timestamp::new(seconds, 0).unwrap()
}

fn seconds(t: Option<Timestamp>) -> Option<i64> {
    t.map(|t| t.seconds())
}

fn text(s: &str) -> Option<String> {
    Some(s.to_string())
}

#[test]
fn new_data_is_blank() {
    let data = Data::new();
    assert!(data.videos.is_empty());
    assert!(data.last_update.is_none() && data.last_schedule_check.is_none());
    assert!(data.active_schedule_ends.is_none() && data.next_schedule_starts.is_none());
    assert_eq!(data.current_playlist, None);
    assert_eq!(data.next_playlist_id, None);
    assert_eq!(data.fallback_playlist, None);
    assert_eq!(data.update_content, None);
    assert_eq!(data.current_layout, None);
    assert_eq!(data.layout_applied, None);
    assert_eq!(data.current_rotation, None);
    assert_eq!(data.rotation_applied, None);
    assert!(Data::default().videos.is_empty());
    assert_eq!(data.clone().current_rotation, None);
}

#[test]
fn schedule_is_taken_over() {
    let mut data = Data::new();
    let mut answer = response();
    answer.active_playlist_id = text("00000000-0000-0000-0000-000000000001");
    answer.fallback_playlist_id = text("00000000-0000-0000-0000-000000000002");
    answer.next_playlist_id = text("00000000-0000-0000-0000-000000000003");
    answer.schedule_ends_at = Some(at(50));
    answer.next_schedule_starts_at = Some(at(60));
    assert!(data.record_schedule(&answer, at(40)));
    assert_eq!(data.current_playlist, Some(PlaylistId { value: 1 }));
    assert_eq!(data.fallback_playlist, Some(PlaylistId { value: 2 }));
    assert_eq!(data.next_playlist_id, Some(PlaylistId { value: 3 }));
    assert_eq!(seconds(data.active_schedule_ends), Some(50));
    assert_eq!(seconds(data.next_schedule_starts), Some(60));
    assert_eq!(seconds(data.last_schedule_check), Some(40));
    // The same schedule again calls for nothing.
    assert!(!data.record_schedule(&answer, at(41)));
    assert_eq!(seconds(data.last_schedule_check), Some(41));
    // What cannot be read counts as missing.
    answer.next_playlist_id = text("?");
    answer.fallback_playlist_id = text("?");
    assert!(!data.record_schedule(&answer, at(42)));
    assert_eq!(data.next_playlist_id, None);
    assert_eq!(data.fallback_playlist, None);
}

#[test]
fn flags_call_for_an_update() {
    let mut data = Data::new();
    let mut answer = response();
    assert!(!data.record_schedule(&answer, at(1)));
    answer.update_flags.schedule_update_needed = true;
    answer.update_flags.layout_change = true;
    assert!(!data.record_schedule(&answer, at(1)));
    answer.update_flags.playlist_update_needed = true;
    assert!(data.record_schedule(&answer, at(1)));
    answer.update_flags.playlist_update_needed = false;
    answer.update_flags.content_update_needed = true;
    assert!(data.record_schedule(&answer, at(1)));
}

#[test]
fn playlists_are_taken_over_as_read() {
    let mut data = Data::new();
    let playlists = SchedulePlaylists {
        effective: Some(PlaylistId { value: 9 }),
        next: None,
        fallback: Some(PlaylistId { value: 8 }),
    };
    assert!(data.record_playlists(&response(), playlists, at(5)));
    assert_eq!(data.current_playlist, Some(PlaylistId { value: 9 }));
    assert_eq!(data.next_playlist_id, None);
    assert_eq!(data.fallback_playlist, Some(PlaylistId { value: 8 }));
    assert!(!data.record_playlists(&response(), playlists, at(6)));
}

#[test]
fn update_settles_the_matter() {
    let mut data = Data::new();
    data.update_content = Some(true);
    assert!(data.update_requested());
    assert!(data.is_news(Some(at(100))));
    assert!(!data.is_news(None));
    let videos = vec![
        Video { url: "b".to_string(), asset_order: 2 },
        Video { url: "a".to_string(), asset_order: 1 },
    ];
    data.record_videos(videos, Some(at(100)));
    assert_eq!(data.videos[0].url, "a");
    assert_eq!(data.videos[1].url, "b");
    assert_eq!(seconds(data.last_update), Some(100));
    assert_eq!(data.update_content, Some(false));
    assert!(!data.update_requested());
    assert!(!data.is_news(Some(at(100))));
    assert!(!data.is_news(Some(at(99))));
    assert!(data.is_news(Some(at(101))));
    assert!(!data.is_news(None));
}

#[test]
fn announced_change_is_applied() {
    let mut data = Data::new();
    data.record_rotation(0);
    let mut answer = response();
    answer.update_flags.layout_change = true;
    answer.update_flags.current_layout = text("portrait");
    answer.layout = text("landscape");
    answer.rotation = Some(90);
    assert!(data.record_layout(&answer));
    assert_eq!(data.current_layout, text("portrait"));
    assert_eq!(data.layout_applied, text("portrait"));
    assert_eq!(data.current_rotation, Some(90));
    assert_eq!(data.rotation_applied, Some(90));
    // The same change again calls for no other restart.
    assert!(!data.record_layout(&answer));
    // Without a layout among the flags, that of the schedule counts.
    answer.update_flags.current_layout = None;
    assert!(!data.record_layout(&answer));
    assert_eq!(data.layout_applied, text("landscape"));
    // Without any, the layout stays.
    answer.layout = None;
    answer.rotation = None;
    assert!(!data.record_layout(&answer));
    assert_eq!(data.current_layout, text("landscape"));
    assert_eq!(data.current_rotation, Some(90));
}

#[test]
fn announced_rotation_that_is_applied_leaves_the_current_one() {
    let mut data = Data::new();
    data.current_rotation = Some(0);
    data.rotation_applied = Some(90);
    let mut answer = response();
    answer.update_flags.layout_change = true;
    answer.rotation = Some(90);
    assert!(!data.record_layout(&answer));
    assert_eq!(data.current_rotation, Some(0));
}

#[test]
fn unannounced_change_is_only_tracked() {
    let mut data = Data::new();
    let mut answer = response();
    answer.layout = text("landscape");
    answer.rotation = Some(180);
    // Nothing was applied before, so it is applied now.
    assert!(data.record_layout(&answer));
    assert_eq!(data.layout_applied, text("landscape"));
    assert_eq!(data.rotation_applied, Some(180));
    answer.layout = text("portrait");
    answer.rotation = Some(270);
    assert!(!data.record_layout(&answer));
    assert_eq!(data.current_layout, text("portrait"));
    assert_eq!(data.layout_applied, text("landscape"));
    assert_eq!(data.current_rotation, Some(270));
    assert_eq!(data.rotation_applied, Some(180));
    // What is current already is not applied, even if nothing was.
    data.layout_applied = None;
    data.rotation_applied = None;
    assert!(!data.record_layout(&answer));
    assert_eq!(data.layout_applied, None);
    assert_eq!(data.rotation_applied, None);
}
