use signaged::playlist_id::PlaylistId;
use signaged::schedule::{
    calculate_poll_interval, effective_playlist, if_readable, playlist_changed, poll_interval_at,
    ClientTimelineScheduleResponse, ClientUpdateFlagsResponse,
};
use signaged::time::Timestamp;

const FIRST: &str = "550e8400-e29b-41d4-a716-446655440000";
const FIRST_VALUE: u128 = 0x550e8400_e29b_41d4_a716_446655440000;
const SECOND: &str = "00000000-0000-0000-0000-000000000007";

fn quiet() -> ClientTimelineScheduleResponse {
    ClientTimelineScheduleResponse {
        active_playlist_id: None,
        fallback_playlist_id: None,
        next_playlist_id: None,
        schedule_ends_at: None,
        next_schedule_starts_at: None,
        update_flags: ClientUpdateFlagsResponse {
            playlist_update_needed: false,
            schedule_update_needed: false,
            content_update_needed: false,
            layout_change: false,
            current_layout: None,
        },
        layout: None,
        rotation: None,
    }
}

fn at(seconds: i64) -> Timestamp {
    Timestamp::new(seconds, 0).unwrap()
}

fn id(value: u128) -> Option<PlaylistId> {
    Some(PlaylistId { value })
}

#[test]
fn identifiers_are_read_in_every_form() {
    let simple = FIRST.replace('-', "");
    let forms =
        [FIRST.to_string(), simple, format!("{{{}}}", FIRST), format!("urn:uuid:{}", FIRST)];
    for form in forms {
        assert_eq!(PlaylistId::parse(&form), id(FIRST_VALUE), "{}", form);
        assert_eq!(PlaylistId::parse(&form.to_uppercase()), id(FIRST_VALUE), "{}", form);
    }
    for text in ["", "none", "550e8400-e29b-41d4-a716-44665544000", "550e8400e29b-41d4-a716-4466554400000"] {
        assert_eq!(PlaylistId::parse(text), None, "{}", text);
    }
    assert_eq!(PlaylistId::parse_optional(&None), None);
    assert_eq!(PlaylistId::parse_optional(&Some("none".to_string())), Some(None));
    assert_eq!(PlaylistId::parse_optional(&Some(SECOND.to_string())), Some(id(7)));
}

#[test]
fn active_playlist_comes_first() {
    assert_eq!(effective_playlist(Some(id(1)), Some(id(2))), id(1));
    assert_eq!(effective_playlist(None, Some(id(2))), id(2));
    assert_eq!(effective_playlist(Some(None), Some(id(2))), None);
    assert_eq!(effective_playlist(None, Some(None)), None);
    assert_eq!(effective_playlist(None, None), None);
    assert_eq!(if_readable(Some(id(3))), id(3));
    assert_eq!(if_readable(Some(None)), None);
    assert_eq!(if_readable(None), None);
}

#[test]
fn playlist_change_is_noticed() {
    let mut response = quiet();
    response.active_playlist_id = Some(FIRST.to_string());
    response.fallback_playlist_id = Some(SECOND.to_string());
    assert_eq!(playlist_changed(None, &response), (true, id(FIRST_VALUE)));
    assert_eq!(playlist_changed(id(FIRST_VALUE), &response), (false, id(FIRST_VALUE)));
    response.active_playlist_id = None;
    assert_eq!(playlist_changed(id(FIRST_VALUE), &response), (true, id(7)));
    assert_eq!(playlist_changed(id(7), &response), (false, id(7)));
    response.active_playlist_id = Some("not a uuid".to_string());
    assert_eq!(playlist_changed(id(7), &response), (true, None));
    assert_eq!(playlist_changed(None, &response), (false, None));
    assert_eq!(playlist_changed(None, &quiet()), (false, None));
}

#[test]
fn polling_without_schedule() {
    assert_eq!(poll_interval_at(&quiet(), at(1000)), 60);
    assert_eq!(calculate_poll_interval(&quiet()), 60);
}

#[test]
fn polling_near_the_end_or_the_start() {
    let mut response = quiet();
    for (ends, seconds) in [(1000, 30), (1001, 10), (1299, 10), (1300, 30), (900, 30)] {
        response.schedule_ends_at = Some(at(ends));
        response.next_schedule_starts_at = None;
        assert_eq!(poll_interval_at(&response, at(1000)), seconds);
        response.schedule_ends_at = None;
        response.next_schedule_starts_at = Some(at(ends));
        assert_eq!(poll_interval_at(&response, at(1000)), seconds);
    }
    // A fraction of a second is no whole second.
    response.next_schedule_starts_at = Timestamp::new(1000, 999_999_999);
    assert_eq!(poll_interval_at(&response, at(1000)), 30);
}

#[test]
fn polling_with_pending_updates() {
    for flag in 0..3 {
        let mut response = quiet();
        response.update_flags.playlist_update_needed = flag == 0;
        response.update_flags.schedule_update_needed = flag == 1;
        response.update_flags.content_update_needed = flag == 2;
        assert!(response.update_flags.update_pending());
        assert_eq!(poll_interval_at(&response, at(1000)), 5);
        assert_eq!(calculate_poll_interval(&response), 5);
        response.schedule_ends_at = Some(at(5000));
        assert_eq!(poll_interval_at(&response, at(1000)), 5);
        response.schedule_ends_at = Some(at(1100));
        assert_eq!(poll_interval_at(&response, at(1000)), 10);
    }
    let mut response = quiet();
    response.update_flags.layout_change = true;
    assert!(!response.update_flags.update_pending());
    assert_eq!(poll_interval_at(&response, at(1000)), 60);
}

#[test]
fn polling_follows_the_clock() {
    let now = chrono::Utc::now().timestamp();
    let mut response = quiet();
    response.schedule_ends_at = Some(at(now + 150));
    assert_eq!(calculate_poll_interval(&response), 10);
    response.schedule_ends_at = Some(at(now + 100_000));
    assert_eq!(calculate_poll_interval(&response), 30);
    response.schedule_ends_at = Some(at(0));
    assert_eq!(calculate_poll_interval(&response), 30);
}
