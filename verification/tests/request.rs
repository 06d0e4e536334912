use signaged::request::{
    acknowledge_layout_request, acknowledge_updates_request, acknowledgement, health_request,
    is_success, new_key_request, schedule_refusal, schedule_request, sync_request, videos_reply,
    videos_request, Acknowledgement, Config, Method,
};
use signaged::schedule::ClientUpdateFlagsResponse;

fn config() -> Config {
    Config {
        url: "http://localhost:5001".to_string(),
        id: "device".to_string(),
        username: "omni".to_string(),
        password: "secret".to_string(),
        key: None,
    }
}

fn pair(name: &str, value: &str) -> (String, String) {
    (name.to_string(), value.to_string())
}

#[test]
fn key_is_stored() {
    let mut config = config();
    assert_eq!(config.key_to_send(), "");
    config.store_key("k".to_string());
    assert_eq!(config.key, Some("k".to_string()));
    assert_eq!(config.key_to_send(), "k");
    assert_eq!(config.id, "device");
    assert_eq!(sync_request(&config).headers, vec![pair("APIKEY", "k")]);
}

#[test]
fn health_is_asked_for_without_a_key() {
    let request = health_request(&config());
    assert_eq!(request.method, Method::Get);
    assert_eq!(request.url, "http://localhost:5001/health");
    assert!(request.headers.is_empty());
    assert_eq!(request.basic_auth, None);
    assert_eq!(request.body, None);
}

#[test]
fn key_is_asked_for_with_the_password() {
    let request = new_key_request(&config());
    assert_eq!(request.method, Method::Get);
    assert_eq!(request.url, "http://localhost:5001/get-new-key/device");
    assert!(request.headers.is_empty());
    assert_eq!(request.basic_auth, Some(pair("omni", "secret")));
    assert_eq!(request.body, None);
}

#[test]
fn schedule_and_changes_are_asked_for_with_the_key() {
    let request = sync_request(&config());
    assert_eq!(request.method, Method::Get);
    assert_eq!(request.url, "http://localhost:5001/api/omniplay/device-checkin/sync/device");
    assert_eq!(request.headers, vec![pair("APIKEY", "")]);
    let request = schedule_request(&config());
    assert_eq!(request.method, Method::Get);
    assert_eq!(request.url, "http://localhost:5001/api/omniplay/device-checkin/client-timeline-schedule/device");
    assert_eq!(request.headers, vec![pair("APIKEY", "")]);
    assert_eq!(request.basic_auth, None);
    assert_eq!(request.body, None);
}

#[test]
fn videos_are_asked_for_with_a_fresh_key() {
    let request = videos_request(&config(), "fresh".to_string());
    assert_eq!(request.method, Method::Get);
    assert_eq!(request.url, "http://localhost:5001/api/omniplay/device-checkin/recieve-videos/device");
    assert_eq!(
        request.headers,
        vec![
            pair("Accept", "application/json"),
            pair("Cache-Control", "no-cache"),
            pair("Accept-Encoding", "gzip, deflate, br"),
            pair("Connection", "keep-alive"),
            pair("APIKEY", "fresh"),
        ]
    );
}

#[test]
fn raised_flags_are_acknowledged() {
    let mut flags = ClientUpdateFlagsResponse {
        playlist_update_needed: false,
        schedule_update_needed: false,
        content_update_needed: false,
        layout_change: true,
        current_layout: None,
    };
    assert_eq!(acknowledgement(&flags), None);
    flags.schedule_update_needed = true;
    let report = Acknowledgement {
        playlist_updated: false,
        schedule_updated: true,
        content_updated: false,
    };
    assert_eq!(acknowledgement(&flags), Some(report));
    let request = acknowledge_updates_request(&config(), report);
    assert_eq!(request.method, Method::Post);
    assert_eq!(request.url, "http://localhost:5001/api/omniplay/device-checkin/client-acknowledge-updates/device");
    assert_eq!(request.headers, vec![pair("APIKEY", "")]);
    assert_eq!(
        request.body,
        Some(vec![
            ("playlist_updated".to_string(), false),
            ("schedule_updated".to_string(), true),
            ("content_updated".to_string(), false),
        ])
    );
}

#[test]
fn layout_is_acknowledged() {
    let request = acknowledge_layout_request(&config());
    assert_eq!(request.method, Method::Post);
    assert_eq!(request.url, "http://localhost:5001/api/omniplay/device-checkin/client-acknowledge-updates/device");
    assert_eq!(request.body, Some(vec![("layout_updated".to_string(), true)]));
}

#[test]
fn replies_are_told_apart() {
    for (status, success) in [(199, false), (200, true), (204, true), (299, true), (300, false), (500, false)] {
        assert_eq!(is_success(status), success);
        assert_eq!(
            reqwest::StatusCode::from_u16(status).unwrap().is_success(),
            success
        );
    }
    assert_eq!(videos_reply(200, "[]".to_string()), Ok("[]".to_string()));
    assert_eq!(
        videos_reply(403, "no".to_string()),
        Err("Failed to receive videos: no".to_string())
    );
    assert_eq!(schedule_refusal(200, "200 OK"), None);
    assert_eq!(
        schedule_refusal(404, "404 Not Found"),
        Some("Failed to get timeline schedule: 404 Not Found".to_string())
    );
}
