use signaged::playlist::{
    file_name, in_whitelist, keeps_file, playlist_entries, playlist_line, sort_by_asset_order, Video,
};

fn video(url: &str, asset_order: i64) -> Video {
    Video { url: url.to_string(), asset_order }
}

fn urls(videos: &[Video]) -> Vec<&str> {
    videos.iter().map(|v| v.url.as_str()).collect()
}

#[test]
fn videos_are_sorted_by_place() {
    let sorted = sort_by_asset_order(vec![
        video("c", 3),
        video("a", -1),
        video("b", 2),
    ]);
    assert_eq!(urls(&sorted), vec!["a", "b", "c"]);
    assert_eq!(sorted[1].asset_order, 2);
}

#[test]
fn videos_at_one_place_keep_their_order() {
    let sorted = sort_by_asset_order(vec![
        video("x", 1),
        video("first", 0),
        video("y", 1),
        video("second", 0),
        video("x", 1),
    ]);
    assert_eq!(urls(&sorted), vec!["first", "second", "x", "y", "x"]);
}

#[test]
fn sorting_a_sorted_list_changes_nothing() {
    let once = sort_by_asset_order(vec![video("b", 5), video("a", 5)]);
    let twice = sort_by_asset_order(once);
    assert_eq!(urls(&twice), vec!["b", "a"]);
    assert!(sort_by_asset_order(Vec::new()).is_empty());
}

#[test]
fn only_whitelisted_videos_are_listed() {
    let videos = vec![
        video("https://cdn/a.mp4", 0),
        video("ftp://cdn/b.mp4", 1),
        video("http://cdn/c.mp4", 2),
        video("https://cdn/", 3),
    ];
    assert_eq!(playlist_entries(&videos), vec![0, 2]);
    assert!(videos[0].in_whitelist() && !videos[1].in_whitelist());
    assert!(playlist_entries(&Vec::new()).is_empty());
}

#[test]
fn whitelist_goes_by_scheme_and_name() {
    for url in ["https://cdn/a.mp4", "http://localhost:5001/x/y.png?key=1#t", "https://cdn/a/data.json.mp4"] {
        assert!(in_whitelist(url), "{}", url);
    }
    for url in [
        "",
        "a.mp4",
        "file:///a.mp4",
        "HTTP://cdn/a.mp4",
        "https:/cdn/a.mp4",
        "https://",
        "https://cdn/",
        "https://cdn/?a.mp4",
        "https://cdn/.",
        "https://cdn/a/..",
        "https://cdn/data.json",
        "http://cdn/playlist.txt?x",
    ] {
        assert!(!in_whitelist(url), "{}", url);
    }
}

#[test]
fn file_name_is_the_last_part_of_the_path() {
    assert_eq!(file_name("https://cdn/a/b.mp4?x=/c#d"), "b.mp4");
    assert_eq!(file_name("https://cdn/ä.mp4#/z"), "ä.mp4");
    assert_eq!(file_name("b.mp4"), "b.mp4");
    assert_eq!(file_name("a/"), "");
    assert_eq!(file_name("?b.mp4"), "");
    assert_eq!(file_name(""), "");
}

#[test]
fn listed_files_and_those_of_the_player_are_kept() {
    let directory = "/home/pi/.local/share/signage";
    let listed = vec![format!("{directory}/a.mp4"), format!("{directory}/b.mp4")];
    let kept = |name: &str| keeps_file("/home/pi", &format!("{directory}/{name}"), &listed);
    assert!(kept("a.mp4") && kept("b.mp4"));
    assert!(kept("data.json") && kept("playlist.txt"));
    assert!(!kept("c.mp4") && !kept(""));
    assert!(!keeps_file("/home/other", &format!("{directory}/data.json"), &listed));
}

#[test]
fn a_line_ends_with_a_line_feed() {
    assert_eq!(playlist_line("/home/pi/a.mp4"), "/home/pi/a.mp4\n");
    assert_eq!(playlist_line(""), "\n");
}
