use signaged::player::{
    data_directory, data_file, get_rotation_for_device, mpv_arguments, playlist_file,
    rotation_or_default,
};
use signaged::text::decimal_text;

#[test]
fn quarter_turns_are_applied() {
    for rotation in [0, 90, 180, 270] {
        assert_eq!(get_rotation_for_device(rotation), rotation);
        assert_eq!(rotation_or_default(Some(rotation)), rotation);
    }
    for rotation in [45, -90, 360, i32::MIN, i32::MAX] {
        assert_eq!(get_rotation_for_device(rotation), 0);
        assert_eq!(rotation_or_default(Some(rotation)), 0);
    }
    assert_eq!(rotation_or_default(None), 0);
}

#[test]
fn files_lie_below_the_home_directory() {
    assert_eq!(data_directory("/home/pi"), "/home/pi/.local/share/signage");
    assert_eq!(data_file("/home/pi"), "/home/pi/.local/share/signage/data.json");
    assert_eq!(playlist_file("/home/pi"), "/home/pi/.local/share/signage/playlist.txt");
}

#[test]
fn mpv_is_started_upright() {
    assert_eq!(
        mpv_arguments("/home/pi", 0),
        vec![
            "--loop-playlist=inf",
            "--volume=-1",
            "--no-terminal",
            "--fullscreen",
            "--input-ipc-server=/tmp/mpvsocket",
            "--image-display-duration=10",
            "--playlist=/home/pi/.local/share/signage/playlist.txt",
        ]
    );
}

#[test]
fn mpv_is_started_turned() {
    let arguments = mpv_arguments("/home/pi", 270);
    assert_eq!(arguments.len(), 8);
    assert_eq!(arguments[7], "--video-rotate=270");
    assert_eq!(mpv_arguments("", -5)[7], "--video-rotate=-5");
}

#[test]
fn numbers_in_decimal() {
    for number in [0, 7, 9, 10, 90, 100, 1234567890, -1, -10, i32::MAX, i32::MIN] {
        assert_eq!(decimal_text(number), number.to_string());
    }
}
