//! How mpv is started.

use vstd::prelude::*;
use crate::text::{decimal, decimal_tells_numbers_apart, decimal_text};

verus! {

/// The rotations that the player can apply, in degrees.
pub open spec fn is_device_rotation(rotation: i32) -> bool {
    rotation == 0 || rotation == 90 || rotation == 180 || rotation == 270
}

/// The rotation to apply where `rotation` is asked for: quarter turns as they are, and anything
/// else as no rotation.
pub open spec fn device_rotation(rotation: i32) -> i32 {
    if is_device_rotation(rotation) {
        rotation
    } else {
        0
    }
}

/// The rotation to apply where the setting may be missing: none without a setting.
pub open spec fn rotation_or_none(rotation: Option<i32>) -> i32 {
    match rotation {
        Some(degrees) => device_rotation(degrees),
        None => 0,
    }
}

/// The rotation to apply is always a quarter turn, and applying it again changes nothing.
pub proof fn device_rotation_is_stable(rotation: i32)
    ensures
        is_device_rotation(device_rotation(rotation)),
        device_rotation(device_rotation(rotation)) == device_rotation(rotation),
        is_device_rotation(rotation) <==> device_rotation(rotation) == rotation,
{
}

/// A rotation is applied as it is exactly if it is some number of quarter turns short of a full one,
/// and otherwise there is none.
pub proof fn quarter_turns_are_applied(rotation: i32)
    ensures
        0 <= rotation < 360 && rotation % 90 == 0 ==> device_rotation(rotation) == rotation
            && rotation_or_none(Some(rotation)) == rotation,
        !(0 <= rotation < 360 && rotation % 90 == 0) ==> device_rotation(rotation) == 0
            && rotation_or_none(Some(rotation)) == 0,
        rotation_or_none(None) == 0,
{
}

/// The rotation to apply where `rotation` is asked for.
pub fn get_rotation_for_device(rotation: i32) -> (result: i32)
    ensures
        result == device_rotation(rotation),
        0 <= rotation < 360 && rotation % 90 == 0 ==> result == rotation,
        !(0 <= rotation < 360 && rotation % 90 == 0) ==> result == 0,
{
    match rotation {
        0 => 0,
        90 => 90,
        180 => 180,
        270 => 270,
        _ => 0,
    }
}

/// The rotation to apply where the setting may be missing.
pub fn rotation_or_default(rotation: Option<i32>) -> (result: i32)
    ensures
        result == rotation_or_none(rotation),
        match rotation {
            Some(degrees) if 0 <= degrees < 360 && degrees % 90 == 0 => result == degrees,
            _ => result == 0,
        },
{
    if let Some(degrees) = rotation {
        get_rotation_for_device(degrees)
    } else {
        0
    }
}

/// The directory, below the home directory, for everything that the player stores.
pub open spec fn data_directory_of(home: Seq<char>) -> Seq<char> {
    home + "/.local/share/signage"@
}

/// The file that lists what mpv shows.
pub open spec fn playlist_file_of(home: Seq<char>) -> Seq<char> {
    home + "/.local/share/signage/playlist.txt"@
}

/// The file that holds the state of the player between two runs.
pub open spec fn data_file_of(home: Seq<char>) -> Seq<char> {
    home + "/.local/share/signage/data.json"@
}

/// `data.json` and `playlist.txt` lie in the directory.
pub proof fn files_lie_in_directory(home: Seq<char>)
    ensures
        data_file_of(home) == data_directory_of(home) + "/data.json"@,
        playlist_file_of(home) == data_directory_of(home) + "/playlist.txt"@,
{
    reveal_strlit("/.local/share/signage");
    reveal_strlit("/.local/share/signage/data.json");
    reveal_strlit("/.local/share/signage/playlist.txt");
    reveal_strlit("/data.json");
    reveal_strlit("/playlist.txt");
    assert(data_file_of(home) =~= data_directory_of(home) + "/data.json"@);
    assert(playlist_file_of(home) =~= data_directory_of(home) + "/playlist.txt"@);
}

/// The arguments that mpv is started with: it repeats the playlist for ever on the whole screen,
/// shows each still for ten seconds and turns the picture where a rotation is asked for.
pub open spec fn mpv_arguments_of(home: Seq<char>, rotation_degrees: i32) -> Seq<Seq<char>> {
    let common = seq![
        "--loop-playlist=inf"@,
        "--volume=-1"@,
        "--no-terminal"@,
        "--fullscreen"@,
        "--input-ipc-server=/tmp/mpvsocket"@,
        "--image-display-duration=10"@,
        "--playlist="@ + playlist_file_of(home),
    ];
    if rotation_degrees != 0 {
        common.push("--video-rotate="@ + decimal(rotation_degrees as int))
    } else {
        common
    }
}

/// Whatever the rotation, mpv is started on the playlist of the player in the same way: for ever, on
/// the whole screen, with its socket and ten seconds for each still.
pub proof fn common_arguments(home: Seq<char>, rotation_degrees: i32)
    ensures
        mpv_arguments_of(home, rotation_degrees).take(7) == seq![
            "--loop-playlist=inf"@,
            "--volume=-1"@,
            "--no-terminal"@,
            "--fullscreen"@,
            "--input-ipc-server=/tmp/mpvsocket"@,
            "--image-display-duration=10"@,
            "--playlist="@ + (home + "/.local/share/signage/playlist.txt"@),
        ],
{
    assert(mpv_arguments_of(home, rotation_degrees).take(7) =~= mpv_arguments_of(home, 0));
}

/// A rotation adds one argument to those without a rotation, and that argument names it.
pub proof fn rotation_adds_an_argument(home: Seq<char>, rotation_degrees: i32)
    requires
        rotation_degrees != 0,
    ensures
        mpv_arguments_of(home, rotation_degrees) == mpv_arguments_of(home, 0).push(
            "--video-rotate="@ + decimal(rotation_degrees as int),
        ),
        mpv_arguments_of(home, 0).len() == 7,
{
}

/// Different rotations never lead to the same arguments.
pub proof fn arguments_tell_rotations_apart(home: Seq<char>, rotation: i32, other: i32)
    requires
        rotation != other,
    ensures
        mpv_arguments_of(home, rotation) != mpv_arguments_of(home, other),
{
    if rotation == 0 || other == 0 {
        assert(mpv_arguments_of(home, rotation).len() != mpv_arguments_of(home, other).len());
    } else if mpv_arguments_of(home, rotation) == mpv_arguments_of(home, other) {
        let prefix = "--video-rotate="@;
        let first = decimal(rotation as int);
        let second = decimal(other as int);
        assert(mpv_arguments_of(home, rotation).last() == prefix + first);
        assert(mpv_arguments_of(home, other).last() == prefix + second);
        assert(first =~= (prefix + first).skip(prefix.len() as int));
        assert(second =~= (prefix + second).skip(prefix.len() as int));
        decimal_tells_numbers_apart(rotation as int, other as int);
    }
}

/// The directory for everything that the player stores.
pub fn data_directory(home: &str) -> (result: String)
    ensures
        result@ == data_directory_of(home@),
        result@ == home@ + "/.local/share/signage"@,
{
    home.to_string().concat("/.local/share/signage")
}

/// The file that lists what mpv shows.
pub fn playlist_file(home: &str) -> (result: String)
    ensures
        result@ == playlist_file_of(home@),
        result@ == home@ + "/.local/share/signage/playlist.txt"@,
{
    home.to_string().concat("/.local/share/signage/playlist.txt")
}

/// The file that holds the state of the player between two runs.
pub fn data_file(home: &str) -> (result: String)
    ensures
        result@ == data_file_of(home@),
        result@ == home@ + "/.local/share/signage/data.json"@,
{
    home.to_string().concat("/.local/share/signage/data.json")
}

/// The arguments that mpv is started with.
pub fn mpv_arguments(home: &str, rotation_degrees: i32) -> (arguments: Vec<String>)
    ensures
        arguments@.map_values(|argument: String| argument@) == mpv_arguments_of(
            home@,
            rotation_degrees,
        ),
        arguments.len() == (if rotation_degrees == 0 {
            7int
        } else {
            8int
        }),
        arguments[0]@ == "--loop-playlist=inf"@,
        arguments[1]@ == "--volume=-1"@,
        arguments[2]@ == "--no-terminal"@,
        arguments[3]@ == "--fullscreen"@,
        arguments[4]@ == "--input-ipc-server=/tmp/mpvsocket"@,
        arguments[5]@ == "--image-display-duration=10"@,
        arguments[6]@ == "--playlist="@ + (home@ + "/.local/share/signage/playlist.txt"@),
        rotation_degrees != 0 ==> arguments[7]@ == "--video-rotate="@ + decimal(
            rotation_degrees as int,
        ),
{
    let mut arguments: Vec<String> = Vec::new();
    arguments.push("--loop-playlist=inf".to_string());
    arguments.push("--volume=-1".to_string());
    arguments.push("--no-terminal".to_string());
    arguments.push("--fullscreen".to_string());
    arguments.push("--input-ipc-server=/tmp/mpvsocket".to_string());
    arguments.push("--image-display-duration=10".to_string());
    arguments.push("--playlist=".to_string().concat(playlist_file(home).as_str()));
    if rotation_degrees != 0 {
        arguments.push(
            "--video-rotate=".to_string().concat(decimal_text(rotation_degrees).as_str()),
        );
    }
    assert(arguments@.map_values(|argument: String| argument@) =~= mpv_arguments_of(
        home@,
        rotation_degrees,
    ));
    arguments
}

} // verus!
