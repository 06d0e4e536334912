//! Videos, their order and the lines of the playlist file.

use vstd::prelude::*;
use vstd::string::StrSliceExecFns;
use crate::player::{data_file, data_file_of, playlist_file, playlist_file_of};

verus! {

/// A video that the server assigns to this player.
#[derive(Clone, Debug)]
pub struct Video {
    /// Where the server offers the file.
    pub url: String,
    /// The place of the video in the playlist.
    pub asset_order: i64,
}

/// The videos at one place of the playlist, in the order in which they are listed.
pub open spec fn at_place(videos: Seq<Video>, place: i64) -> Seq<Video> {
    videos.filter(|video: Video| video.asset_order == place)
}

/// The places of the videos never decrease.
pub open spec fn in_order(videos: Seq<Video>) -> bool {
    forall|i: int, j: int|
        0 <= i <= j < videos.len() ==> videos[i].asset_order <= videos[j].asset_order
}

/// `sorted` lists `videos` by their places, and those that share a place as `videos` lists them.
pub open spec fn is_sorted_form(videos: Seq<Video>, sorted: Seq<Video>) -> bool {
    &&& in_order(sorted)
    &&& forall|place: i64| #[trigger] at_place(sorted, place) == at_place(videos, place)
}

/// `videos` by their places, and those that share a place in their order in `videos`.
///
/// There is exactly one such list: [`sorted_form_is_unique`].
pub open spec fn by_asset_order(videos: Seq<Video>) -> Seq<Video> {
    choose|sorted: Seq<Video>| is_sorted_form(videos, sorted)
}

/// A list ends with the last video at the place of its last video.
proof fn last_at_its_place(videos: Seq<Video>)
    requires
        videos.len() > 0,
    ensures
        at_place(videos, videos.last().asset_order) == at_place(
            videos.drop_last(),
            videos.last().asset_order,
        ).push(videos.last()),
        forall|place: i64|
            place != videos.last().asset_order ==> #[trigger] at_place(videos, place) == at_place(
                videos.drop_last(),
                place,
            ),
{
    reveal(Seq::filter);
}

/// The videos at a place are videos of the list, and stand at that place.
proof fn at_place_is_contained(videos: Seq<Video>, place: i64)
    ensures
        forall|i: int|
            0 <= i < at_place(videos, place).len() ==> {
                &&& (#[trigger] at_place(videos, place)[i]).asset_order == place
                &&& videos.contains(at_place(videos, place)[i])
            },
    decreases videos.len(),
{
    reveal(Seq::filter);
    if videos.len() > 0 {
        let rest = videos.drop_last();
        at_place_is_contained(rest, place);
        last_at_its_place(videos);
        assert(forall|v: Video| rest.contains(v) ==> videos.contains(v));
        assert(videos.contains(videos.last()));
    }
}

/// A list of the same videos by their places is unique: sorting has one outcome.
pub proof fn sorted_form_is_unique(videos: Seq<Video>, first: Seq<Video>, second: Seq<Video>)
    requires
        is_sorted_form(videos, first),
        is_sorted_form(videos, second),
    ensures
        first == second,
{
    assert forall|place: i64| #[trigger] at_place(first, place) == at_place(second, place) by {
        assert(at_place(first, place) == at_place(videos, place));
        assert(at_place(second, place) == at_place(videos, place));
    }
    same_places_same_list(first, second);
}

/// The last video of a list in order stands at the last place of all.
proof fn last_place_is_largest(first: Seq<Video>, second: Seq<Video>)
    requires
        in_order(first),
        in_order(second),
        first.len() > 0,
        forall|place: i64| #[trigger] at_place(first, place) == at_place(second, place),
    ensures
        second.len() > 0,
        first.last().asset_order <= second.last().asset_order,
{
    let place = first.last().asset_order;
    last_at_its_place(first);
    let shared = at_place(first, place);
    assert(shared.len() > 0);
    assert(shared == at_place(second, place));
    at_place_is_contained(second, place);
    let video = at_place(second, place)[0];
    let index = choose|i: int| 0 <= i < second.len() && second[i] == video;
    assert(second[index].asset_order == place);
}

proof fn same_places_same_list(first: Seq<Video>, second: Seq<Video>)
    requires
        in_order(first),
        in_order(second),
        forall|place: i64| #[trigger] at_place(first, place) == at_place(second, place),
    ensures
        first == second,
    decreases first.len(),
{
    if first.len() == 0 {
        if second.len() > 0 {
            last_place_is_largest(second, first);
        }
        assert(first =~= second);
    } else {
        last_place_is_largest(first, second);
        last_place_is_largest(second, first);
        let place = first.last().asset_order;
        last_at_its_place(first);
        last_at_its_place(second);
        assert(at_place(first, place) == at_place(second, place));
        assert(at_place(first, place).last() == first.last());
        assert(at_place(second, place).last() == second.last());
        let first_rest = first.drop_last();
        let second_rest = second.drop_last();
        assert forall|p: i64| #[trigger] at_place(first_rest, p) == at_place(second_rest, p) by {
            assert(at_place(first, p) == at_place(second, p));
            if p == place {
                assert(at_place(first_rest, p) =~= at_place(first, p).drop_last());
                assert(at_place(second_rest, p) =~= at_place(second, p).drop_last());
            }
        }
        same_places_same_list(first_rest, second_rest);
        assert(first =~= first_rest.push(first.last()));
        assert(second =~= second_rest.push(second.last()));
    }
}

/// A video occurs in a list as often as it occurs at its place.
proof fn count_at_place(videos: Seq<Video>, video: Video)
    ensures
        videos.to_multiset().count(video) == at_place(
            videos,
            video.asset_order,
        ).to_multiset().count(video),
    decreases videos.len(),
{
    broadcast use vstd::seq_lib::group_to_multiset_ensures;

    if videos.len() > 0 {
        let rest = videos.drop_last();
        count_at_place(rest, video);
        last_at_its_place(videos);
        assert(videos =~= rest.push(videos.last()));
    } else {
        assert(at_place(videos, video.asset_order) =~= videos) by {
            reveal(Seq::filter);
        }
    }
}

/// Sorting keeps the videos: each occurs as often after it as before.
pub proof fn sorted_form_keeps_videos(videos: Seq<Video>, sorted: Seq<Video>)
    requires
        is_sorted_form(videos, sorted),
    ensures
        sorted.to_multiset() == videos.to_multiset(),
        sorted.len() == videos.len(),
{
    broadcast use vstd::seq_lib::group_to_multiset_ensures;

    assert forall|video: Video|
        sorted.to_multiset().count(video) == videos.to_multiset().count(video) by {
        count_at_place(videos, video);
        count_at_place(sorted, video);
        assert(at_place(sorted, video.asset_order) == at_place(videos, video.asset_order));
    }
    assert(sorted.to_multiset() =~= videos.to_multiset());
    sorted.to_multiset_ensures();
    videos.to_multiset_ensures();
}

/// Sorting what is sorted changes nothing.
pub proof fn sorting_twice(videos: Seq<Video>)
    requires
        in_order(videos),
    ensures
        by_asset_order(videos) == videos,
{
    assert(is_sorted_form(videos, videos));
    sorted_form_is_unique(videos, by_asset_order(videos), videos);
}

/// A list without a video at `place` has none to show there.
proof fn none_at_place(videos: Seq<Video>, place: i64)
    requires
        forall|i: int| 0 <= i < videos.len() ==> videos[i].asset_order != place,
    ensures
        at_place(videos, place) == Seq::<Video>::empty(),
{
    at_place_is_contained(videos, place);
    if at_place(videos, place).len() > 0 {
        let video = at_place(videos, place)[0];
        let index = choose|i: int| 0 <= i < videos.len() && videos[i] == video;
        assert(videos[index].asset_order != place);
    }
    assert(at_place(videos, place) =~= Seq::<Video>::empty());
}

/// Putting a video in front of a list and putting it where its place begins in the sorted list
/// come to the same.
proof fn insert_in_order(videos: Seq<Video>, sorted: Seq<Video>, video: Video, index: int)
    requires
        is_sorted_form(videos, sorted),
        0 <= index <= sorted.len(),
        forall|i: int| 0 <= i < index ==> sorted[i].asset_order < video.asset_order,
        forall|i: int| index <= i < sorted.len() ==> sorted[i].asset_order >= video.asset_order,
    ensures
        is_sorted_form(seq![video] + videos, sorted.insert(index, video)),
{
    let before = sorted.subrange(0, index);
    let after = sorted.subrange(index, sorted.len() as int);
    let result = sorted.insert(index, video);
    assert(sorted =~= before + after);
    assert(result =~= before + (seq![video] + after));
    assert forall|place: i64| #[trigger]
        at_place(result, place) == at_place(seq![video] + videos, place) by {
        let here = |v: Video| v.asset_order == place;
        Seq::filter_distributes_over_add(before, after, here);
        Seq::filter_distributes_over_add(before, seq![video] + after, here);
        Seq::filter_distributes_over_add(seq![video], after, here);
        Seq::filter_distributes_over_add(seq![video], videos, here);
        assert(at_place(sorted, place) == at_place(videos, place));
        if place == video.asset_order {
            none_at_place(before, place);
            assert(at_place(before, place) + at_place(after, place) =~= at_place(after, place));
            assert(at_place(before, place) + (at_place(seq![video], place) + at_place(after, place))
                =~= at_place(seq![video], place) + at_place(after, place));
        } else {
            none_at_place(seq![video], place);
            assert(at_place(seq![video], place) + at_place(after, place) =~= at_place(
                after,
                place,
            ));
            assert(at_place(seq![video], place) + at_place(videos, place) =~= at_place(
                videos,
                place,
            ));
        }
    }
}

/// Every list of videos can be sorted, so [`by_asset_order`] is what it says.
pub proof fn sorted_form_exists(videos: Seq<Video>)
    ensures
        is_sorted_form(videos, by_asset_order(videos)),
    decreases videos.len(),
{
    if videos.len() == 0 {
        assert(is_sorted_form(videos, videos));
    } else {
        let video = videos[0];
        let rest = videos.drop_first();
        sorted_form_exists(rest);
        let sorted = by_asset_order(rest);
        let index = first_place_from(sorted, video.asset_order);
        insert_in_order(rest, sorted, video, index);
        assert(videos =~= seq![video] + rest);
        assert(is_sorted_form(videos, sorted.insert(index, video)));
    }
}

/// The index in a list in order where the places from `place` on begin.
proof fn first_place_from(sorted: Seq<Video>, place: i64) -> (index: int)
    requires
        in_order(sorted),
    ensures
        0 <= index <= sorted.len(),
        forall|i: int| 0 <= i < index ==> sorted[i].asset_order < place,
        forall|i: int| index <= i < sorted.len() ==> sorted[i].asset_order >= place,
    decreases sorted.len(),
{
    if sorted.len() == 0 {
        0
    } else if sorted.last().asset_order < place {
        sorted.len() as int
    } else {
        let rest = sorted.drop_last();
        let index = first_place_from(rest, place);
        assert forall|i: int| 0 <= i < index implies sorted[i].asset_order < place by {
            assert(rest[i] == sorted[i]);
        }
        assert forall|i: int| index <= i < sorted.len() implies sorted[i].asset_order >= place by {
            if i < rest.len() {
                assert(rest[i] == sorted[i]);
            }
        }
        index
    }
}

/// Sorts videos by their places in the playlist; those that share a place keep their order.
pub fn sort_by_asset_order(videos: Vec<Video>) -> (sorted: Vec<Video>)
    ensures
        is_sorted_form(videos@, sorted@),
        sorted@ == by_asset_order(videos@),
        sorted@.to_multiset() == videos@.to_multiset(),
        sorted.len() == videos.len(),
        forall|i: int, j: int|
            0 <= i <= j < sorted.len() ==> sorted[i].asset_order <= sorted[j].asset_order,
{
    let ghost all = videos@;
    let mut rest = videos;
    let mut sorted: Vec<Video> = Vec::new();
    assert(all.skip(all.len() as int) =~= sorted@);
    while rest.len() > 0
        invariant
            rest@ == all.take(rest.len() as int),
            rest.len() <= all.len(),
            is_sorted_form(all.skip(rest.len() as int), sorted@),
        decreases rest.len(),
    {
        let ghost count = rest.len() as int;
        if let Some(video) = rest.pop() {
            let mut index: usize = 0;
            while index < sorted.len() && sorted[index].asset_order < video.asset_order
                invariant
                    index <= sorted.len(),
                    forall|i: int| 0 <= i < index ==> sorted[i].asset_order < video.asset_order,
                decreases sorted.len() - index,
            {
                index += 1;
            }
            proof {
                insert_in_order(all.skip(count), sorted@, video, index as int);
                assert(all.skip(count - 1) =~= seq![video] + all.skip(count));
            }
            sorted.insert(index, video);
        }
        assert(rest@ =~= all.take(rest.len() as int));
    }
    proof {
        assert(all.skip(0) =~= all);
        sorted_form_is_unique(all, sorted@, by_asset_order(all));
        sorted_form_keeps_videos(all, sorted@);
    }
    sorted
}

/// The videos that the playlist file lists: all that are whitelisted, in their order.
pub open spec fn listed(videos: Seq<Video>) -> Seq<Video> {
    videos.filter(|video: Video| whitelisted(video.url@))
}

/// The playlist file lists whitelisted videos only, and those in the order of their places.
pub proof fn listed_in_order(videos: Seq<Video>)
    requires
        in_order(videos),
    ensures
        in_order(listed(videos)),
        forall|i: int|
            0 <= i < listed(videos).len() ==> whitelisted((#[trigger] listed(videos)[i]).url@)
                && videos.contains(listed(videos)[i]),
    decreases videos.len(),
{
    reveal(Seq::filter);
    if videos.len() > 0 {
        let rest = videos.drop_last();
        listed_in_order(rest);
        assert(forall|video: Video| rest.contains(video) ==> videos.contains(video));
        assert(videos.contains(videos.last()));
        assert forall|i: int| 0 <= i < listed(rest).len() implies (#[trigger] listed(
            rest,
        )[i]).asset_order <= videos.last().asset_order by {
            let index = choose|j: int| 0 <= j < rest.len() && rest[j] == listed(rest)[i];
            assert(videos[index] == rest[index]);
        }
    }
}

/// The videos that the playlist file lists, by their index in `videos`.
pub fn playlist_entries(videos: &Vec<Video>) -> (entries: Vec<usize>)
    ensures
        forall|i: int, j: int| 0 <= i < j < entries.len() ==> entries[i] < entries[j],
        forall|i: int| 0 <= i < entries.len() ==> entries[i] < videos.len(),
        entries@.map_values(|index: usize| videos@[index as int]) == listed(videos@),
        forall|index: usize|
            entries@.contains(index) <==> index < videos.len() && whitelisted(
                (#[trigger] videos@[index as int]).url@,
            ),
{
    let mut entries: Vec<usize> = Vec::new();
    let mut next: usize = 0;
    let ghost video_at = |index: usize| videos@[index as int];
    proof {
        reveal(Seq::filter);
        assert(entries@.map_values(video_at) =~= listed(videos@.take(0)));
    }
    while next < videos.len()
        invariant
            next <= videos.len(),
            forall|i: int, j: int| 0 <= i < j < entries.len() ==> entries[i] < entries[j],
            forall|i: int| 0 <= i < entries.len() ==> entries[i] < next,
            video_at == (|index: usize| videos@[index as int]),
            entries@.map_values(video_at) == listed(videos@.take(next as int)),
            forall|i: int|
                0 <= i < entries.len() ==> whitelisted(videos@[(#[trigger] entries[i]) as int].url@),
            forall|index: usize|
                index < next && whitelisted((#[trigger] videos@[index as int]).url@)
                    ==> entries@.contains(index),
        decreases videos.len() - next,
    {
        proof {
            reveal(Seq::filter);
            assert(videos@.take(next + 1).drop_last() =~= videos@.take(next as int));
        }
        let ghost before = entries@;
        if videos[next].in_whitelist() {
            entries.push(next);
            assert(entries@.last() == next);
            assert forall|index: usize|
                index <= next && whitelisted(
                    (#[trigger] videos@[index as int]).url@,
                ) implies entries@.contains(index) by {
                if index < next {
                    assert(before.contains(index));
                    let place = choose|i: int| 0 <= i < before.len() && before[i] == index;
                    assert(entries@[place] == index);
                }
            }
            assert(entries@.map_values(video_at) =~= before.map_values(video_at).push(
                videos@[next as int],
            ));
        }
        next += 1;
    }
    assert(videos@.take(next as int) =~= videos@);
    entries
}

/// The line of the playlist file for a downloaded video.
pub fn playlist_line(file_path: &str) -> (line: String)
    ensures
        line@ == file_path@.push('\n'),
{
    let line = file_path.to_string().concat("\n");
    proof {
        reveal_strlit("\n");
        assert(line@ =~= file_path@.push('\n'));
    }
    line
}

/// The character begins the query or the fragment of an address.
pub open spec fn ends_path(character: char) -> bool {
    character == '?' || character == '#'
}

/// The address without its query and its fragment.
pub open spec fn path_of(url: Seq<char>) -> Seq<char>
    decreases url.len(),
{
    if url.len() == 0 || ends_path(url[0]) {
        Seq::empty()
    } else {
        seq![url[0]] + path_of(url.drop_first())
    }
}

/// What follows the last slash, or everything if there is none.
pub open spec fn after_last_slash(path: Seq<char>) -> Seq<char>
    decreases path.len(),
{
    if path.len() == 0 || path.last() == '/' {
        Seq::empty()
    } else {
        after_last_slash(path.drop_last()).push(path.last())
    }
}

/// The name that a video is stored under: the last part of the path of its address.
pub open spec fn file_name_of(url: Seq<char>) -> Seq<char> {
    after_last_slash(path_of(url))
}

/// A name that no video can be stored under: it names no file, or one that the player needs itself.
pub open spec fn is_reserved(name: Seq<char>) -> bool {
    name == ""@ || name == "."@ || name == ".."@ || name == "data.json"@ || name
        == "playlist.txt"@
}

/// The player may download from `url`: it is offered over HTTP, under a name of its own.
pub open spec fn whitelisted(url: Seq<char>) -> bool {
    &&& "https://"@.is_prefix_of(url) || "http://"@.is_prefix_of(url)
    &&& !is_reserved(file_name_of(url))
}

/// The path ends where its query or fragment begins.
proof fn path_ends_at(url: Seq<char>, end: int)
    requires
        0 <= end <= url.len(),
        forall|i: int| 0 <= i < end ==> !ends_path(#[trigger] url[i]),
        end < url.len() ==> ends_path(url[end]),
    ensures
        path_of(url) == url.take(end),
    decreases url.len(),
{
    if end > 0 {
        let rest = url.drop_first();
        assert forall|i: int| 0 <= i < end - 1 implies !ends_path(#[trigger] rest[i]) by {
            assert(rest[i] == url[i + 1]);
        }
        path_ends_at(rest, end - 1);
        assert(url.take(end) =~= seq![url[0]] + rest.take(end - 1));
    } else {
        assert(url.take(end) =~= Seq::empty());
    }
}

/// The last part begins behind the last slash.
proof fn name_begins_at(path: Seq<char>, start: int)
    requires
        0 <= start <= path.len(),
        forall|i: int| start <= i < path.len() ==> #[trigger] path[i] != '/',
        start > 0 ==> path[start - 1] == '/',
    ensures
        after_last_slash(path) == path.skip(start),
    decreases path.len(),
{
    if start < path.len() {
        let rest = path.drop_last();
        name_begins_at(rest, start);
        assert(path.skip(start) =~= rest.skip(start).push(path.last()));
    } else {
        assert(path.skip(start) =~= Seq::empty());
    }
}

/// The name of a video is what stands between the last slash of its address and the query or the
/// fragment, if there is one.
pub proof fn name_ends_path(before: Seq<char>, name: Seq<char>, tail: Seq<char>)
    requires
        !before.contains('?') && !before.contains('#'),
        !name.contains('?') && !name.contains('#') && !name.contains('/'),
        tail.len() > 0 ==> tail[0] == '?' || tail[0] == '#',
    ensures
        file_name_of(before.push('/') + name + tail) == name,
{
    let path = before.push('/') + name;
    let url = path + tail;
    let end = path.len() as int;
    assert forall|i: int| 0 <= i < end implies !ends_path(#[trigger] url[i]) by {
        if i < before.len() {
            assert(before.contains(before[i]));
        } else if i > before.len() {
            assert(url[i] == name[i - before.len() - 1]);
            assert(name.contains(name[i - before.len() - 1]));
        }
    }
    path_ends_at(url, end);
    assert(url.take(end) =~= path);
    let start = before.len() + 1;
    assert forall|i: int| start <= i < path.len() implies #[trigger] path[i] != '/' by {
        assert(path[i] == name[i - start]);
        assert(name.contains(name[i - start]));
    }
    name_begins_at(path, start as int);
    assert(path.skip(start as int) =~= name);
}

/// A video may be downloaded exactly if it is offered over HTTP, with or without encryption, and its
/// name is neither missing nor a directory nor one of the two files of the player.
pub proof fn whitelist_by_scheme_and_name(
    before: Seq<char>,
    name: Seq<char>,
    tail: Seq<char>,
)
    requires
        !before.contains('?') && !before.contains('#'),
        !name.contains('?') && !name.contains('#') && !name.contains('/'),
        tail.len() > 0 ==> tail[0] == '?' || tail[0] == '#',
    ensures
        ({
            let url = before.push('/') + name + tail;
            whitelisted(url) <==> ("https://"@.is_prefix_of(url) || "http://"@.is_prefix_of(url))
                && name != ""@ && name != "."@ && name != ".."@ && name != "data.json"@ && name
                != "playlist.txt"@
        }),
{
    name_ends_path(before, name, tail);
}

/// The files of the player itself are never removed, nor is one that the playlist lists; every other
/// file is.
pub proof fn kept_files(home: Seq<char>, path: Seq<char>, listed_paths: Seq<String>)
    ensures
        is_kept(home, home + "/.local/share/signage/playlist.txt"@, listed_paths),
        is_kept(home, home + "/.local/share/signage/data.json"@, listed_paths),
        forall|i: int|
            0 <= i < listed_paths.len() ==> is_kept(
                home,
                (#[trigger] listed_paths[i])@,
                listed_paths,
            ),
        path != home + "/.local/share/signage/playlist.txt"@ && path != home
            + "/.local/share/signage/data.json"@ && (forall|i: int|
            0 <= i < listed_paths.len() ==> (#[trigger] listed_paths[i])@ != path) ==> !is_kept(
            home,
            path,
            listed_paths,
        ),
{
}

/// The playlist file lists a video as often as it occurs if it may be downloaded, and otherwise not
/// at all.
pub proof fn listed_by_whitelist(videos: Seq<Video>, video: Video)
    ensures
        whitelisted(video.url@) ==> listed(videos).to_multiset().count(video)
            == videos.to_multiset().count(video),
        !whitelisted(video.url@) ==> listed(videos).to_multiset().count(video) == 0,
    decreases videos.len(),
{
    broadcast use vstd::seq_lib::group_to_multiset_ensures;

    reveal(Seq::filter);
    if videos.len() > 0 {
        let rest = videos.drop_last();
        listed_by_whitelist(rest, video);
        assert(videos =~= rest.push(videos.last()));
    } else {
        assert(listed(videos) =~= videos);
    }
}

/// The name that a video is stored under.
pub fn file_name(url: &str) -> (name: String)
    ensures
        name@ == file_name_of(url@),
{
    let length: usize = url.unicode_len();
    let mut end: usize = 0;
    while end < length && url.get_char(end) != '?' && url.get_char(end) != '#'
        invariant
            length == url@.len(),
            end <= length,
            forall|i: int| 0 <= i < end ==> !ends_path(#[trigger] url@[i]),
        decreases length - end,
    {
        end += 1;
    }
    let ghost path = url@.take(end as int);
    let mut start: usize = end;
    while start > 0 && url.get_char(start - 1) != '/'
        invariant
            start <= end <= url@.len(),
            path == url@.take(end as int),
            forall|i: int| start <= i < end ==> #[trigger] path[i] != '/',
        decreases start,
    {
        start -= 1;
    }
    proof {
        path_ends_at(url@, end as int);
        name_begins_at(path, start as int);
        assert(url@.subrange(start as int, end as int) =~= path.skip(start as int));
    }
    url.substring_char(start, end).to_string()
}

/// `text` begins with `prefix`.
fn begins_with(text: &str, prefix: &str) -> (result: bool)
    ensures
        result == prefix@.is_prefix_of(text@),
{
    let length: usize = prefix.unicode_len();
    if text.unicode_len() < length {
        return false;
    }
    let start = text.substring_char(0, length).to_string();
    let result = start == prefix.to_string();
    proof {
        if prefix@.is_prefix_of(text@) {
            assert(text@.subrange(0, length as int) =~= prefix@);
        }
    }
    result
}

/// The player may download from `url`.
pub fn in_whitelist(url: &str) -> (result: bool)
    ensures
        result == whitelisted(url@),
{
    if !begins_with(url, "https://") && !begins_with(url, "http://") {
        return false;
    }
    let name = file_name(url);
    !(name == "".to_string() || name == ".".to_string() || name == "..".to_string() || name
        == "data.json".to_string() || name == "playlist.txt".to_string())
}

impl Video {
    /// The player may download the video.
    pub fn in_whitelist(&self) -> (result: bool)
        ensures
            result == whitelisted(self.url@),
    {
        in_whitelist(self.url.as_str())
    }
}

/// A file of the data directory stays when a playlist is rebuilt: the playlist lists it, or the
/// player needs it itself.
pub open spec fn is_kept(home: Seq<char>, path: Seq<char>, listed_paths: Seq<String>) -> bool {
    ||| path == playlist_file_of(home)
    ||| path == data_file_of(home)
    ||| exists|i: int| 0 <= i < listed_paths.len() && (#[trigger] listed_paths[i])@ == path
}

/// A file of the data directory stays when a playlist is rebuilt.
pub fn keeps_file(home: &str, path: &String, listed_paths: &Vec<String>) -> (result: bool)
    ensures
        result == is_kept(home@, path@, listed_paths@),
        result <==> path@ == home@ + "/.local/share/signage/playlist.txt"@ || path@ == home@
            + "/.local/share/signage/data.json"@ || exists|i: int|
            0 <= i < listed_paths.len() && (#[trigger] listed_paths@[i])@ == path@,
{
    if *path == playlist_file(home) || *path == data_file(home) {
        return true;
    }
    let mut next: usize = 0;
    while next < listed_paths.len()
        invariant
            next <= listed_paths.len(),
            forall|i: int| 0 <= i < next ==> (#[trigger] listed_paths@[i])@ != path@,
        decreases listed_paths.len() - next,
    {
        if listed_paths[next] == *path {
            return true;
        }
        next += 1;
    }
    false
}

} // verus!
