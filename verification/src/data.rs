//! What the player remembers between two check-ins and between two runs.

use vstd::prelude::*;
use crate::model::optional;
use crate::playlist::{by_asset_order, is_sorted_form, sort_by_asset_order, Video};
use crate::playlist_id::PlaylistId;
use crate::schedule::{
    if_readable, playlist_changed, ClientTimelineScheduleResponse, SchedulePlaylists, ScheduleView,
};
use crate::time::{Timestamp, TimestampView};

verus! {

/// What the player remembers.
#[derive(Clone, Debug)]
pub struct Data {
    pub videos: Vec<Video>,
    pub last_update: Option<Timestamp>,
    pub current_playlist: Option<PlaylistId>,
    pub active_schedule_ends: Option<Timestamp>,
    pub next_schedule_starts: Option<Timestamp>,
    pub next_playlist_id: Option<PlaylistId>,
    pub fallback_playlist: Option<PlaylistId>,
    pub update_content: Option<bool>,
    pub last_schedule_check: Option<Timestamp>,
    pub current_layout: Option<String>,
    /// The last layout that was applied.
    pub layout_applied: Option<String>,
    pub current_rotation: Option<i32>,
    /// The last rotation that was applied.
    pub rotation_applied: Option<i32>,
}

/// What a [`Data`] denotes.
pub struct DataView {
    pub videos: Seq<Video>,
    pub last_update: Option<TimestampView>,
    pub current_playlist: Option<PlaylistId>,
    pub active_schedule_ends: Option<TimestampView>,
    pub next_schedule_starts: Option<TimestampView>,
    pub next_playlist_id: Option<PlaylistId>,
    pub fallback_playlist: Option<PlaylistId>,
    pub update_content: Option<bool>,
    pub last_schedule_check: Option<TimestampView>,
    pub current_layout: Option<Seq<char>>,
    pub layout_applied: Option<Seq<char>>,
    pub current_rotation: Option<i32>,
    pub rotation_applied: Option<i32>,
}

impl View for Data {
    type V = DataView;

    open spec fn view(&self) -> DataView {
        DataView {
            videos: self.videos@,
            last_update: optional(self.last_update),
            current_playlist: self.current_playlist,
            active_schedule_ends: optional(self.active_schedule_ends),
            next_schedule_starts: optional(self.next_schedule_starts),
            next_playlist_id: self.next_playlist_id,
            fallback_playlist: self.fallback_playlist,
            update_content: self.update_content,
            last_schedule_check: optional(self.last_schedule_check),
            current_layout: optional(self.current_layout),
            layout_applied: optional(self.layout_applied),
            current_rotation: self.current_rotation,
            rotation_applied: self.rotation_applied,
        }
    }
}

impl DataView {
    /// Nothing is remembered yet.
    pub open spec fn blank() -> DataView {
        DataView {
            videos: Seq::empty(),
            last_update: None,
            current_playlist: None,
            active_schedule_ends: None,
            next_schedule_starts: None,
            next_playlist_id: None,
            fallback_playlist: None,
            update_content: None,
            last_schedule_check: None,
            current_layout: None,
            layout_applied: None,
            current_rotation: None,
            rotation_applied: None,
        }
    }

    /// The server has asked for an update of the content.
    pub open spec fn update_requested(self) -> bool {
        self.update_content == Some(true)
    }

    /// A change of the content at `updated` is news: it is later than the last one that was picked
    /// up, or none was picked up yet.
    pub open spec fn is_news(self, updated: Option<TimestampView>) -> bool {
        match updated {
            Some(time) => match self.last_update {
                Some(last) => time.later_than(last),
                None => true,
            },
            None => false,
        }
    }

    /// The content must be fetched anew: another playlist is to be shown, or the server says that
    /// the playlist or the content has changed.
    pub open spec fn needs_update_to(
        self,
        response: ScheduleView,
        effective: Option<PlaylistId>,
    ) -> bool {
        ||| self.current_playlist != effective
        ||| response.update_flags.playlist_update_needed
        ||| response.update_flags.content_update_needed
    }

    /// The content must be fetched anew for the playlist of `response`.
    pub open spec fn needs_content_update(self, response: ScheduleView) -> bool {
        self.needs_update_to(response, response.effective_playlist())
    }

    /// The schedule of a check-in at `now`, with its playlists as they were read, is taken over.
    pub open spec fn with_playlists(
        self,
        response: ScheduleView,
        playlists: SchedulePlaylists,
        now: TimestampView,
    ) -> DataView {
        DataView {
            current_playlist: playlists.effective,
            active_schedule_ends: response.schedule_ends_at,
            next_schedule_starts: response.next_schedule_starts_at,
            next_playlist_id: playlists.next,
            fallback_playlist: playlists.fallback,
            last_schedule_check: Some(now),
            ..self
        }
    }

    /// The schedule of a check-in at `now` is taken over.
    pub open spec fn with_schedule(self, response: ScheduleView, now: TimestampView) -> DataView {
        self.with_playlists(response, response.playlists(), now)
    }

    /// The videos of an update, whose content was changed at `updated`, are taken over.
    pub open spec fn with_videos(
        self,
        videos: Seq<Video>,
        updated: Option<TimestampView>,
    ) -> DataView {
        DataView {
            videos: by_asset_order(videos),
            last_update: updated,
            update_content: Some(false),
            ..self
        }
    }

    /// The rotation that the player starts with is taken over.
    pub open spec fn with_rotation(self, rotation: i32) -> DataView {
        DataView { current_rotation: Some(rotation), rotation_applied: Some(rotation), ..self }
    }

    /// The response changes the rotation that is applied, so that the player must be restarted.
    ///
    /// When the server announces a change, any rotation other than the applied one counts.
    /// Otherwise the rotation is only applied if none ever was, and if it is new.
    pub open spec fn rotation_to_apply(self, response: ScheduleView) -> bool {
        &&& response.rotation is Some
        &&& if response.update_flags.layout_change {
            self.rotation_applied != response.rotation
        } else {
            self.rotation_applied is None && self.current_rotation != response.rotation
        }
    }

    /// The layout that an announced change brings: the one named with the flags, or else the one
    /// of the schedule.
    pub open spec fn announced_layout(response: ScheduleView) -> Option<Seq<char>> {
        if response.update_flags.current_layout is Some {
            response.update_flags.current_layout
        } else {
            response.layout
        }
    }

    /// Layout and rotation of a response are taken over.
    ///
    /// What the server announces as a change is applied at once. Otherwise it only becomes current,
    /// and is applied as well if nothing was applied before.
    pub open spec fn with_layout(self, response: ScheduleView) -> DataView {
        if response.update_flags.layout_change {
            let layout = DataView::announced_layout(response);
            DataView {
                current_layout: if layout is Some {
                    layout
                } else {
                    self.current_layout
                },
                layout_applied: if layout is Some {
                    layout
                } else {
                    self.layout_applied
                },
                current_rotation: if self.rotation_to_apply(response) {
                    response.rotation
                } else {
                    self.current_rotation
                },
                rotation_applied: if self.rotation_to_apply(response) {
                    response.rotation
                } else {
                    self.rotation_applied
                },
                ..self
            }
        } else {
            DataView {
                current_layout: if response.layout is Some {
                    response.layout
                } else {
                    self.current_layout
                },
                layout_applied: if response.layout is Some && self.current_layout != response.layout
                    && self.layout_applied is None {
                    response.layout
                } else {
                    self.layout_applied
                },
                current_rotation: if response.rotation is Some {
                    response.rotation
                } else {
                    self.current_rotation
                },
                rotation_applied: if self.rotation_to_apply(response) {
                    response.rotation
                } else {
                    self.rotation_applied
                },
                ..self
            }
        }
    }
}

/// `current` is there and says `layout`.
fn has_layout(current: &Option<String>, layout: &String) -> (result: bool)
    ensures
        result == (optional(*current) == Some(layout@)),
{
    match current {
        Some(text) => *text == *layout,
        None => false,
    }
}

impl Default for Data {
    fn default() -> (result: Self)
        ensures
            result@ == DataView::blank(),
    {
        let result = Data {
            videos: Vec::new(),
            last_update: None,
            current_playlist: None,
            active_schedule_ends: None,
            next_schedule_starts: None,
            next_playlist_id: None,
            fallback_playlist: None,
            update_content: None,
            last_schedule_check: None,
            current_layout: None,
            layout_applied: None,
            current_rotation: None,
            rotation_applied: None,
        };
        assert(result.videos@ =~= Seq::empty());
        result
    }
}

impl Data {
    /// Nothing is remembered yet.
    pub fn new() -> (result: Self)
        ensures
            result@ == DataView::blank(),
    {
        Data::default()
    }

    /// The server has asked for an update of the content.
    pub fn update_requested(&self) -> (result: bool)
        ensures
            result == self@.update_requested(),
            result == (self.update_content == Some(true)),
    {
        self.update_content.unwrap_or(false)
    }

    /// A change of the content at `updated` is news.
    pub fn is_news(&self, updated: Option<Timestamp>) -> (result: bool)
        ensures
            result == self@.is_news(optional(updated)),
            match (updated, self.last_update) {
                (Some(time), Some(last)) => result == (time@.seconds > last@.seconds || (
                time@.seconds == last@.seconds && time@.nanoseconds > last@.nanoseconds)),
                (Some(_), None) => result,
                (None, _) => !result,
            },
    {
        match (updated, self.last_update) {
            (Some(time), Some(last)) => time.later_than(last),
            (Some(_), None) => true,
            _ => false,
        }
    }

    /// Takes over the schedule of a check-in at `now`, and says whether the content must be fetched
    /// anew.
    pub fn record_schedule(
        &mut self,
        response: &ClientTimelineScheduleResponse,
        now: Timestamp,
    ) -> (needs_content_update: bool)
        ensures
            final(self)@ == old(self)@.with_schedule(response@, now@),
            needs_content_update == old(self)@.needs_content_update(response@),
            needs_content_update <==> old(self).current_playlist != response@.effective_playlist()
                || response.update_flags.playlist_update_needed
                || response.update_flags.content_update_needed,
            final(self).current_playlist == response@.effective_playlist(),
            final(self).active_schedule_ends == response.schedule_ends_at,
            final(self).next_schedule_starts == response.next_schedule_starts_at,
            final(self).last_schedule_check == Some(now),
    {
        let (_, effective) = playlist_changed(self.current_playlist, response);
        let next = if_readable(PlaylistId::parse_optional(&response.next_playlist_id));
        let fallback = if_readable(PlaylistId::parse_optional(&response.fallback_playlist_id));
        self.record_playlists(response, SchedulePlaylists { effective, next, fallback }, now)
    }

    /// Takes over the schedule of a check-in at `now`, with its playlists as they were read, and
    /// says whether the content must be fetched anew.
    pub fn record_playlists(
        &mut self,
        response: &ClientTimelineScheduleResponse,
        playlists: SchedulePlaylists,
        now: Timestamp,
    ) -> (needs_content_update: bool)
        ensures
            final(self)@ == old(self)@.with_playlists(response@, playlists, now@),
            needs_content_update == old(self)@.needs_update_to(response@, playlists.effective),
            needs_content_update <==> old(self).current_playlist != playlists.effective
                || response.update_flags.playlist_update_needed
                || response.update_flags.content_update_needed,
            final(self).current_playlist == playlists.effective,
            final(self).next_playlist_id == playlists.next,
            final(self).fallback_playlist == playlists.fallback,
            final(self).active_schedule_ends == response.schedule_ends_at,
            final(self).next_schedule_starts == response.next_schedule_starts_at,
            final(self).last_schedule_check == Some(now),
    {
        let changed = self.current_playlist != playlists.effective;
        self.active_schedule_ends = response.schedule_ends_at;
        self.next_schedule_starts = response.next_schedule_starts_at;
        self.next_playlist_id = playlists.next;
        self.fallback_playlist = playlists.fallback;
        self.last_schedule_check = Some(now);
        let needs_content_update = changed || response.update_flags.playlist_update_needed
            || response.update_flags.content_update_needed;
        if needs_content_update {
            self.current_playlist = playlists.effective;
        }
        needs_content_update
    }

    /// Takes over the videos of an update, whose content was changed at `updated`.
    pub fn record_videos(&mut self, videos: Vec<Video>, updated: Option<Timestamp>)
        ensures
            final(self)@ == old(self)@.with_videos(videos@, optional(updated)),
            is_sorted_form(videos@, final(self)@.videos),
            final(self).videos@.to_multiset() == videos@.to_multiset(),
            forall|i: int, j: int|
                0 <= i <= j < final(self).videos@.len() ==> final(self).videos@[i].asset_order
                    <= final(self).videos@[j].asset_order,
            final(self).last_update == updated,
            final(self).update_content == Some(false),
    {
        self.videos = sort_by_asset_order(videos);
        self.last_update = updated;
        self.update_content = Some(false);
    }

    /// Takes over the rotation that the player starts with.
    pub fn record_rotation(&mut self, rotation: i32)
        ensures
            final(self)@ == old(self)@.with_rotation(rotation),
            final(self).current_rotation == Some(rotation),
            final(self).rotation_applied == Some(rotation),
    {
        self.current_rotation = Some(rotation);
        self.rotation_applied = Some(rotation);
    }

    /// Takes over layout and rotation of a response, and says whether the player must be restarted.
    pub fn record_layout(&mut self, response: &ClientTimelineScheduleResponse) -> (restart: bool)
        ensures
            final(self)@ == old(self)@.with_layout(response@),
            restart == old(self)@.rotation_to_apply(response@),
            response.rotation is None ==> !restart && final(self).current_rotation == old(
                self,
            ).current_rotation && final(self).rotation_applied == old(self).rotation_applied,
            response.update_flags.layout_change && response.rotation is Some ==> {
                &&& final(self).rotation_applied == response.rotation
                &&& restart <==> old(self).rotation_applied != response.rotation
                &&& restart ==> final(self).current_rotation == response.rotation
            },
            !response.update_flags.layout_change && response.rotation is Some ==> {
                &&& final(self).current_rotation == response.rotation
                &&& restart <==> old(self).rotation_applied is None && old(self).current_rotation
                    != response.rotation
                &&& final(self).rotation_applied == (if restart {
                    response.rotation
                } else {
                    old(self).rotation_applied
                })
            },
    {
        if response.update_flags.layout_change {
            self.apply_announced(response)
        } else {
            self.track_unannounced(response)
        }
    }

    /// Applies layout and rotation of an announced change.
    fn apply_announced(&mut self, response: &ClientTimelineScheduleResponse) -> (restart: bool)
        requires
            response@.update_flags.layout_change,
        ensures
            final(self)@ == old(self)@.with_layout(response@),
            restart == old(self)@.rotation_to_apply(response@),
    {
        let new_layout = match &response.update_flags.current_layout {
            Some(layout) => Some(layout),
            None => match &response.layout {
                Some(layout) => Some(layout),
                None => None,
            },
        };
        if let Some(layout) = new_layout {
            self.current_layout = Some(layout.clone());
            self.layout_applied = Some(layout.clone());
        }
        if let Some(rotation) = response.rotation {
            if self.rotation_applied != Some(rotation) {
                self.current_rotation = Some(rotation);
                self.rotation_applied = Some(rotation);
                return true;
            }
        }
        false
    }

    /// Keeps track of layout and rotation where no change was announced.
    fn track_unannounced(&mut self, response: &ClientTimelineScheduleResponse) -> (restart: bool)
        requires
            !response@.update_flags.layout_change,
        ensures
            final(self)@ == old(self)@.with_layout(response@),
            restart == old(self)@.rotation_to_apply(response@),
    {
        if let Some(layout) = &response.layout {
            if !has_layout(&self.current_layout, layout) {
                self.current_layout = Some(layout.clone());
                if self.layout_applied.is_none() {
                    self.layout_applied = Some(layout.clone());
                }
            }
        }
        if let Some(rotation) = response.rotation {
            if self.current_rotation != Some(rotation) {
                self.current_rotation = Some(rotation);
                if self.rotation_applied.is_none() {
                    self.rotation_applied = Some(rotation);
                    return true;
                }
            }
        }
        false
    }
}

} // verus!
