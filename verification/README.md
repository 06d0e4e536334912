# signaged

The playback daemon of a digital signage player. It checks in with its server, downloads the videos
of its playlist and shows them through mpv.

* `src/` is the library, written in Verus. It decides everything and performs nothing: a `Daemon`
  names the next action, and takes its outcome.
  * `daemon`: the course from the start to the end, as a transition from state and event to state.
  * `data`: what the player remembers, and how a check-in changes it.
  * `schedule`, `playlist_id`: what the server says about playlists, schedules and polling.
  * `playlist`: the order of the videos and the playlist file.
  * `request`, `health`: the requests, the replies, and waiting for the server.
  * `player`, `text`: how mpv is started.
  * `time`: instants in UTC.
  * `laws`: what holds of the player as a whole, proved.
* `tests/` runs the library on examples.
* `app/` performs the actions: HTTP, files, processes, signals.

Time arithmetic comes from `chrono` and the reading of playlist identifiers from `uuid`. What the
proofs take for granted about the two stands in the contracts of the functions that call them, in
`time` and `playlist_id`.
