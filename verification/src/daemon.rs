//! The course of the player from its start to its end.
//!
//! A [`Daemon`] always has one [`Action`] to perform. The caller performs it and hands the outcome
//! back as an [`Event`]; the daemon then has its next action. An event that is no outcome of the
//! action at hand changes nothing.

use vstd::prelude::*;
use crate::data::{Data, DataView};
use crate::health::{health_verdict, verdict_on, Verdict};
use crate::model::optional;
use crate::player::{rotation_or_default, rotation_or_none};
use crate::playlist::Video;
use crate::request::{acknowledgement, acknowledgement_of, Acknowledgement};
use crate::schedule::{poll_interval_at, ClientTimelineScheduleResponse, ScheduleView};
use crate::time::{Timestamp, TimestampView};

verus! {

/// The seconds between two check-ins before the first one has said otherwise.
pub const INITIAL_POLL_SECONDS: u64 = 60;

/// The seconds between two check-ins while the server offers no schedule.
pub const LEGACY_POLL_SECONDS: u64 = 20;

/// The seconds of rest after a check-in, so that mpv is not restarted too often.
pub const REST_SECONDS: u64 = 10;

/// What the daemon asks its caller to do.
#[derive(Clone, Copy, Debug, PartialEq, Eq, Structural)]
pub enum Action {
    /// End every mpv that still runs and remove its socket.
    CleanUp,
    /// Read the configuration, then what the player remembers.
    Load,
    /// Ask whether the server is up.
    ProbeHealth,
    /// Wait until `due_seconds` have passed since the player began to ask; not at all if they have.
    AwaitRetry { due_seconds: u64 },
    /// Wait.
    Pause { seconds: u64 },
    /// Read the configuration, exchange the password for a key and store it.
    ExchangeKey,
    /// Ask for the schedule.
    CheckSchedule,
    /// Ask when the content was last changed.
    Sync,
    /// Exchange the key and ask for the videos.
    ReceiveVideos,
    /// Store what the player remembers.
    SaveData,
    /// Write the playlist file, download what it lists and remove what it does not.
    RebuildPlaylist,
    /// Report updates as picked up.
    AcknowledgeUpdates { report: Acknowledgement },
    /// Report the layout as picked up.
    AcknowledgeLayout,
    /// Start mpv.
    StartPlayer { rotation: i32 },
    /// End mpv and start it again.
    RestartPlayer { rotation: i32 },
    /// Find out whether mpv has ended.
    PollPlayer,
    /// Wait for the next check-in or for a signal.
    Await,
    /// End mpv.
    KillPlayer,
    /// End the daemon; `failed` if an action failed that it cannot do without.
    Exit { failed: bool },
}

/// What the caller reports back.
pub enum Event {
    /// The action was performed. Of [`Action::PollPlayer`]: mpv runs.
    Done,
    /// The action failed.
    Failed,
    /// The configuration was read, and this is what the player remembers.
    Loaded(Data),
    /// The server replied with a status, or not at all.
    Health {
        status: Option<u16>,
        /// There is a playlist from an earlier run.
        cached: bool,
        /// The seconds since the player began to ask.
        waited_seconds: u64,
    },
    /// The server sent the schedule.
    Schedule(ClientTimelineScheduleResponse),
    /// The server said when the content was last changed.
    Synced(Option<Timestamp>),
    /// The server sent the videos.
    Videos(Vec<Video>),
    /// mpv has ended.
    PlayerExited,
    /// It is time for a check-in.
    Tick,
    /// The daemon was asked to end.
    Stop,
    /// The daemon was asked to read its files again.
    Hangup,
}

/// Why the content is updated.
pub enum Purpose {
    /// It was never updated before.
    First,
    /// The server has asked for it before the start.
    Requested,
    /// The schedule calls for it.
    Schedule(ClientTimelineScheduleResponse),
    /// The server offers no schedule, and the content was changed.
    Legacy,
    /// The server offers no schedule, and has asked for an update.
    LegacyRequested,
}

/// How far the daemon has come.
pub enum Stage {
    CleaningUp,
    /// Reading the files, at the start or because of a signal.
    Loading { starting: bool },
    /// Asking whether the server is up, at the start; not for the first time if `retries` is more
    /// than zero.
    Probing { retries: u64 },
    /// Waiting to ask again.
    Pausing { retries: u64, due_seconds: u64 },
    ExchangingKey,
    /// Asking when the content was changed, in order to update it.
    Syncing { purpose: Purpose },
    Receiving { purpose: Purpose, updated: Option<Timestamp> },
    SavingVideos { purpose: Purpose },
    Rebuilding { purpose: Purpose },
    /// Asking for the schedule in order to learn the rotation.
    ReadingRotation,
    SavingRotation,
    /// Starting mpv for the first time since the server is up, or without the server.
    StartingPlayer,
    /// Waiting for the next check-in or a signal.
    Idle,
    /// Asking whether the server is up again.
    ProbingOffline,
    /// Asking for the schedule at a check-in.
    CheckingSchedule,
    Acknowledging { response: ClientTimelineScheduleResponse, report: Acknowledgement },
    AcknowledgingLayout {
        response: ClientTimelineScheduleResponse,
        content_updated: bool,
        restart: bool,
    },
    SavingSchedule {
        response: ClientTimelineScheduleResponse,
        content_updated: bool,
        restart: bool,
    },
    /// Restarting mpv; once more after that if `again`.
    Restarting { again: bool },
    Polling,
    /// Starting mpv because it has ended.
    Reviving,
    Resting,
    Killing,
    Stopped { failed: bool },
}

/// What the daemon knows at every stage.
pub struct Status {
    pub data: Data,
    /// The seconds between two check-ins.
    pub poll_seconds: u64,
    /// The server was reached since the start.
    pub online: bool,
    /// mpv was started.
    pub playing: bool,
}

/// The player from its start to its end.
pub struct Daemon {
    status: Status,
    stage: Stage,
}

/// What a [`Purpose`] denotes.
pub enum PurposeView {
    First,
    Requested,
    Schedule(ScheduleView),
    Legacy,
    LegacyRequested,
}

/// What a [`Stage`] denotes.
pub enum StageView {
    CleaningUp,
    Loading { starting: bool },
    Probing { retries: u64 },
    Pausing { retries: u64, due_seconds: u64 },
    ExchangingKey,
    Syncing { purpose: PurposeView },
    Receiving { purpose: PurposeView, updated: Option<TimestampView> },
    SavingVideos { purpose: PurposeView },
    Rebuilding { purpose: PurposeView },
    ReadingRotation,
    SavingRotation,
    StartingPlayer,
    Idle,
    ProbingOffline,
    CheckingSchedule,
    Acknowledging { response: ScheduleView, report: Acknowledgement },
    AcknowledgingLayout { response: ScheduleView, content_updated: bool, restart: bool },
    SavingSchedule { response: ScheduleView, content_updated: bool, restart: bool },
    Restarting { again: bool },
    Polling,
    Reviving,
    Resting,
    Killing,
    Stopped { failed: bool },
}

/// What an [`Event`] denotes.
pub enum EventView {
    Done,
    Failed,
    Loaded(DataView),
    Health { status: Option<u16>, cached: bool, waited_seconds: u64 },
    Schedule(ScheduleView),
    Synced(Option<TimestampView>),
    Videos(Seq<Video>),
    PlayerExited,
    Tick,
    Stop,
    Hangup,
}

/// What a [`Status`] denotes.
pub struct StatusView {
    pub data: DataView,
    pub poll_seconds: u64,
    pub online: bool,
    pub playing: bool,
}

/// What a [`Daemon`] denotes.
pub struct DaemonView {
    pub status: StatusView,
    pub stage: StageView,
}

impl View for Purpose {
    type V = PurposeView;

    open spec fn view(&self) -> PurposeView {
        match self {
            Purpose::First => PurposeView::First,
            Purpose::Requested => PurposeView::Requested,
            Purpose::Schedule(response) => PurposeView::Schedule(response@),
            Purpose::Legacy => PurposeView::Legacy,
            Purpose::LegacyRequested => PurposeView::LegacyRequested,
        }
    }
}

impl View for Stage {
    type V = StageView;

    open spec fn view(&self) -> StageView {
        match self {
            Stage::CleaningUp => StageView::CleaningUp,
            Stage::Loading { starting } => StageView::Loading { starting: *starting },
            Stage::Probing { retries } => StageView::Probing { retries: *retries },
            Stage::Pausing { retries, due_seconds } => StageView::Pausing {
                retries: *retries,
                due_seconds: *due_seconds,
            },
            Stage::ExchangingKey => StageView::ExchangingKey,
            Stage::Syncing { purpose } => StageView::Syncing { purpose: purpose@ },
            Stage::Receiving { purpose, updated } => StageView::Receiving {
                purpose: purpose@,
                updated: optional(*updated),
            },
            Stage::SavingVideos { purpose } => StageView::SavingVideos { purpose: purpose@ },
            Stage::Rebuilding { purpose } => StageView::Rebuilding { purpose: purpose@ },
            Stage::ReadingRotation => StageView::ReadingRotation,
            Stage::SavingRotation => StageView::SavingRotation,
            Stage::StartingPlayer => StageView::StartingPlayer,
            Stage::Idle => StageView::Idle,
            Stage::ProbingOffline => StageView::ProbingOffline,
            Stage::CheckingSchedule => StageView::CheckingSchedule,
            Stage::Acknowledging { response, report } => StageView::Acknowledging {
                response: response@,
                report: *report,
            },
            Stage::AcknowledgingLayout {
                response,
                content_updated,
                restart,
            } => StageView::AcknowledgingLayout {
                response: response@,
                content_updated: *content_updated,
                restart: *restart,
            },
            Stage::SavingSchedule { response, content_updated, restart } => StageView::SavingSchedule {
                response: response@,
                content_updated: *content_updated,
                restart: *restart,
            },
            Stage::Restarting { again } => StageView::Restarting { again: *again },
            Stage::Polling => StageView::Polling,
            Stage::Reviving => StageView::Reviving,
            Stage::Resting => StageView::Resting,
            Stage::Killing => StageView::Killing,
            Stage::Stopped { failed } => StageView::Stopped { failed: *failed },
        }
    }
}

impl View for Event {
    type V = EventView;

    open spec fn view(&self) -> EventView {
        match self {
            Event::Done => EventView::Done,
            Event::Failed => EventView::Failed,
            Event::Loaded(data) => EventView::Loaded(data@),
            Event::Health { status, cached, waited_seconds } => EventView::Health {
                status: *status,
                cached: *cached,
                waited_seconds: *waited_seconds,
            },
            Event::Schedule(response) => EventView::Schedule(response@),
            Event::Synced(updated) => EventView::Synced(optional(*updated)),
            Event::Videos(videos) => EventView::Videos(videos@),
            Event::PlayerExited => EventView::PlayerExited,
            Event::Tick => EventView::Tick,
            Event::Stop => EventView::Stop,
            Event::Hangup => EventView::Hangup,
        }
    }
}

impl View for Status {
    type V = StatusView;

    open spec fn view(&self) -> StatusView {
        StatusView {
            data: self.data@,
            poll_seconds: self.poll_seconds,
            online: self.online,
            playing: self.playing,
        }
    }
}

impl View for Daemon {
    type V = DaemonView;

    closed spec fn view(&self) -> DaemonView {
        DaemonView { status: self.status@, stage: self.stage@ }
    }
}

impl StatusView {
    /// The rotation that mpv is started with.
    pub open spec fn rotation(self) -> i32 {
        rotation_or_none(self.data.current_rotation)
    }

    pub open spec fn with_data(self, data: DataView) -> StatusView {
        StatusView { data, ..self }
    }

    pub open spec fn polling_every(self, poll_seconds: u64) -> StatusView {
        StatusView { poll_seconds, ..self }
    }

    pub open spec fn at(self, stage: StageView) -> DaemonView {
        DaemonView { status: self, stage }
    }

    /// Once the key is exchanged: the content is updated if it never was, or if the server has
    /// asked for it; then the rotation is read.
    pub open spec fn after_key(self) -> DaemonView {
        if self.data.last_update is None {
            self.at(StageView::Syncing { purpose: PurposeView::First })
        } else {
            self.after_first_update()
        }
    }

    pub open spec fn after_first_update(self) -> DaemonView {
        if self.data.update_requested() {
            self.at(StageView::Syncing { purpose: PurposeView::Requested })
        } else {
            self.at(StageView::ReadingRotation)
        }
    }

    /// Once the rotation to start with is known.
    pub open spec fn after_rotation(self, rotation: Option<i32>) -> DaemonView {
        self.with_data(self.data.with_rotation(rotation_or_none(rotation))).at(
            StageView::SavingRotation,
        )
    }

    /// Without a schedule, once it is settled whether the content was changed: it is updated if the
    /// server has asked for it.
    pub open spec fn after_legacy(self, content_updated: bool) -> DaemonView {
        if self.data.update_requested() {
            self.at(StageView::Syncing { purpose: PurposeView::LegacyRequested })
        } else {
            self.polling_every(LEGACY_POLL_SECONDS).finishing(content_updated, false)
        }
    }

    /// Layout and rotation of a schedule are taken over; the server learns of it if it has
    /// announced a change.
    pub open spec fn taking_layout(self, response: ScheduleView, content_updated: bool) -> DaemonView {
        let restart = content_updated || self.data.rotation_to_apply(response);
        let next = self.with_data(self.data.with_layout(response));
        if response.update_flags.layout_change {
            next.at(StageView::AcknowledgingLayout { response, content_updated, restart })
        } else {
            next.at(StageView::SavingSchedule { response, content_updated, restart })
        }
    }

    /// The check-in comes to its end: mpv is restarted where the schedule calls for it, and in any
    /// case after an update of the content; then it is seen to.
    pub open spec fn finishing(self, content_updated: bool, restart: bool) -> DaemonView {
        if restart {
            self.at(StageView::Restarting { again: content_updated })
        } else if content_updated {
            self.at(StageView::Restarting { again: false })
        } else {
            self.at(StageView::Polling)
        }
    }

    /// Once the content is updated.
    pub open spec fn after_update(self, purpose: PurposeView) -> DaemonView {
        match purpose {
            PurposeView::First => self.after_first_update(),
            PurposeView::Requested => self.at(StageView::ReadingRotation),
            PurposeView::Schedule(response) => match acknowledgement_of(response.update_flags) {
                Some(report) => self.at(StageView::Acknowledging { response, report }),
                None => self.taking_layout(response, true),
            },
            PurposeView::Legacy => self.after_legacy(true),
            PurposeView::LegacyRequested => self.polling_every(LEGACY_POLL_SECONDS).finishing(
                true,
                false,
            ),
        }
    }
}

impl StageView {
    /// What is to be done at this stage.
    pub open spec fn action(self, status: StatusView) -> Action {
        match self {
            StageView::CleaningUp => Action::CleanUp,
            StageView::Loading { .. } => Action::Load,
            StageView::Probing { .. } => Action::ProbeHealth,
            StageView::Pausing { due_seconds, .. } => Action::AwaitRetry { due_seconds },
            StageView::ExchangingKey => Action::ExchangeKey,
            StageView::Syncing { .. } => Action::Sync,
            StageView::Receiving { .. } => Action::ReceiveVideos,
            StageView::SavingVideos { .. } => Action::SaveData,
            StageView::Rebuilding { .. } => Action::RebuildPlaylist,
            StageView::ReadingRotation => Action::CheckSchedule,
            StageView::SavingRotation => Action::SaveData,
            StageView::StartingPlayer => if status.playing {
                Action::RestartPlayer { rotation: status.rotation() }
            } else {
                Action::StartPlayer { rotation: status.rotation() }
            },
            StageView::Idle => Action::Await,
            StageView::ProbingOffline => Action::ProbeHealth,
            StageView::CheckingSchedule => Action::CheckSchedule,
            StageView::Acknowledging { report, .. } => Action::AcknowledgeUpdates { report },
            StageView::AcknowledgingLayout { .. } => Action::AcknowledgeLayout,
            StageView::SavingSchedule { .. } => Action::SaveData,
            StageView::Restarting { .. } => Action::RestartPlayer { rotation: status.rotation() },
            StageView::Polling => Action::PollPlayer,
            StageView::Reviving => Action::StartPlayer { rotation: status.rotation() },
            StageView::Resting => Action::Pause { seconds: REST_SECONDS },
            StageView::Killing => Action::KillPlayer,
            StageView::Stopped { failed } => Action::Exit { failed },
        }
    }
}

impl DaemonView {
    /// Before anything was done.
    pub open spec fn initial() -> DaemonView {
        DaemonView {
            status: StatusView {
                data: DataView::blank(),
                poll_seconds: INITIAL_POLL_SECONDS,
                online: false,
                playing: false,
            },
            stage: StageView::CleaningUp,
        }
    }

    /// What is to be done now.
    pub open spec fn action(self) -> Action {
        self.stage.action(self.status)
    }

    /// After the action at hand has failed.
    ///
    /// A schedule that cannot be had leaves the rotation at none, or the check-in without a
    /// schedule. A layout that cannot be reported, and an mpv that cannot be looked at, are passed
    /// over. Anything else that fails ends the daemon. A server that does not reply is no failure
    /// of [`Action::ProbeHealth`].
    pub open spec fn after_failure(self) -> DaemonView {
        match self.stage {
            StageView::ReadingRotation => self.status.after_rotation(None),
            StageView::CheckingSchedule => self.status.at(
                StageView::Syncing { purpose: PurposeView::Legacy },
            ),
            StageView::AcknowledgingLayout { response, content_updated, restart } => self.status.at(
                StageView::SavingSchedule { response, content_updated, restart },
            ),
            StageView::Polling => self.status.at(StageView::Resting),
            StageView::Stopped { .. } => self,
            _ => self.status.at(StageView::Stopped { failed: true }),
        }
    }

    /// After the action at hand was performed, at `now`.
    pub open spec fn after_done(self, now: TimestampView) -> DaemonView {
        match self.stage {
            StageView::CleaningUp => self.status.at(StageView::Loading { starting: true }),
            StageView::Pausing { retries, .. } => self.status.at(
                StageView::Probing { retries: retries.saturating_add(1) },
            ),
            StageView::ExchangingKey => (StatusView { online: true, ..self.status }).after_key(),
            StageView::SavingVideos { purpose } => self.status.at(StageView::Rebuilding { purpose }),
            StageView::Rebuilding { purpose } => self.status.after_update(purpose),
            StageView::SavingRotation => self.status.at(StageView::StartingPlayer),
            StageView::StartingPlayer => (StatusView { playing: true, ..self.status }).at(
                StageView::Idle,
            ),
            StageView::Acknowledging { response, .. } => self.status.taking_layout(response, true),
            StageView::AcknowledgingLayout { response, content_updated, restart } => self.status.at(
                StageView::SavingSchedule { response, content_updated, restart },
            ),
            StageView::SavingSchedule {
                response,
                content_updated,
                restart,
            } => self.status.polling_every(response.poll_interval(now)).finishing(
                content_updated,
                restart,
            ),
            StageView::Restarting { again } => if again {
                self.status.at(StageView::Restarting { again: false })
            } else {
                self.status.at(StageView::Polling)
            },
            StageView::Polling => self.status.at(StageView::Resting),
            StageView::Reviving => self.status.at(StageView::Resting),
            StageView::Resting => self.status.at(StageView::Idle),
            StageView::Killing => self.status.at(StageView::Stopped { failed: false }),
            _ => self,
        }
    }

    /// After the event, at `now`.
    pub open spec fn next(self, event: EventView, now: TimestampView) -> DaemonView {
        match (event, self.stage) {
            (EventView::Done, _) => self.after_done(now),
            (EventView::Failed, _) => self.after_failure(),
            (EventView::Loaded(data), StageView::Loading { starting }) => self.status.with_data(
                data,
            ).at(
                if starting {
                    StageView::Probing { retries: 0 }
                } else {
                    StageView::Idle
                },
            ),
            (
                EventView::Health { status, cached, waited_seconds },
                StageView::Probing { retries },
            ) => match verdict_on(status, cached, retries, waited_seconds) {
                Verdict::Ready => self.status.at(StageView::ExchangingKey),
                Verdict::Offline => self.status.at(StageView::StartingPlayer),
                Verdict::Retry { due_seconds } => self.status.at(
                    StageView::Pausing { retries, due_seconds },
                ),
            },
            (EventView::Health { status, .. }, StageView::ProbingOffline) => if status == Some(
                200u16,
            ) {
                self.status.at(StageView::ExchangingKey)
            } else {
                self.status.at(StageView::Polling)
            },
            (EventView::Schedule(response), StageView::ReadingRotation) => self.status.after_rotation(
                response.rotation,
            ),
            (EventView::Schedule(response), StageView::CheckingSchedule) => {
                let next = self.status.with_data(self.status.data.with_schedule(response, now));
                if self.status.data.needs_content_update(response) {
                    next.at(StageView::Syncing { purpose: PurposeView::Schedule(response) })
                } else {
                    next.taking_layout(response, false)
                }
            },
            (EventView::Synced(updated), StageView::Syncing { purpose }) => if purpose
                == PurposeView::Legacy && !self.status.data.is_news(updated) {
                self.status.after_legacy(false)
            } else {
                self.status.at(StageView::Receiving { purpose, updated })
            },
            (EventView::Videos(videos), StageView::Receiving { purpose, updated }) =>
                self.status.with_data(self.status.data.with_videos(videos, updated)).at(
                StageView::SavingVideos { purpose },
            ),
            (EventView::PlayerExited, StageView::Polling) => self.status.at(StageView::Reviving),
            (EventView::Tick, StageView::Idle) => if self.status.online {
                self.status.at(StageView::CheckingSchedule)
            } else {
                self.status.at(StageView::ProbingOffline)
            },
            (EventView::Stop, StageView::Idle) => self.status.at(StageView::Killing),
            (EventView::Hangup, StageView::Idle) => self.status.at(
                StageView::Loading { starting: false },
            ),
            _ => self,
        }
    }
}

impl Status {
    fn rotation(&self) -> (result: i32)
        ensures
            result == self@.rotation(),
    {
        rotation_or_default(self.data.current_rotation)
    }

    fn at(self, stage: Stage) -> (result: Daemon)
        ensures
            result@ == self@.at(stage@),
    {
        Daemon { status: self, stage }
    }

    fn after_key(self) -> (result: Daemon)
        ensures
            result@ == self@.after_key(),
    {
        if self.data.last_update.is_none() {
            self.at(Stage::Syncing { purpose: Purpose::First })
        } else {
            self.after_first_update()
        }
    }

    fn after_first_update(self) -> (result: Daemon)
        ensures
            result@ == self@.after_first_update(),
    {
        if self.data.update_requested() {
            self.at(Stage::Syncing { purpose: Purpose::Requested })
        } else {
            self.at(Stage::ReadingRotation)
        }
    }

    fn after_rotation(self, rotation: Option<i32>) -> (result: Daemon)
        ensures
            result@ == self@.after_rotation(rotation),
    {
        let mut status = self;
        status.data.record_rotation(rotation_or_default(rotation));
        status.at(Stage::SavingRotation)
    }

    fn after_legacy(self, content_updated: bool) -> (result: Daemon)
        ensures
            result@ == self@.after_legacy(content_updated),
    {
        if self.data.update_requested() {
            self.at(Stage::Syncing { purpose: Purpose::LegacyRequested })
        } else {
            self.polling_every(LEGACY_POLL_SECONDS).finishing(content_updated, false)
        }
    }

    fn polling_every(self, poll_seconds: u64) -> (result: Status)
        ensures
            result@ == self@.polling_every(poll_seconds),
    {
        let mut status = self;
        status.poll_seconds = poll_seconds;
        status
    }

    fn taking_layout(
        self,
        response: ClientTimelineScheduleResponse,
        content_updated: bool,
    ) -> (result: Daemon)
        ensures
            result@ == self@.taking_layout(response@, content_updated),
    {
        let mut status = self;
        let turned = status.data.record_layout(&response);
        let restart = content_updated || turned;
        if response.update_flags.layout_change {
            status.at(Stage::AcknowledgingLayout { response, content_updated, restart })
        } else {
            status.at(Stage::SavingSchedule { response, content_updated, restart })
        }
    }

    fn finishing(self, content_updated: bool, restart: bool) -> (result: Daemon)
        ensures
            result@ == self@.finishing(content_updated, restart),
    {
        if restart {
            self.at(Stage::Restarting { again: content_updated })
        } else if content_updated {
            self.at(Stage::Restarting { again: false })
        } else {
            self.at(Stage::Polling)
        }
    }

    fn after_update(self, purpose: Purpose) -> (result: Daemon)
        ensures
            result@ == self@.after_update(purpose@),
    {
        match purpose {
            Purpose::First => self.after_first_update(),
            Purpose::Requested => self.at(Stage::ReadingRotation),
            Purpose::Schedule(response) => match acknowledgement(&response.update_flags) {
                Some(report) => self.at(Stage::Acknowledging { response, report }),
                None => self.taking_layout(response, true),
            },
            Purpose::Legacy => self.after_legacy(true),
            Purpose::LegacyRequested => self.polling_every(LEGACY_POLL_SECONDS).finishing(
                true,
                false,
            ),
        }
    }
}

impl Daemon {
    /// The daemon before anything was done.
    pub fn new() -> (result: Daemon)
        ensures
            result@ == DaemonView::initial(),
    {
        let status = Status {
            data: Data::new(),
            poll_seconds: INITIAL_POLL_SECONDS,
            online: false,
            playing: false,
        };
        Daemon { status, stage: Stage::CleaningUp }
    }

    /// What the player remembers.
    pub fn data(&self) -> (result: &Data)
        ensures
            result@ == self@.status.data,
    {
        &self.status.data
    }

    /// The seconds between two check-ins.
    pub fn poll_seconds(&self) -> (result: u64)
        ensures
            result == self@.status.poll_seconds,
    {
        self.status.poll_seconds
    }

    /// What is to be done now.
    pub fn action(&self) -> (result: Action)
        ensures
            result == self@.action(),
    {
        match &self.stage {
            Stage::CleaningUp => Action::CleanUp,
            Stage::Loading { .. } => Action::Load,
            Stage::Probing { .. } => Action::ProbeHealth,
            Stage::Pausing { due_seconds, .. } => Action::AwaitRetry { due_seconds: *due_seconds },
            Stage::ExchangingKey => Action::ExchangeKey,
            Stage::Syncing { .. } => Action::Sync,
            Stage::Receiving { .. } => Action::ReceiveVideos,
            Stage::SavingVideos { .. } => Action::SaveData,
            Stage::Rebuilding { .. } => Action::RebuildPlaylist,
            Stage::ReadingRotation => Action::CheckSchedule,
            Stage::SavingRotation => Action::SaveData,
            Stage::StartingPlayer => {
                let rotation: i32 = self.status.rotation();
                if self.status.playing {
                    Action::RestartPlayer { rotation }
                } else {
                    Action::StartPlayer { rotation }
                }
            },
            Stage::Idle => Action::Await,
            Stage::ProbingOffline => Action::ProbeHealth,
            Stage::CheckingSchedule => Action::CheckSchedule,
            Stage::Acknowledging { report, .. } => Action::AcknowledgeUpdates { report: *report },
            Stage::AcknowledgingLayout { .. } => Action::AcknowledgeLayout,
            Stage::SavingSchedule { .. } => Action::SaveData,
            Stage::Restarting { .. } => Action::RestartPlayer { rotation: self.status.rotation() },
            Stage::Polling => Action::PollPlayer,
            Stage::Reviving => Action::StartPlayer { rotation: self.status.rotation() },
            Stage::Resting => Action::Pause { seconds: REST_SECONDS },
            Stage::Killing => Action::KillPlayer,
            Stage::Stopped { failed } => Action::Exit { failed: *failed },
        }
    }

    /// Takes the failure of the action at hand.
    fn after_failure(self) -> (result: Daemon)
        ensures
            result@ == self@.after_failure(),
    {
        let Daemon { status, stage } = self;
        match stage {
            Stage::ReadingRotation => status.after_rotation(None),
            Stage::CheckingSchedule => status.at(Stage::Syncing { purpose: Purpose::Legacy }),
            Stage::AcknowledgingLayout { response, content_updated, restart } => status.at(
                Stage::SavingSchedule { response, content_updated, restart },
            ),
            Stage::Polling => status.at(Stage::Resting),
            Stage::Stopped { failed } => status.at(Stage::Stopped { failed }),
            _ => status.at(Stage::Stopped { failed: true }),
        }
    }

    /// Takes the success of the action at hand, at `now`.
    fn after_done(self, now: Timestamp) -> (result: Daemon)
        ensures
            result@ == self@.after_done(now@),
    {
        let Daemon { status, stage } = self;
        match stage {
            Stage::CleaningUp => status.at(Stage::Loading { starting: true }),
            Stage::Pausing { retries, .. } => status.at(
                Stage::Probing { retries: retries.saturating_add(1) },
            ),
            Stage::ExchangingKey => {
                let mut status = status;
                status.online = true;
                status.after_key()
            },
            Stage::SavingVideos { purpose } => status.at(Stage::Rebuilding { purpose }),
            Stage::Rebuilding { purpose } => status.after_update(purpose),
            Stage::SavingRotation => status.at(Stage::StartingPlayer),
            Stage::StartingPlayer => {
                let mut status = status;
                status.playing = true;
                status.at(Stage::Idle)
            },
            Stage::Acknowledging { response, .. } => status.taking_layout(response, true),
            Stage::AcknowledgingLayout { response, content_updated, restart } => status.at(
                Stage::SavingSchedule { response, content_updated, restart },
            ),
            Stage::SavingSchedule { response, content_updated, restart } => {
                let seconds: u64 = poll_interval_at(&response, now);
                status.polling_every(seconds).finishing(content_updated, restart)
            },
            Stage::Restarting { again } => if again {
                status.at(Stage::Restarting { again: false })
            } else {
                status.at(Stage::Polling)
            },
            Stage::Polling => status.at(Stage::Resting),
            Stage::Reviving => status.at(Stage::Resting),
            Stage::Resting => status.at(Stage::Idle),
            Stage::Killing => status.at(Stage::Stopped { failed: false }),
            other => status.at(other),
        }
    }

    /// Takes an event at `now`.
    pub fn step_at(self, event: Event, now: Timestamp) -> (result: Daemon)
        ensures
            result@ == self@.next(event@, now@),
    {
        let event = match event {
            Event::Done => {
                return self.after_done(now);
            },
            Event::Failed => {
                return self.after_failure();
            },
            other => other,
        };
        let Daemon { status, stage } = self;
        match (event, stage) {
            (Event::Loaded(data), Stage::Loading { starting }) => {
                let mut status = status;
                status.data = data;
                if starting {
                    status.at(Stage::Probing { retries: 0 })
                } else {
                    status.at(Stage::Idle)
                }
            },
            (Event::Health { status: reply, cached, waited_seconds }, Stage::Probing { retries }) => {
                match health_verdict(reply, cached, retries, waited_seconds) {
                    Verdict::Ready => status.at(Stage::ExchangingKey),
                    Verdict::Offline => status.at(Stage::StartingPlayer),
                    Verdict::Retry { due_seconds } => status.at(
                        Stage::Pausing { retries, due_seconds },
                    ),
                }
            },
            (Event::Health { status: reply, .. }, Stage::ProbingOffline) => {
                if reply == Some(200u16) {
                    status.at(Stage::ExchangingKey)
                } else {
                    status.at(Stage::Polling)
                }
            },
            (Event::Schedule(response), Stage::ReadingRotation) => status.after_rotation(
                response.rotation,
            ),
            (Event::Schedule(response), Stage::CheckingSchedule) => {
                let mut status = status;
                if status.data.record_schedule(&response, now) {
                    status.at(Stage::Syncing { purpose: Purpose::Schedule(response) })
                } else {
                    status.taking_layout(response, false)
                }
            },
            (Event::Synced(updated), Stage::Syncing { purpose }) => {
                let legacy = match &purpose {
                    Purpose::Legacy => true,
                    _ => false,
                };
                if legacy && !status.data.is_news(updated) {
                    status.after_legacy(false)
                } else {
                    status.at(Stage::Receiving { purpose, updated })
                }
            },
            (Event::Videos(videos), Stage::Receiving { purpose, updated }) => {
                let mut status = status;
                status.data.record_videos(videos, updated);
                status.at(Stage::SavingVideos { purpose })
            },
            (Event::PlayerExited, Stage::Polling) => status.at(Stage::Reviving),
            (Event::Tick, Stage::Idle) => {
                if status.online {
                    status.at(Stage::CheckingSchedule)
                } else {
                    status.at(Stage::ProbingOffline)
                }
            },
            (Event::Stop, Stage::Idle) => status.at(Stage::Killing),
            (Event::Hangup, Stage::Idle) => status.at(Stage::Loading { starting: false }),
            (_, other) => status.at(other),
        }
    }

    /// Takes an event at the present instant.
    pub fn step(self, event: Event) -> (result: Daemon)
        ensures
            exists|now: TimestampView|
                now.valid() && now.seconds >= 0 && !now.in_leap_second() && result@
                    == #[trigger] self@.next(event@, now),
    {
        let now = Timestamp::now();
        self.step_at(event, now)
    }
}

} // verus!
