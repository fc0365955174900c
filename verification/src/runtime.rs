//! The app runtime: one state, changed by the actions of the UI and by reports
//! on the outside work that it asked for.
//!
//! Nothing here waits or touches the world. An action changes the state at once
//! and gives a list of [`Command`]s; whoever carries them out reports back
//! through the methods that the commands name.

use vstd::prelude::*;

use crate::action::{Command, FollowUp, FollowUpModel, NativeAppAction, Seen, Wipe};
use crate::lanes::{
    aware_udp_slots, AWARE_UDP_BASE_PORT, AWARE_UDP_DEFAULT_SLOTS, AWARE_UDP_INSTANCE_COUNT,
};
use crate::lifecycle::{Lifecycle, StartOutcome, StopOutcome};
use crate::node_plan::BuildError;
use crate::peer_feed::{PeerFeed, PeerFeedModel, PeerView};
use crate::settings_store::{SettingChange, Settings};
use crate::speedtest::{Speedtest, SpeedtestModel, START_BYTES};
use crate::startup::StartupError;
use crate::state::{
    AppState, BleStatus, ContentReport, IdentityModel, IdentityView, NodeStatus, RadioFlags,
    WifiAwareStatus,
};
use crate::text::glue;

verus! {

/// What a start that succeeded has brought.
#[derive(Debug, Clone)]
pub struct Startup {
    pub settings: Settings,
    pub identity: IdentityView,
    /// What is to be said of services that could not be bound.
    pub mesh_warning: String,
}

/// The app runtime.
pub struct AppRuntime {
    app_version: String,
    data_dir: String,
    rev: u64,
    error: String,
    /// The custom relay as last saved: what the settings screen shows, though
    /// the running store is the previous one until the app is restarted.
    pending_relay_url: String,
    /// The custom Blossom as last saved, for the same reason.
    pending_blossom_url: String,
    /// The chipset's number of data paths as last reported.
    aware_data_paths: Option<u8>,
    /// How many Aware instances the node has bound. The radio allocates slots
    /// from this, so a report that comes later changes nothing before the next
    /// node.
    aware_slots: u8,
    identity: IdentityView,
    ble_enabled: bool,
    wifi_aware_enabled: bool,
    node_status: String,
    lifecycle: Lifecycle,
    /// The content layer is open.
    has_content: bool,
    /// The attempt history is kept on disk.
    has_attempt_store: bool,
    speedtest: Speedtest,
    feed: PeerFeed,
}

/// What an [`AppRuntime`] holds.
pub struct RuntimeModel {
    pub app_version: Seq<char>,
    pub data_dir: Seq<char>,
    pub rev: nat,
    pub error: Seq<char>,
    pub pending_relay_url: Seq<char>,
    pub pending_blossom_url: Seq<char>,
    pub aware_data_paths: Option<u8>,
    pub aware_slots: u8,
    pub identity: IdentityModel,
    pub ble_enabled: bool,
    pub wifi_aware_enabled: bool,
    pub node_status: Seq<char>,
    pub lifecycle: Lifecycle,
    pub has_content: bool,
    pub has_attempt_store: bool,
    pub speedtest: SpeedtestModel,
    pub feed: PeerFeedModel,
}

impl View for AppRuntime {
    type V = RuntimeModel;

    closed spec fn view(&self) -> RuntimeModel {
        RuntimeModel {
            app_version: self.app_version@,
            data_dir: self.data_dir@,
            rev: self.rev as nat,
            error: self.error@,
            pending_relay_url: self.pending_relay_url@,
            pending_blossom_url: self.pending_blossom_url@,
            aware_data_paths: self.aware_data_paths,
            aware_slots: self.aware_slots,
            identity: self.identity@,
            ble_enabled: self.ble_enabled,
            wifi_aware_enabled: self.wifi_aware_enabled,
            node_status: self.node_status@,
            lifecycle: self.lifecycle,
            has_content: self.has_content,
            has_attempt_store: self.has_attempt_store,
            speedtest: self.speedtest@,
            feed: self.feed@,
        }
    }
}

/// The URL that a setting stands for, or an empty text.
pub open spec fn url_text(v: Option<Seq<char>>) -> Seq<char> {
    match crate::settings_store::url_of(v) {
        Some(url) => url,
        None => seq![],
    }
}

/// One command where a condition holds, none otherwise.
pub open spec fn when(condition: bool, command: Command) -> Seq<Command> {
    if condition {
        seq![command]
    } else {
        seq![]
    }
}

impl RuntimeModel {
    /// What holds between any two calls.
    pub open spec fn wf(self) -> bool {
        &&& self.lifecycle.wf()
        &&& self.speedtest.wf()
        &&& self.speedtest.running ==> self.lifecycle.has_runtime
        &&& 1 <= self.aware_slots <= AWARE_UDP_INSTANCE_COUNT
        &&& self.has_content == self.lifecycle.has_runtime
        &&& self.has_attempt_store == self.lifecycle.has_runtime
        &&& url_text(Some(self.pending_relay_url)) == self.pending_relay_url
        &&& url_text(Some(self.pending_blossom_url)) == self.pending_blossom_url
    }

    /// Whether there is a content layer and something to run its work on.
    pub open spec fn can_spawn(self) -> bool {
        self.has_content && self.lifecycle.has_runtime
    }

    /// Right after a start that succeeded.
    pub open spec fn ready(
        data_dir: Seq<char>,
        app_version: Seq<char>,
        startup: Startup,
    ) -> RuntimeModel {
        RuntimeModel {
            app_version,
            data_dir,
            rev: 0,
            error: startup.mesh_warning@,
            pending_relay_url: url_text(startup.settings@.custom_relay_url),
            pending_blossom_url: url_text(startup.settings@.custom_blossom_url),
            aware_data_paths: startup.settings.aware_data_paths,
            aware_slots: crate::lanes::slots_for(startup.settings.aware_data_paths),
            identity: startup.identity@,
            ble_enabled: false,
            wifi_aware_enabled: false,
            node_status: "fips node constructed (not started)"@,
            lifecycle: Lifecycle::constructed(),
            has_content: true,
            has_attempt_store: true,
            speedtest: SpeedtestModel::idle(),
            feed: PeerFeedModel::fresh(),
        }
    }

    /// Right after a start that failed: the reason is there to be shown.
    pub open spec fn unable(app_version: Seq<char>, e: StartupError) -> RuntimeModel {
        RuntimeModel {
            app_version,
            data_dir: seq![],
            rev: 0,
            error: crate::startup::startup_error_text(e),
            pending_relay_url: seq![],
            pending_blossom_url: seq![],
            aware_data_paths: None,
            aware_slots: AWARE_UDP_DEFAULT_SLOTS,
            identity: IdentityModel::none(),
            ble_enabled: false,
            wifi_aware_enabled: false,
            node_status: "error"@,
            lifecycle: Lifecycle::failed(),
            has_content: false,
            has_attempt_store: false,
            speedtest: SpeedtestModel::idle(),
            feed: PeerFeedModel::fresh(),
        }
    }

    /// What the outcome of a start says to the user.
    pub open spec fn told(self, outcome: StartOutcome) -> RuntimeModel {
        match outcome {
            StartOutcome::Queued => RuntimeModel {
                node_status: "waiting for the previous node to stop"@,
                ..self
            },
            StartOutcome::NoRuntime => RuntimeModel { error: "no runtime"@, ..self },
            StartOutcome::SpawnLoop => RuntimeModel { node_status: "running"@, ..self },
            _ => self,
        }
    }

    pub open spec fn after_start(self, loop_finished: bool) -> RuntimeModel {
        RuntimeModel { lifecycle: self.lifecycle.after_start(loop_finished), ..self }.told(
            self.lifecycle.start_outcome(loop_finished),
        )
    }

    pub open spec fn after_stop(self) -> RuntimeModel {
        RuntimeModel {
            lifecycle: self.lifecycle.after_stop(),
            feed: PeerFeedModel::fresh(),
            node_status: "stopped"@,
            ..self
        }
    }

    pub open spec fn after_poll(self) -> RuntimeModel {
        if self.lifecycle.pending_start_is_due() {
            self.after_start(false)
        } else {
            self
        }
    }

    /// A node was built from the settings that reported this number of data
    /// paths, or could not be.
    pub open spec fn after_built(
        self,
        reported: Option<u8>,
        built: Result<(), BuildError>,
    ) -> RuntimeModel {
        match built {
            Ok(_) => RuntimeModel {
                aware_slots: crate::lanes::slots_for(reported),
                lifecycle: self.lifecycle.after_built(true),
                ..self
            }.told(self.lifecycle.built_outcome(true)),
            Err(e) => RuntimeModel {
                error: "rebuild node: "@ + crate::node_plan::build_error_text(e),
                lifecycle: self.lifecycle.after_built(false),
                ..self
            },
        }
    }

    /// A setting was saved, or could not be. A capability that could not be
    /// saved is not told: the user can do nothing about it, and the lane works
    /// at the previous size.
    pub open spec fn after_saved(
        self,
        change: SettingChange,
        saved: Settings,
        result: Result<(), String>,
    ) -> RuntimeModel {
        match (change, result) {
            (SettingChange::Relay { url }, Ok(_)) => RuntimeModel {
                pending_relay_url: url_text(saved@.custom_relay_url),
                ..self
            },
            (SettingChange::Relay { url }, Err(e)) => RuntimeModel {
                error: "Could not save the relay setting: "@ + e@,
                ..self
            },
            (SettingChange::Blossom { url }, Ok(_)) => RuntimeModel {
                pending_blossom_url: url_text(saved@.custom_blossom_url),
                ..self
            },
            (SettingChange::Blossom { url }, Err(e)) => RuntimeModel {
                error: "Could not save the blob store setting: "@ + e@,
                ..self
            },
            (SettingChange::AwareDataPaths { count }, Ok(_)) => RuntimeModel {
                aware_data_paths: Some(count),
                ..self
            },
            (SettingChange::AwareDataPaths { count }, Err(_)) => self,
        }
    }

    /// Content was wiped, or could not be.
    pub open spec fn after_wiped(self, what: Wipe, result: Result<(), String>) -> RuntimeModel {
        match result {
            Ok(_) => self,
            Err(e) => RuntimeModel {
                error: match what {
                    Wipe::Stores => "wipe failed: "@ + e@,
                    Wipe::Cache => "cache wipe failed: "@ + e@,
                },
                ..self
            },
        }
    }

    /// Whether an action counts as a change of state.
    pub open spec fn bumps_rev(self, action: NativeAppAction) -> bool {
        match action {
            NativeAppAction::GetState => false,
            NativeAppAction::SetAwareDataPaths { count } => self.aware_data_paths != Some(count),
            _ => true,
        }
    }

    /// The state after an action, but for the revision.
    pub open spec fn reduced(self, action: NativeAppAction, seen: Seen) -> RuntimeModel {
        match action {
            NativeAppAction::StartNode => self.after_start(seen.loop_finished),
            NativeAppAction::StopNode => self.after_stop(),
            NativeAppAction::SetBleEnabled { enabled } => RuntimeModel {
                ble_enabled: enabled,
                node_status: if enabled {
                    "ble enabled"@
                } else {
                    "ble disabled"@
                },
                ..self
            },
            NativeAppAction::SetWifiAwareEnabled { enabled } => RuntimeModel {
                wifi_aware_enabled: enabled,
                ..self
            },
            NativeAppAction::OpenNsite { link, holder } => if seen.link_recognized {
                self
            } else {
                RuntimeModel { error: "unrecognized nsite link: "@ + link@, ..self }
            },
            NativeAppAction::SpeedtestPeer { npub } => if self.lifecycle.has_runtime {
                RuntimeModel { speedtest: self.speedtest.begun(npub@), ..self }
            } else {
                self
            },
            _ => self,
        }
    }

    /// The state after an action.
    pub open spec fn dispatched(self, action: NativeAppAction, seen: Seen) -> RuntimeModel {
        let reduced = self.reduced(action, seen);
        if self.bumps_rev(action) {
            RuntimeModel { rev: self.rev + 1, ..reduced }
        } else {
            reduced
        }
    }

    /// The state after an action that came as JSON and was parsed, or could not
    /// be.
    pub open spec fn taken(
        self,
        parsed: Result<NativeAppAction, String>,
        seen: Seen,
    ) -> RuntimeModel {
        match parsed {
            Ok(action) => self.dispatched(action, seen),
            Err(e) => RuntimeModel {
                error: "invalid action JSON: "@ + e@,
                rev: self.rev + 1,
                ..self
            },
        }
    }

    /// The commands of a start's outcome.
    pub open spec fn outcome_commands(self, outcome: StartOutcome) -> Seq<Command> {
        match outcome {
            StartOutcome::BuildNode => seq![
                Command::BuildNode { wifi_aware: self.wifi_aware_enabled },
            ],
            StartOutcome::NoRuntime => seq![Command::DropNode],
            StartOutcome::SpawnLoop => seq![Command::SpawnLoop],
            _ => seq![],
        }
    }

    pub open spec fn start_commands(self, loop_finished: bool) -> Seq<Command> {
        when(self.lifecycle.exited(loop_finished), Command::ForgetLoop) + self.outcome_commands(
            self.lifecycle.start_outcome(loop_finished),
        )
    }

    pub open spec fn poll_commands(self) -> Seq<Command> {
        if self.lifecycle.pending_start_is_due() {
            self.start_commands(false)
        } else {
            seq![]
        }
    }

    /// The responder answers through the whole of a drain, so a stop takes its
    /// address back only where there is no drain to wait for.
    pub open spec fn stop_commands(self) -> Seq<Command> {
        when(self.lifecycle.stop_outcome().signal, Command::SignalShutdown) + (
        if self.lifecycle.stop_outcome().drain {
            seq![Command::WatchDrain]
        } else {
            when(!self.lifecycle.stopping, Command::RetractResponder)
        })
    }

    /// The outside work that an action asks for. What needs the content layer
    /// is asked for only where there is one; what runs aside also needs a
    /// runtime.
    pub open spec fn commands(self, action: NativeAppAction, seen: Seen) -> Seq<Command> {
        match action {
            NativeAppAction::GetState => seq![],
            NativeAppAction::Tick => seq![],
            NativeAppAction::StartNode => self.start_commands(seen.loop_finished),
            NativeAppAction::StopNode => self.stop_commands(),
            NativeAppAction::SetBleEnabled { enabled } => seq![],
            NativeAppAction::SetWifiAwareEnabled { enabled } => seq![],
            NativeAppAction::OpenNsite { link, holder } => when(
                seen.link_recognized && self.can_spawn(),
                Command::OpenSite { link, holder },
            ),
            NativeAppAction::ImportNsite { dir } => when(
                self.can_spawn(),
                Command::ImportDir { dir },
            ),
            NativeAppAction::AddToLibrary { link } => when(
                seen.link_recognized && self.has_content,
                Command::AddToLibrary { link },
            ),
            NativeAppAction::RemoveFromLibrary { link } => when(
                seen.link_recognized && self.has_content,
                Command::RemoveFromLibrary { link },
            ),
            NativeAppAction::ForgetNsite { link } => when(
                seen.link_recognized && self.has_content,
                Command::ForgetSite { link },
            ),
            NativeAppAction::CheckNsiteUpdates => when(self.can_spawn(), Command::CheckUpdates),
            NativeAppAction::SearchNsites { query } => when(
                self.can_spawn(),
                Command::DiscoverFromCircle,
            ),
            NativeAppAction::WipeStores => when(
                self.can_spawn(),
                Command::Wipe { what: Wipe::Stores },
            ),
            NativeAppAction::WipeCache => when(
                self.can_spawn(),
                Command::Wipe { what: Wipe::Cache },
            ),
            NativeAppAction::AddToCircle { npub, name } => when(
                self.has_content,
                Command::AddToCircle { npub, name },
            ),
            NativeAppAction::RemoveFromCircle { npub } => when(
                self.has_content,
                Command::RemoveFromCircle { npub },
            ) + when(self.can_spawn(), Command::SendUnpair { npub }),
            NativeAppAction::SendPairRequest { npub, name, secret } => when(
                self.can_spawn(),
                Command::SendPairRequest { npub, name, secret },
            ),
            NativeAppAction::CancelPairInvite { npub } => when(
                self.has_content,
                Command::ForgetOutboundPair { npub },
            ),
            NativeAppAction::AcceptPairRequest { npub, name } => when(
                self.can_spawn(),
                Command::AcceptPairRequest { npub, name },
            ),
            NativeAppAction::DeclinePairRequest { npub } => when(
                self.has_content,
                Command::DeclinePairRequest { npub },
            ),
            NativeAppAction::SetOfflineOnly { enabled } => when(
                self.has_content,
                Command::SetOfflineOnly { enabled },
            ),
            NativeAppAction::SetCustomRelay { url } => seq![
                Command::UpdateSettings { change: SettingChange::Relay { url } },
            ],
            NativeAppAction::SetCustomBlossom { url } => seq![
                Command::UpdateSettings { change: SettingChange::Blossom { url } },
            ],
            NativeAppAction::SetAwareDataPaths { count } => when(
                self.aware_data_paths != Some(count),
                Command::UpdateSettings { change: SettingChange::AwareDataPaths { count } },
            ),
            NativeAppAction::SetDeviceName { name } => when(
                self.has_content,
                Command::SetDeviceName { name },
            ),
            NativeAppAction::SpeedtestPeer { npub } => when(
                self.lifecycle.has_runtime && !self.speedtest.running,
                Command::MeasureLink { npub, bytes: START_BYTES },
            ),
            NativeAppAction::ShareFile { path, name, mime, peer_npub } => when(
                self.can_spawn(),
                Command::ShareFile { path, name, mime, peer_npub },
            ),
            NativeAppAction::AcceptFileTransfer { transfer_id } => when(
                self.can_spawn(),
                Command::RespondFileTransfer { transfer_id, accept: true },
            ),
            NativeAppAction::DeclineFileTransfer { transfer_id } => when(
                self.can_spawn(),
                Command::RespondFileTransfer { transfer_id, accept: false },
            ),
            NativeAppAction::CancelFileTransfer { transfer_id } => when(
                self.can_spawn(),
                Command::CancelFileTransfer { transfer_id },
            ),
            NativeAppAction::ForgetFileTransfer { transfer_id } => when(
                self.has_content,
                Command::ForgetFileTransfer { transfer_id },
            ),
        }
    }

    /// What is shown of the node. The drain is a state of its own: the node is
    /// neither running nor gone.
    pub open spec fn status_text(self) -> Seq<char> {
        if !self.lifecycle.stopping {
            self.node_status
        } else if self.lifecycle.start_pending {
            "restarting (draining the previous node)"@
        } else {
            "stopping (draining)"@
        }
    }
}

fn nothing() -> (commands: Vec<Command>)
    ensures
        commands@ == Seq::<Command>::empty(),
{
    Vec::new()
}

fn one_when(condition: bool, command: Command) -> (commands: Vec<Command>)
    ensures
        commands@ == when(condition, command),
{
    let mut commands: Vec<Command> = Vec::new();
    if condition {
        commands.push(command);
    }
    assert(commands@ =~= when(condition, command));
    commands
}

fn or_empty(url: Option<String>) -> (text: String)
    ensures
        text@ == (match url {
            Some(url) => url@,
            None => seq![],
        }),
{
    match url {
        Some(url) => url,
        None => String::new(),
    }
}

/// The pool size of the next node, from the settings as they are on disk.
pub fn configured_aware_slots(settings: &Settings) -> (slots: u8)
    ensures
        slots == crate::lanes::slots_for(settings.aware_data_paths),
        1 <= slots <= AWARE_UDP_INSTANCE_COUNT,
{
    aware_udp_slots(settings.aware_data_paths)
}

/// Whether an action is passed on to the content layer and leaves the rest of
/// the state as it is.
pub open spec fn is_content_action(action: NativeAppAction) -> bool {
    match action {
        NativeAppAction::GetState => false,
        NativeAppAction::Tick => false,
        NativeAppAction::StartNode => false,
        NativeAppAction::StopNode => false,
        NativeAppAction::SetBleEnabled { enabled } => false,
        NativeAppAction::SetWifiAwareEnabled { enabled } => false,
        NativeAppAction::OpenNsite { link, holder } => false,
        NativeAppAction::SetCustomRelay { url } => false,
        NativeAppAction::SetCustomBlossom { url } => false,
        NativeAppAction::SetAwareDataPaths { count } => false,
        NativeAppAction::SpeedtestPeer { npub } => false,
        _ => true,
    }
}

impl AppRuntime {
    /// The runtime after a start. It never fails: a start that did is kept as
    /// the error to show.
    pub fn new(
        data_dir: &str,
        app_version: &str,
        startup: Result<Startup, StartupError>,
    ) -> (rt: AppRuntime)
        ensures
            rt@ == (match startup {
                Ok(startup) => RuntimeModel::ready(data_dir@, app_version@, startup),
                Err(e) => RuntimeModel::unable(app_version@, e),
            }),
            rt@.wf(),
    {
        match startup {
            Ok(startup) => Self::started(data_dir, app_version, startup),
            Err(e) => Self::from_error(app_version, &e),
        }
    }

    fn started(data_dir: &str, app_version: &str, startup: Startup) -> (rt: AppRuntime)
        ensures
            rt@ == RuntimeModel::ready(data_dir@, app_version@, startup),
            rt@.wf(),
    {
        proof {
            crate::settings_store::law_urls_are_trimmed(startup.settings@.custom_relay_url);
            crate::settings_store::law_urls_are_trimmed(startup.settings@.custom_blossom_url);
        }
        AppRuntime {
            app_version: app_version.to_owned(),
            data_dir: data_dir.to_owned(),
            rev: 0,
            error: startup.mesh_warning,
            pending_relay_url: or_empty(startup.settings.relay_url()),
            pending_blossom_url: or_empty(startup.settings.blossom_url()),
            aware_data_paths: startup.settings.aware_data_paths,
            aware_slots: configured_aware_slots(&startup.settings),
            identity: startup.identity,
            ble_enabled: false,
            wifi_aware_enabled: false,
            node_status: "fips node constructed (not started)".to_owned(),
            lifecycle: Lifecycle::new_constructed(),
            has_content: true,
            has_attempt_store: true,
            speedtest: Speedtest::new(),
            feed: PeerFeed::new(),
        }
    }

    fn from_error(app_version: &str, e: &StartupError) -> (rt: AppRuntime)
        ensures
            rt@ == RuntimeModel::unable(app_version@, *e),
            rt@.wf(),
    {
        AppRuntime {
            app_version: app_version.to_owned(),
            data_dir: String::new(),
            rev: 0,
            error: e.message(),
            pending_relay_url: String::new(),
            pending_blossom_url: String::new(),
            aware_data_paths: None,
            aware_slots: AWARE_UDP_DEFAULT_SLOTS,
            identity: IdentityView::default(),
            ble_enabled: false,
            wifi_aware_enabled: false,
            node_status: "error".to_owned(),
            lifecycle: Lifecycle::new_failed(),
            has_content: false,
            has_attempt_store: false,
            speedtest: Speedtest::new(),
            feed: PeerFeed::new(),
        }
    }

    /// Says what came of a start, and what to do about it.
    fn tell(&mut self, outcome: StartOutcome) -> (commands: Vec<Command>)
        ensures
            final(self)@ == old(self)@.told(outcome),
            commands@ == old(self)@.outcome_commands(outcome),
    {
        let mut commands: Vec<Command> = Vec::new();
        match outcome {
            StartOutcome::Queued => {
                self.node_status = "waiting for the previous node to stop".to_owned();
            },
            StartOutcome::BuildNode => {
                commands.push(Command::BuildNode { wifi_aware: self.wifi_aware_enabled });
            },
            StartOutcome::NoRuntime => {
                self.error = "no runtime".to_owned();
                commands.push(Command::DropNode);
            },
            StartOutcome::SpawnLoop => {
                self.node_status = "running".to_owned();
                commands.push(Command::SpawnLoop);
            },
            StartOutcome::AlreadyRunning => {},
            StartOutcome::AwaitingBuild => {},
            StartOutcome::BuildFailed => {},
        }
        assert(commands@ =~= old(self)@.outcome_commands(outcome));
        commands
    }

    fn start_node(&mut self, loop_finished: bool) -> (commands: Vec<Command>)
        requires
            old(self)@.wf(),
        ensures
            final(self)@ == old(self)@.after_start(loop_finished),
            commands@ == old(self)@.start_commands(loop_finished),
            final(self)@.wf(),
    {
        let exited: bool = self.lifecycle.node_running && self.lifecycle.loop_task
            && loop_finished;
        let mut commands: Vec<Command> = one_when(exited, Command::ForgetLoop);
        let outcome: StartOutcome = self.lifecycle.start(loop_finished);
        let mut rest: Vec<Command> = self.tell(outcome);
        commands.append(&mut rest);
        assert(commands@ =~= old(self)@.start_commands(loop_finished));
        commands
    }

    fn stop_node(&mut self) -> (commands: Vec<Command>)
        requires
            old(self)@.wf(),
        ensures
            final(self)@ == old(self)@.after_stop(),
            commands@ == old(self)@.stop_commands(),
            final(self)@.wf(),
    {
        let draining: bool = self.lifecycle.stopping;
        let outcome: StopOutcome = self.lifecycle.stop();
        let mut commands: Vec<Command> = one_when(outcome.signal, Command::SignalShutdown);
        if outcome.drain {
            commands.push(Command::WatchDrain);
        } else if !draining {
            commands.push(Command::RetractResponder);
        }
        self.feed.reset();
        self.node_status = "stopped".to_owned();
        assert(commands@ =~= old(self)@.stop_commands());
        commands
    }

    fn start_speedtest(&mut self, npub: String) -> (commands: Vec<Command>)
        requires
            old(self)@.wf(),
        ensures
            final(self)@ == (if old(self)@.lifecycle.has_runtime {
                RuntimeModel { speedtest: old(self)@.speedtest.begun(npub@), ..old(self)@ }
            } else {
                old(self)@
            }),
            commands@ == when(
                old(self)@.lifecycle.has_runtime && !old(self)@.speedtest.running,
                Command::MeasureLink { npub, bytes: START_BYTES },
            ),
            final(self)@.wf(),
    {
        let mut commands: Vec<Command> = Vec::new();
        if self.lifecycle.has_runtime {
            let first: Option<u64> = self.speedtest.begin(npub.clone());
            if let Some(bytes) = first {
                commands.push(Command::MeasureLink { npub, bytes });
            }
        }
        assert(commands@ =~= when(
            old(self)@.lifecycle.has_runtime && !old(self)@.speedtest.running,
            Command::MeasureLink { npub, bytes: START_BYTES },
        ));
        commands
    }

    fn open_nsite(&mut self, link: String, holder: Option<String>, recognized: bool) -> (commands:
        Vec<Command>)
        requires
            old(self)@.wf(),
        ensures
            final(self)@ == (if recognized {
                old(self)@
            } else {
                RuntimeModel { error: "unrecognized nsite link: "@ + link@, ..old(self)@ }
            }),
            commands@ == when(
                recognized && old(self)@.can_spawn(),
                Command::OpenSite { link, holder },
            ),
            final(self)@.wf(),
    {
        if !recognized {
            self.error = glue("unrecognized nsite link: ", link.as_str());
            let commands: Vec<Command> = Vec::new();
            assert(commands@ =~= when(false, Command::OpenSite { link, holder }));
            return commands;
        }
        one_when(
            self.has_content && self.lifecycle.has_runtime,
            Command::OpenSite { link, holder },
        )
    }

    /// The outside work of an action that leaves the state as it is.
    fn content_commands(&self, action: NativeAppAction, seen: Seen) -> (commands: Vec<Command>)
        requires
            is_content_action(action),
        ensures
            commands@ == self@.commands(action, seen),
    {
        let content: bool = self.has_content;
        let aside: bool = self.has_content && self.lifecycle.has_runtime;
        match action {
            NativeAppAction::ImportNsite { dir } => one_when(aside, Command::ImportDir { dir }),
            NativeAppAction::AddToLibrary { link } => one_when(
                seen.link_recognized && content,
                Command::AddToLibrary { link },
            ),
            NativeAppAction::RemoveFromLibrary { link } => one_when(
                seen.link_recognized && content,
                Command::RemoveFromLibrary { link },
            ),
            NativeAppAction::ForgetNsite { link } => one_when(
                seen.link_recognized && content,
                Command::ForgetSite { link },
            ),
            NativeAppAction::CheckNsiteUpdates => one_when(aside, Command::CheckUpdates),
            NativeAppAction::SearchNsites { query: _ } => one_when(
                aside,
                Command::DiscoverFromCircle,
            ),
            NativeAppAction::WipeStores => one_when(aside, Command::Wipe { what: Wipe::Stores }),
            NativeAppAction::WipeCache => one_when(aside, Command::Wipe { what: Wipe::Cache }),
            NativeAppAction::AddToCircle { npub, name } => one_when(
                content,
                Command::AddToCircle { npub, name },
            ),
            NativeAppAction::RemoveFromCircle { npub } => {
                let mut both: Vec<Command> = one_when(
                    content,
                    Command::RemoveFromCircle { npub: npub.clone() },
                );
                let mut unpair: Vec<Command> = one_when(aside, Command::SendUnpair { npub });
                both.append(&mut unpair);
                assert(both@ =~= self@.commands(action, seen));
                both
            },
            NativeAppAction::SendPairRequest { npub, name, secret } => one_when(
                aside,
                Command::SendPairRequest { npub, name, secret },
            ),
            NativeAppAction::CancelPairInvite { npub } => one_when(
                content,
                Command::ForgetOutboundPair { npub },
            ),
            NativeAppAction::AcceptPairRequest { npub, name } => one_when(
                aside,
                Command::AcceptPairRequest { npub, name },
            ),
            NativeAppAction::DeclinePairRequest { npub } => one_when(
                content,
                Command::DeclinePairRequest { npub },
            ),
            NativeAppAction::SetOfflineOnly { enabled } => one_when(
                content,
                Command::SetOfflineOnly { enabled },
            ),
            NativeAppAction::SetDeviceName { name } => one_when(
                content,
                Command::SetDeviceName { name },
            ),
            NativeAppAction::ShareFile { path, name, mime, peer_npub } => one_when(
                aside,
                Command::ShareFile { path, name, mime, peer_npub },
            ),
            NativeAppAction::AcceptFileTransfer { transfer_id } => one_when(
                aside,
                Command::RespondFileTransfer { transfer_id, accept: true },
            ),
            NativeAppAction::DeclineFileTransfer { transfer_id } => one_when(
                aside,
                Command::RespondFileTransfer { transfer_id, accept: false },
            ),
            NativeAppAction::CancelFileTransfer { transfer_id } => one_when(
                aside,
                Command::CancelFileTransfer { transfer_id },
            ),
            NativeAppAction::ForgetFileTransfer { transfer_id } => one_when(
                content,
                Command::ForgetFileTransfer { transfer_id },
            ),
            _ => nothing(),
        }
    }

    fn has_reported(&self, count: u8) -> (known: bool)
        ensures
            known == (self@.aware_data_paths == Some(count)),
    {
        match self.aware_data_paths {
            Some(reported) => reported == count,
            None => false,
        }
    }

    /// Whether an action counts as a change of state: a plain read does not, and
    /// neither does a capability that is known already, which is reported on
    /// every launch.
    pub fn bumps(&self, action: &NativeAppAction) -> (yes: bool)
        ensures
            yes == self@.bumps_rev(*action),
    {
        match action {
            NativeAppAction::GetState => false,
            NativeAppAction::SetAwareDataPaths { count } => !self.has_reported(*count),
            _ => true,
        }
    }

    fn reduce(&mut self, action: NativeAppAction, seen: Seen) -> (commands: Vec<Command>)
        requires
            old(self)@.wf(),
        ensures
            final(self)@ == old(self)@.reduced(action, seen),
            commands@ == old(self)@.commands(action, seen),
            final(self)@.wf(),
    {
        match action {
            NativeAppAction::GetState => nothing(),
            NativeAppAction::Tick => nothing(),
            NativeAppAction::StartNode => self.start_node(seen.loop_finished),
            NativeAppAction::StopNode => self.stop_node(),
            NativeAppAction::SetBleEnabled { enabled } => {
                self.ble_enabled = enabled;
                self.node_status = if enabled {
                    "ble enabled".to_owned()
                } else {
                    "ble disabled".to_owned()
                };
                nothing()
            },
            NativeAppAction::SetWifiAwareEnabled { enabled } => {
                self.wifi_aware_enabled = enabled;
                nothing()
            },
            NativeAppAction::OpenNsite { link, holder } => self.open_nsite(
                link,
                holder,
                seen.link_recognized,
            ),
            NativeAppAction::SetCustomRelay { url } => one_when(
                true,
                Command::UpdateSettings { change: SettingChange::Relay { url } },
            ),
            NativeAppAction::SetCustomBlossom { url } => one_when(
                true,
                Command::UpdateSettings { change: SettingChange::Blossom { url } },
            ),
            NativeAppAction::SetAwareDataPaths { count } => one_when(
                !self.has_reported(count),
                Command::UpdateSettings { change: SettingChange::AwareDataPaths { count } },
            ),
            NativeAppAction::SpeedtestPeer { npub } => self.start_speedtest(npub),
            other => self.content_commands(other, seen),
        }
    }

    /// Reduces one action: changes the state, counts the revision where the
    /// state changed, and says what is to be done outside.
    ///
    /// A node's start goes on in [`AppRuntime::node_built`] where a node has to
    /// be built first. Wi-Fi Aware and BLE are switches that are only recorded:
    /// flipping them never touches the node.
    pub fn dispatch(&mut self, action: NativeAppAction, seen: Seen) -> (commands: Vec<Command>)
        requires
            old(self)@.wf(),
            old(self)@.bumps_rev(action) ==> old(self)@.rev < u64::MAX,
        ensures
            final(self)@ == old(self)@.dispatched(action, seen),
            commands@ == old(self)@.commands(action, seen),
            final(self)@.wf(),
    {
        let bumps: bool = self.bumps(&action);
        let commands: Vec<Command> = self.reduce(action, seen);
        if bumps {
            self.rev = self.rev + 1;
        }
        commands
    }

    /// Reduces an action that came as JSON and was parsed, or could not be, and
    /// then replays a start that is due. A bad action never stops the runtime:
    /// it becomes the error to show.
    pub fn dispatch_json(&mut self, parsed: Result<NativeAppAction, String>, seen: Seen) -> (commands:
        Vec<Command>)
        requires
            old(self)@.wf(),
            (parsed is Err || old(self)@.bumps_rev(parsed->Ok_0)) ==> old(self)@.rev < u64::MAX,
        ensures
            final(self)@ == old(self)@.taken(parsed, seen).after_poll(),
            commands@ == (match parsed {
                Ok(action) => old(self)@.commands(action, seen),
                Err(_) => seq![],
            }) + old(self)@.taken(parsed, seen).poll_commands(),
            final(self)@.wf(),
            !final(self)@.lifecycle.pending_start_is_due(),
    {
        let mut commands: Vec<Command> = match parsed {
            Ok(action) => self.dispatch(action, seen),
            Err(e) => {
                self.error = glue("invalid action JSON: ", e.as_str());
                self.rev = self.rev + 1;
                nothing()
            },
        };
        let mut queued: Vec<Command> = self.poll_pending_start();
        commands.append(&mut queued);
        commands
    }

    /// Replays a start that came while the previous node was draining, once
    /// that is down. The UI's regular look at the state is the clock this runs
    /// on.
    pub fn poll_pending_start(&mut self) -> (commands: Vec<Command>)
        requires
            old(self)@.wf(),
        ensures
            final(self)@ == old(self)@.after_poll(),
            commands@ == old(self)@.poll_commands(),
            final(self)@.wf(),
            !final(self)@.lifecycle.pending_start_is_due(),
    {
        match self.lifecycle.poll_pending_start() {
            Some(outcome) => {
                let commands: Vec<Command> = self.tell(outcome);
                assert(commands@ =~= old(self)@.poll_commands());
                commands
            },
            None => nothing(),
        }
    }

    /// The data directory; empty after a start that failed.
    pub fn data_dir(&self) -> (dir: &str)
        ensures
            dir@ == self@.data_dir,
    {
        self.data_dir.as_str()
    }

    /// What is known of the node and its loop task.
    pub fn lifecycle(&self) -> (lifecycle: Lifecycle)
        ensures
            lifecycle == self@.lifecycle,
    {
        self.lifecycle
    }

    /// Whether a start waits for a node to be built. Where none does any more, a
    /// node that was built is given up.
    pub fn wants_node(&self) -> (yes: bool)
        ensures
            yes == self@.lifecycle.wants_node(),
    {
        self.lifecycle.building
    }

    /// The node that a start waited for was built, from settings that report
    /// this number of data paths, or could not be. This is where the Aware pool
    /// takes on its new size.
    pub fn node_built(&mut self, reported: Option<u8>, built: Result<(), BuildError>) -> (commands:
        Vec<Command>)
        requires
            old(self)@.wf(),
            old(self)@.lifecycle.wants_node(),
        ensures
            final(self)@ == old(self)@.after_built(reported, built),
            commands@ == old(self)@.outcome_commands(
                old(self)@.lifecycle.built_outcome(built is Ok),
            ),
            final(self)@.wf(),
    {
        match built {
            Ok(_) => {
                self.aware_slots = aware_udp_slots(reported);
                let outcome: StartOutcome = self.lifecycle.node_built(true);
                self.tell(outcome)
            },
            Err(e) => {
                let reason: String = e.message();
                self.error = glue("rebuild node: ", reason.as_str());
                let outcome: StartOutcome = self.lifecycle.node_built(false);
                self.tell(outcome)
            },
        }
    }

    /// The loop task that was told to drain has finished.
    pub fn node_drained(&mut self)
        requires
            old(self)@.wf(),
        ensures
            final(self)@ == (RuntimeModel {
                lifecycle: old(self)@.lifecycle.after_drained(),
                ..old(self)@
            }),
            final(self)@.wf(),
    {
        self.lifecycle.drained();
    }

    /// The settings were written with one of them changed, or could not be.
    /// `saved` are the settings that were to be written. They take effect at
    /// the next launch, or at the next node.
    pub fn settings_saved(
        &mut self,
        change: &SettingChange,
        saved: &Settings,
        result: Result<(), String>,
    )
        requires
            old(self)@.wf(),
        ensures
            final(self)@ == old(self)@.after_saved(*change, *saved, result),
            final(self)@.wf(),
    {
        proof {
            crate::settings_store::law_urls_are_trimmed(saved@.custom_relay_url);
            crate::settings_store::law_urls_are_trimmed(saved@.custom_blossom_url);
        }
        match change {
            SettingChange::Relay { url: _ } => match result {
                Ok(_) => {
                    self.pending_relay_url = or_empty(saved.relay_url());
                },
                Err(e) => {
                    self.error = glue("Could not save the relay setting: ", e.as_str());
                },
            },
            SettingChange::Blossom { url: _ } => match result {
                Ok(_) => {
                    self.pending_blossom_url = or_empty(saved.blossom_url());
                },
                Err(e) => {
                    self.error = glue("Could not save the blob store setting: ", e.as_str());
                },
            },
            SettingChange::AwareDataPaths { count } => match result {
                Ok(_) => {
                    self.aware_data_paths = Some(*count);
                },
                Err(_) => {},
            },
        }
    }

    /// Content was wiped, or could not be.
    pub fn wiped(&mut self, what: Wipe, result: Result<(), String>)
        requires
            old(self)@.wf(),
        ensures
            final(self)@ == old(self)@.after_wiped(what, result),
            final(self)@.wf(),
    {
        if let Err(e) = result {
            self.error = match what {
                Wipe::Stores => glue("wipe failed: ", e.as_str()),
                Wipe::Cache => glue("cache wipe failed: ", e.as_str()),
            };
        }
    }

    /// A run of the speedtest has finished, with these rates or for this
    /// reason, after this many milliseconds.
    pub fn speedtest_run(&mut self, rates: Result<(u64, u64), String>, elapsed_ms: u64) -> (commands:
        Vec<Command>)
        requires
            old(self)@.wf(),
            old(self)@.speedtest.after_run(
                crate::speedtest::run_of(rates, elapsed_ms),
            ).generation <= u64::MAX,
        ensures
            final(self)@ == (RuntimeModel {
                speedtest: old(self)@.speedtest.after_run(
                    crate::speedtest::run_of(rates, elapsed_ms),
                ),
                ..old(self)@
            }),
            match final(self)@.speedtest.next_size() {
                Some(size) => commands@.len() == 1 && (commands@[0] matches Command::MeasureLink {
                    npub,
                    bytes,
                } && npub@ == final(self)@.speedtest.peer_npub && bytes == size),
                None => commands@.len() == 0,
            },
            final(self)@.wf(),
    {
        let next: Option<u64> = self.speedtest.run_finished(rates, elapsed_ms);
        let mut commands: Vec<Command> = nothing();
        if let Some(bytes) = next {
            commands.push(
                Command::MeasureLink { npub: self.speedtest.view.peer_npub.clone(), bytes },
            );
        }
        commands
    }

    /// Whether the node may be asked for its peers. Nothing answers before its
    /// packet loop is up, and asking earlier would only make failures.
    pub fn node_live(&self) -> (yes: bool)
        ensures
            yes == self@.lifecycle.node_live,
    {
        self.lifecycle.node_live
    }

    /// The peers as last reported.
    pub fn peer_views(&self) -> (peers: &Vec<PeerView>)
        ensures
            peers@ == self@.feed.peers,
    {
        &self.feed.peers
    }

    /// The regular look at the node's peers: it was not made, or gave these
    /// peers, or failed for this reason. The relay links are kept warm in any
    /// case.
    pub fn peer_tick(
        &mut self,
        query: Option<Result<Vec<PeerView>, String>>,
        circle_is_empty: bool,
    ) -> (follow_ups: Vec<FollowUp>)
        requires
            old(self)@.wf(),
        ensures
            final(self)@ == (match query {
                None => old(self)@,
                Some(Ok(peers)) => RuntimeModel {
                    feed: old(self)@.feed.after_report(peers@),
                    ..old(self)@
                },
                Some(Err(reason)) => RuntimeModel {
                    feed: old(self)@.feed.after_failure(reason@),
                    ..old(self)@
                },
            }),
            crate::action::asked(follow_ups@) == tick_follow_ups(query, circle_is_empty),
            final(self)@.wf(),
    {
        let mut follow_ups: Vec<FollowUp> = Vec::new();
        if let Some(answer) = query {
            match answer {
                Ok(peers) => {
                    self.feed.report(peers);
                    follow_ups.push(FollowUp::SetConnected { npubs: self.feed.connected_npubs() });
                    if !circle_is_empty {
                        follow_ups.push(FollowUp::RetryLibrary);
                    }
                },
                Err(reason) => {
                    self.feed.fail(reason);
                },
            }
        }
        follow_ups.push(FollowUp::Keepwarm);
        assert(crate::action::asked(follow_ups@) =~= tick_follow_ups(query, circle_is_empty));
        follow_ups
    }

    /// The snapshot that the UI reads, with what the content layer reports, if
    /// there is one, and the merged peer rows. `no_content` stands in for the
    /// content layer's snapshots where there is none.
    pub fn state<C, P>(
        &self,
        radios: RadioFlags,
        content: Option<ContentReport<C>>,
        no_content: C,
        peers: P,
    ) -> (state: AppState<C, P>)
        ensures
            state.rev == self@.rev,
            state.error@ == self@.feed.banner(self@.error),
            state.app_version@ == self@.app_version,
            state.identity@ == self@.identity,
            state.node.running == self@.lifecycle.node_running,
            state.node.status_text@ == self@.status_text(),
            state.ble.enabled == self@.ble_enabled,
            state.ble.role@ == "peripheral+central"@,
            (state.ble.scanning, state.ble.scanning_known) == crate::state::flag_of(
                radios.ble_scanning,
            ),
            (state.ble.advertising, state.ble.advertising_known) == crate::state::flag_of(
                radios.ble_advertising,
            ),
            state.ble.adapter_name@ == (if self@.lifecycle.node_running {
                "ble0"@
            } else {
                "—"@
            }),
            state.ble_peers@ == self@.feed.peers.map_values(
                |peer: PeerView| crate::peer_feed::shown(peer),
            ),
            state.ble_adverts@.len() == 0,
            state.wifi_aware.enabled == self@.wifi_aware_enabled,
            state.wifi_aware.port == (if self@.wifi_aware_enabled {
                AWARE_UDP_BASE_PORT
            } else {
                0
            }),
            state.wifi_aware.slots == self@.aware_slots,
            (state.wifi_aware.scanning, state.wifi_aware.scanning_known) == crate::state::flag_of(
                radios.aware_discovering,
            ),
            state.offline_only == (content matches Some(report) && report.offline_only),
            state.pending_relay_url@ == self@.pending_relay_url,
            state.pending_blossom_url@ == self@.pending_blossom_url,
            state.speedtest.running == self@.speedtest.running,
            state.speedtest.peer_npub@ == self@.speedtest.peer_npub,
            state.speedtest.up_mbps_bits == self@.speedtest.up_mbps_bits,
            state.speedtest.down_mbps_bits == self@.speedtest.down_mbps_bits,
            state.speedtest.bytes == self@.speedtest.bytes,
            state.speedtest.generation == self@.speedtest.generation,
            state.speedtest.error@ == self@.speedtest.error,
            state.content == (match content {
                Some(report) => report.snapshots,
                None => no_content,
            }),
            state.peers == peers,
    {
        let (scanning, scanning_known, advertising, advertising_known) = radios.ble_radio_state();
        let (discovering, discovering_known) = radios.aware_radio_state();
        let (offline_only, snapshots) = match content {
            Some(report) => (report.offline_only, report.snapshots),
            None => (false, no_content),
        };
        AppState {
            rev: self.rev,
            error: self.feed.error_with_feed_health(self.error.as_str()),
            app_version: self.app_version.clone(),
            identity: self.identity.copied(),
            node: NodeStatus {
                running: self.lifecycle.node_running,
                status_text: if self.lifecycle.stopping {
                    if self.lifecycle.start_pending {
                        "restarting (draining the previous node)".to_owned()
                    } else {
                        "stopping (draining)".to_owned()
                    }
                } else {
                    self.node_status.clone()
                },
            },
            ble: BleStatus {
                enabled: self.ble_enabled,
                role: "peripheral+central".to_owned(),
                scanning,
                scanning_known,
                advertising,
                advertising_known,
                adapter_name: if self.lifecycle.node_running {
                    "ble0".to_owned()
                } else {
                    "—".to_owned()
                },
            },
            ble_peers: self.feed.ble_peers(),
            ble_adverts: Vec::new(),
            wifi_aware: WifiAwareStatus {
                enabled: self.wifi_aware_enabled,
                port: if self.wifi_aware_enabled {
                    AWARE_UDP_BASE_PORT
                } else {
                    0
                },
                slots: self.aware_slots,
                scanning: discovering,
                scanning_known: discovering_known,
            },
            offline_only,
            pending_relay_url: self.pending_relay_url.clone(),
            pending_blossom_url: self.pending_blossom_url.clone(),
            speedtest: self.speedtest.report(),
            content: snapshots,
            peers,
        }
    }

    /// What follows a snapshot: the attempt history is written where that is
    /// due, the content layer is told who is connected, and sites that are not
    /// ready are tried again while the Circle is not empty.
    pub fn state_follow_ups(&self, circle_is_empty: bool, flush_due: bool) -> (follow_ups: Vec<
        FollowUp,
    >)
        ensures
            crate::action::asked(follow_ups@) == self@.snapshot_follow_ups(
                circle_is_empty,
                flush_due,
            ),
    {
        let mut follow_ups: Vec<FollowUp> = Vec::new();
        if self.has_attempt_store && flush_due && self.lifecycle.has_runtime {
            follow_ups.push(FollowUp::FlushAttempts);
        }
        if self.has_content {
            follow_ups.push(FollowUp::SetConnected { npubs: self.feed.connected_npubs() });
            if self.lifecycle.has_runtime && !circle_is_empty {
                follow_ups.push(FollowUp::RetryLibrary);
            }
        }
        assert(crate::action::asked(follow_ups@) =~= self@.snapshot_follow_ups(
            circle_is_empty,
            flush_due,
        ));
        follow_ups
    }

    /// The snapshot as JSON: as it was serialized, or a stand-in that says why
    /// it could not be.
    pub fn state_json(serialized: Result<String, String>) -> (json: String)
        ensures
            json@ == (match serialized {
                Ok(json) => json@,
                Err(e) => "{\"error\":\"serialize failed: "@ + e@ + "\"}"@,
            }),
    {
        match serialized {
            Ok(json) => json,
            Err(e) => glue("{\"error\":\"serialize failed: ", e.as_str()).concat("\"}"),
        }
    }

    /// The content layer and a handle on the task runtime, for serving pages
    /// without holding the runtime: both, or neither.
    pub fn gateway_context<C, H>(content: Option<C>, handle: Option<H>) -> (context: Option<(C, H)>)
        ensures
            context == (match (content, handle) {
                (Some(content), Some(handle)) => Some((content, handle)),
                _ => None,
            }),
    {
        match content {
            Some(content) => match handle {
                Some(handle) => Some((content, handle)),
                None => None,
            },
            None => None,
        }
    }
}

/// What follows a look at the node's peers.
pub open spec fn tick_follow_ups(
    query: Option<Result<Vec<PeerView>, String>>,
    circle_is_empty: bool,
) -> Seq<FollowUpModel> {
    match query {
        Some(Ok(peers)) => {
            let told = seq![
                FollowUpModel::SetConnected {
                    npubs: crate::peer_feed::connected_names(peers@),
                },
            ];
            if circle_is_empty {
                told.push(FollowUpModel::Keepwarm)
            } else {
                told.push(FollowUpModel::RetryLibrary).push(FollowUpModel::Keepwarm)
            }
        },
        _ => seq![FollowUpModel::Keepwarm],
    }
}

impl RuntimeModel {
    /// What follows a snapshot.
    pub open spec fn snapshot_follow_ups(self, circle_is_empty: bool, flush_due: bool) -> Seq<
        FollowUpModel,
    > {
        let flush = if self.has_attempt_store && flush_due && self.lifecycle.has_runtime {
            seq![FollowUpModel::FlushAttempts]
        } else {
            seq![]
        };
        let told = if self.has_content {
            seq![
                FollowUpModel::SetConnected {
                    npubs: crate::peer_feed::connected_names(self.feed.peers),
                },
            ]
        } else {
            seq![]
        };
        let retry = if self.has_content && self.lifecycle.has_runtime && !circle_is_empty {
            seq![FollowUpModel::RetryLibrary]
        } else {
            seq![]
        };
        flush + told + retry
    }
}

} // verus!
