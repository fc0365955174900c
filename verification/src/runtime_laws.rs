//! What holds of the runtime as a whole, over any action and any history.

use vstd::prelude::*;

use crate::action::{Command, NativeAppAction, Seen, Wipe};
use crate::lifecycle::{LifecycleEvent, StartOutcome, World};
use crate::node_plan::BuildError;
use crate::peer_feed::{PeerFeedModel, PeerView};
use crate::runtime::{RuntimeModel, Startup};
use crate::settings_store::{
    Codec, Disk, SettingChange, Settings, SettingsModel, SettingsRead,
};
use crate::speedtest::RunModel;
use crate::startup::StartupError;

verus! {

/// Whether a command builds, starts, stops or gives up a node.
pub open spec fn is_node_command(command: Command) -> bool {
    match command {
        Command::BuildNode { wifi_aware } => true,
        Command::SpawnLoop => true,
        Command::DropNode => true,
        Command::ForgetLoop => true,
        Command::SignalShutdown => true,
        Command::WatchDrain => true,
        Command::RetractResponder => true,
        _ => false,
    }
}

/// The revision counts the actions that change something: one for each, none
/// for a plain read or for a capability that is already known. An action that
/// is not counted changes nothing at all and asks for nothing.
pub proof fn law_the_revision_counts_changes(
    m: RuntimeModel,
    action: NativeAppAction,
    seen: Seen,
)
    ensures
        m.dispatched(action, seen).rev == m.rev + (if m.bumps_rev(action) {
            1int
        } else {
            0
        }),
        !m.bumps_rev(action) ==> m.dispatched(action, seen) == m && m.commands(action, seen)
            == Seq::<Command>::empty(),
        !m.bumps_rev(action) <==> (action == NativeAppAction::GetState || (
        action matches NativeAppAction::SetAwareDataPaths { count } && m.aware_data_paths == Some(
            count,
        ))),
{
}

/// Only starting and stopping touch the node. No other action, the BLE and
/// Wi-Fi Aware switches among them, changes what is known of it or asks for
/// anything to be done to it, so none can drop an active link.
pub proof fn law_only_start_and_stop_touch_the_node(
    m: RuntimeModel,
    action: NativeAppAction,
    seen: Seen,
)
    requires
        action != NativeAppAction::StartNode,
        action != NativeAppAction::StopNode,
    ensures
        m.dispatched(action, seen).lifecycle == m.lifecycle,
        m.dispatched(action, seen).aware_slots == m.aware_slots,
        m.dispatched(action, seen).feed == m.feed,
        forall|i: int|
            0 <= i < m.commands(action, seen).len() ==> !is_node_command(
                #[trigger] m.commands(action, seen)[i],
            ),
{
}

/// A node is built or started only where none runs and none is draining.
pub proof fn law_no_second_node_is_asked_for(m: RuntimeModel, loop_finished: bool, i: int)
    requires
        m.wf(),
        0 <= i < m.start_commands(loop_finished).len(),
        m.start_commands(loop_finished)[i] == Command::SpawnLoop
            || m.start_commands(loop_finished)[i] is BuildNode,
    ensures
        !m.lifecycle.settled(loop_finished).node_running,
        !m.lifecycle.stopping,
{
}

/// The size of the Aware pool is what the node at hand has bound: a capability
/// that is reported and saved does not change it, and the next node that is
/// built, or the next launch, does.
pub proof fn law_a_report_resizes_only_the_next_node(
    m: RuntimeModel,
    count: u8,
    seen: Seen,
    settings: Settings,
    result: Result<(), String>,
    dir: Seq<char>,
    version: Seq<char>,
    startup: Startup,
)
    requires
        startup.settings == crate::settings_store::changed(
            settings,
            (SettingChange::AwareDataPaths { count }),
        ),
    ensures
        ({
            let action = NativeAppAction::SetAwareDataPaths { count };
            let change = SettingChange::AwareDataPaths { count };
            let reported = m.dispatched(action, seen).after_saved(
                change,
                startup.settings,
                result,
            );
            &&& reported.aware_slots == m.aware_slots
            &&& startup.settings.aware_data_paths == Some(count)
            &&& reported.after_built(startup.settings.aware_data_paths, Ok(())).aware_slots
                == crate::lanes::slots_for(Some(count))
            &&& RuntimeModel::ready(dir, version, startup).aware_slots == crate::lanes::slots_for(
                Some(count),
            )
            &&& RuntimeModel::ready(dir, version, startup).aware_data_paths == Some(count)
        }),
{
}

/// The slots that the radio is told of are the slots that the node has bound,
/// at a launch and after every node that is built: the plan of that node has a
/// transport for each of them, besides the LAN/AP one.
pub proof fn law_the_slots_told_are_the_slots_bound(
    m: RuntimeModel,
    reported: Option<u8>,
    dir: Seq<char>,
    version: Seq<char>,
    startup: Startup,
    android: bool,
)
    ensures
        ({
            let launched = RuntimeModel::ready(dir, version, startup);
            let rebuilt = m.after_built(reported, Ok(()));
            &&& crate::startup::steps_of_a_start(startup.settings, android)[0]
                == crate::startup::StartupStepModel::BuildNode {
                wifi_aware: false,
                aware_slots: launched.aware_slots,
            }
            &&& crate::node_plan::udp_instances(launched.aware_slots).len() == 1
                + launched.aware_slots
            &&& rebuilt.aware_slots == crate::lanes::slots_for(reported)
            &&& crate::node_plan::udp_instances(rebuilt.aware_slots).len() == 1
                + rebuilt.aware_slots
        }),
{
}

/// A relay that is saved is shown as saved, trimmed, and is the relay after the
/// next launch; the blob store's setting stays what it was. A relay that could
/// not be saved is not shown.
pub proof fn law_a_saved_relay_is_shown(
    m: RuntimeModel,
    settings: Settings,
    url: String,
    reason: String,
    dir: Seq<char>,
    version: Seq<char>,
    startup: Startup,
)
    requires
        startup.settings == crate::settings_store::changed(
            settings,
            (SettingChange::Relay { url }),
        ),
    ensures
        ({
            let change = SettingChange::Relay { url };
            let written = startup.settings;
            let saved = m.after_saved(change, written, Ok(()));
            let failed = m.after_saved(change, written, Err(reason));
            let next = RuntimeModel::ready(dir, version, startup);
            &&& saved.pending_relay_url == crate::runtime::url_text(Some(url@))
            &&& saved.pending_blossom_url == m.pending_blossom_url
            &&& failed.pending_relay_url == m.pending_relay_url
            &&& saved.error == m.error
            &&& failed.error == "Could not save the relay setting: "@ + reason@
            &&& next.pending_relay_url == saved.pending_relay_url
            &&& next.pending_blossom_url == crate::runtime::url_text(
                settings@.custom_blossom_url,
            )
        }),
{
}

/// The same of the blob store.
pub proof fn law_a_saved_blob_store_is_shown(
    m: RuntimeModel,
    settings: Settings,
    url: String,
    reason: String,
    dir: Seq<char>,
    version: Seq<char>,
    startup: Startup,
)
    requires
        startup.settings == crate::settings_store::changed(
            settings,
            (SettingChange::Blossom { url }),
        ),
    ensures
        ({
            let change = SettingChange::Blossom { url };
            let written = startup.settings;
            let saved = m.after_saved(change, written, Ok(()));
            let failed = m.after_saved(change, written, Err(reason));
            let next = RuntimeModel::ready(dir, version, startup);
            &&& saved.pending_blossom_url == crate::runtime::url_text(Some(url@))
            &&& saved.pending_relay_url == m.pending_relay_url
            &&& failed.pending_blossom_url == m.pending_blossom_url
            &&& saved.error == m.error
            &&& failed.error == "Could not save the blob store setting: "@ + reason@
            &&& next.pending_blossom_url == saved.pending_blossom_url
            &&& next.pending_relay_url == crate::runtime::url_text(settings@.custom_relay_url)
        }),
{
}

/// The setting that an action changes, if it changes one.
pub open spec fn change_of(action: NativeAppAction) -> Option<SettingChange> {
    match action {
        NativeAppAction::SetCustomRelay { url } => Some(SettingChange::Relay { url }),
        NativeAppAction::SetCustomBlossom { url } => Some(SettingChange::Blossom { url }),
        NativeAppAction::SetAwareDataPaths { count } => Some(
            SettingChange::AwareDataPaths { count },
        ),
        _ => None,
    }
}

/// An action that changes a setting asks for that alone. Where the settings that
/// are on disk are written back with it, what is on disk is what was there with
/// only that setting replaced, as it was given; the copy that is shown follows,
/// and nothing else changes but the revision.
pub proof fn law_a_setting_action_replaces_its_own_setting(
    m: RuntimeModel,
    action: NativeAppAction,
    seen: Seen,
    codec: Codec,
    disk: Disk,
    dir: Seq<char>,
    before: Settings,
)
    requires
        change_of(action) is Some,
        m.bumps_rev(action),
        codec.round_trips(),
        before@ == crate::settings_store::settings_of(codec.read(disk, dir)),
    ensures
        ({
            let change = change_of(action)->0;
            let written = crate::settings_store::changed(before, change);
            let on_disk = codec.read(codec.saved(disk, dir, written), dir);
            let after = m.dispatched(action, seen).after_saved(change, written, Ok(()));
            &&& m.commands(action, seen) == seq![Command::UpdateSettings { change }]
            &&& on_disk == SettingsRead::Parsed(written)
            &&& match change {
                SettingChange::Relay { url } => {
                    &&& written@ == (SettingsModel { custom_relay_url: Some(url@), ..before@ })
                    &&& after == (RuntimeModel {
                        pending_relay_url: crate::runtime::url_text(Some(url@)),
                        rev: m.rev + 1,
                        ..m
                    })
                },
                SettingChange::Blossom { url } => {
                    &&& written@ == (SettingsModel { custom_blossom_url: Some(url@), ..before@ })
                    &&& after == (RuntimeModel {
                        pending_blossom_url: crate::runtime::url_text(Some(url@)),
                        rev: m.rev + 1,
                        ..m
                    })
                },
                SettingChange::AwareDataPaths { count } => {
                    &&& written@ == (SettingsModel { aware_data_paths: Some(count), ..before@ })
                    &&& after == (RuntimeModel {
                        aware_data_paths: Some(count),
                        rev: m.rev + 1,
                        ..m
                    })
                },
            }
        }),
{
    let change = change_of(action)->0;
    let written = crate::settings_store::changed(before, change);
    crate::settings_store::law_saved_settings_are_loaded(codec, disk, dir, before, written);
    assert(m.commands(action, seen) =~= seq![Command::UpdateSettings { change }]);
}

/// The Wi-Fi Aware switch changes itself and the revision and asks for nothing.
/// A capability that comes in changes at most the revision before it is saved.
pub proof fn law_the_aware_actions_leave_the_rest_alone(
    m: RuntimeModel,
    enabled: bool,
    count: u8,
    seen: Seen,
)
    ensures
        m.dispatched(NativeAppAction::SetWifiAwareEnabled { enabled }, seen) == (RuntimeModel {
            wifi_aware_enabled: enabled,
            rev: m.rev + 1,
            ..m
        }),
        m.commands(NativeAppAction::SetWifiAwareEnabled { enabled }, seen)
            == Seq::<Command>::empty(),
        m.dispatched(NativeAppAction::SetAwareDataPaths { count }, seen) == (RuntimeModel {
            rev: m.dispatched(NativeAppAction::SetAwareDataPaths { count }, seen).rev,
            ..m
        }),
{
}

/// An action that came as JSON does what the action itself does. One that could
/// not be parsed changes the error and the revision and nothing else, and no
/// action clears an error: it stays until another takes its place.
pub proof fn law_an_error_stays_until_the_next(
    m: RuntimeModel,
    reason: String,
    action: NativeAppAction,
    seen: Seen,
)
    ensures
        m.taken(Ok(action), seen) == m.dispatched(action, seen),
        m.taken(Err(reason), seen) == (RuntimeModel {
            error: "invalid action JSON: "@ + reason@,
            rev: m.rev + 1,
            ..m
        }),
        ({
            let after = m.dispatched(action, seen);
            ||| after.error == m.error
            ||| (action matches NativeAppAction::OpenNsite { link, holder }
                && !seen.link_recognized && after.error == "unrecognized nsite link: "@ + link@)
            ||| (action == NativeAppAction::StartNode && !m.lifecycle.has_runtime
                && after.error == "no runtime"@)
        }),
{
}

/// Without a content layer nothing is asked of one.
pub proof fn law_no_content_no_work(m: RuntimeModel, action: NativeAppAction, seen: Seen)
    requires
        !m.has_content,
        crate::runtime::is_content_action(action) || action is OpenNsite,
    ensures
        m.commands(action, seen) == Seq::<Command>::empty(),
{
    assert(m.commands(action, seen) =~= Seq::<Command>::empty());
}

/// A link that is no site's reaches nobody, and opening it is an error.
pub proof fn law_a_bad_link_goes_nowhere(m: RuntimeModel, action: NativeAppAction, seen: Seen)
    requires
        !seen.link_recognized,
        action is OpenNsite || action is AddToLibrary || action is RemoveFromLibrary
            || action is ForgetNsite,
    ensures
        m.commands(action, seen) == Seq::<Command>::empty(),
        action matches NativeAppAction::OpenNsite { link, holder } ==> m.dispatched(
            action,
            seen,
        ).error == "unrecognized nsite link: "@ + link@,
{
}

/// A stop forgets the peers and the failures of the feed: nothing of a node
/// that is on its way out is shown.
pub proof fn law_a_stop_clears_the_peers(m: RuntimeModel, seen: Seen)
    ensures
        ({
            let after = m.dispatched(NativeAppAction::StopNode, seen);
            &&& after.feed.peers == Seq::<PeerView>::empty()
            &&& after.feed.banner(after.error) == m.error
            &&& !after.lifecycle.node_running
        }),
{
}

/// A stop while a node is draining asks for nothing: the drain goes on, and the
/// responder keeps its address to the end of it.
pub proof fn law_a_stop_during_a_drain_asks_for_nothing(m: RuntimeModel, seen: Seen)
    requires
        m.wf(),
        m.lifecycle.stopping,
    ensures
        m.commands(NativeAppAction::StopNode, seen) == Seq::<Command>::empty(),
        m.dispatched(NativeAppAction::StopNode, seen).lifecycle.stopping,
{
    assert(m.stop_commands() =~= Seq::<Command>::empty());
}

/// A launch with nothing to warn of shows no error, the identity it was handed,
/// BLE off and no peers, so two launches with one identity show the same.
pub proof fn law_a_clean_launch_shows_its_identity(
    dir: Seq<char>,
    version: Seq<char>,
    first: Startup,
    second: Startup,
)
    requires
        first.mesh_warning@.len() == 0,
        first.identity@ == second.identity@,
    ensures
        ({
            let m = RuntimeModel::ready(dir, version, first);
            &&& m.feed.banner(m.error).len() == 0
            &&& m.identity == first.identity@
            &&& !m.ble_enabled
            &&& m.feed.peers == Seq::<PeerView>::empty()
            &&& RuntimeModel::ready(dir, version, second).identity == m.identity
        }),
{
}

/// A launch that failed shows why, and has no node, no content and nothing to
/// run either on.
pub proof fn law_a_failed_launch_shows_why(version: Seq<char>, e: StartupError)
    ensures
        ({
            let m = RuntimeModel::unable(version, e);
            &&& m.feed.banner(m.error) == crate::startup::startup_error_text(e)
            &&& accounted(m) == 0
            &&& !m.can_spawn()
        }),
{
}

/// A launch, whether it succeeded or failed, leaves the runtime sound, with no
/// node up: a session begins here.
pub proof fn law_a_launch_begins_a_session(
    dir: Seq<char>,
    version: Seq<char>,
    startup: Startup,
    e: StartupError,
)
    ensures
        (Session { runtime: RuntimeModel::ready(dir, version, startup), nodes_up: 0 }).wf(),
        (Session { runtime: RuntimeModel::unable(version, e), nodes_up: 0 }).wf(),
{
    crate::settings_store::law_urls_are_trimmed(startup.settings@.custom_relay_url);
    crate::settings_store::law_urls_are_trimmed(startup.settings@.custom_blossom_url);
}

/// How many nodes the runtime accounts for.
pub open spec fn accounted(m: RuntimeModel) -> int {
    crate::lifecycle::accounted_for(m.lifecycle)
}

/// Anything that happens to the runtime.
pub enum RuntimeEvent {
    Action { action: NativeAppAction, seen: Seen },
    BadAction { reason: Seq<char> },
    Poll,
    Built { reported: Option<u8>, built: Result<(), BuildError> },
    Drained,
    Saved { change: SettingChange, saved: Settings, result: Result<(), String> },
    Wiped { what: Wipe, result: Result<(), String> },
    Run { run: RunModel },
    Feed { feed: PeerFeedModel },
}

/// The state after an event.
pub open spec fn next(m: RuntimeModel, event: RuntimeEvent) -> RuntimeModel {
    match event {
        RuntimeEvent::Action { action, seen } => m.dispatched(action, seen),
        RuntimeEvent::BadAction { reason } => RuntimeModel {
            error: "invalid action JSON: "@ + reason,
            rev: m.rev + 1,
            ..m
        },
        RuntimeEvent::Poll => m.after_poll(),
        RuntimeEvent::Built { reported, built } => m.after_built(reported, built),
        RuntimeEvent::Drained => RuntimeModel { lifecycle: m.lifecycle.after_drained(), ..m },
        RuntimeEvent::Saved { change, saved, result } => m.after_saved(change, saved, result),
        RuntimeEvent::Wiped { what, result } => m.after_wiped(what, result),
        RuntimeEvent::Run { run } => RuntimeModel { speedtest: m.speedtest.after_run(run), ..m },
        RuntimeEvent::Feed { feed } => RuntimeModel { feed, ..m },
    }
}

/// The commands that an event gives, as far as they can concern the node.
pub open spec fn node_commands(m: RuntimeModel, event: RuntimeEvent) -> Seq<Command> {
    match event {
        RuntimeEvent::Action { action, seen } => m.commands(action, seen),
        RuntimeEvent::Poll => m.poll_commands(),
        RuntimeEvent::Built { reported, built } => m.outcome_commands(
            m.lifecycle.built_outcome(built is Ok),
        ),
        _ => seq![],
    }
}

/// A build is reported only where a start waits for it, and a drain only where
/// one is under way.
pub open spec fn possible(m: RuntimeModel, event: RuntimeEvent) -> bool {
    match event {
        RuntimeEvent::Built { reported, built } => m.lifecycle.wants_node(),
        RuntimeEvent::Drained => m.lifecycle.stopping,
        _ => true,
    }
}

/// How many nodes an event starts.
pub open spec fn spawned(m: RuntimeModel, event: RuntimeEvent) -> int {
    if node_commands(m, event).contains(Command::SpawnLoop) {
        1
    } else {
        0
    }
}

/// How many nodes an event shows to be down.
pub open spec fn finished(m: RuntimeModel, event: RuntimeEvent) -> int {
    let down = match event {
        RuntimeEvent::Action { action, seen } => action == NativeAppAction::StartNode
            && m.lifecycle.exited(seen.loop_finished),
        RuntimeEvent::Drained => true,
        _ => false,
    };
    if down {
        1
    } else {
        0
    }
}

/// The runtime and the number of nodes that it has had started and that have
/// not been seen to finish.
pub struct Session {
    pub runtime: RuntimeModel,
    pub nodes_up: int,
}

impl Session {
    pub open spec fn wf(self) -> bool {
        self.runtime.wf() && self.nodes_up == accounted(self.runtime)
    }

    pub open spec fn next(self, event: RuntimeEvent) -> Session {
        Session {
            runtime: next(self.runtime, event),
            nodes_up: self.nodes_up - finished(self.runtime, event) + spawned(
                self.runtime,
                event,
            ),
        }
    }

    pub open spec fn after(self, events: Seq<RuntimeEvent>) -> Session
        decreases events.len(),
    {
        if events.len() == 0 {
            self
        } else {
            self.after(events.drop_last()).next(events.last())
        }
    }

    pub open spec fn possible_history(self, events: Seq<RuntimeEvent>) -> bool {
        forall|i: int|
            0 <= i < events.len() ==> #[trigger] possible(
                self.after(events.take(i)).runtime,
                events[i],
            )
    }
}

proof fn lemma_start_commands(m: RuntimeModel, loop_finished: bool)
    ensures
        m.start_commands(loop_finished).contains(Command::SpawnLoop) <==> m.lifecycle.start_outcome(
            loop_finished,
        ) == StartOutcome::SpawnLoop,
{
    let commands = m.start_commands(loop_finished);
    if m.lifecycle.start_outcome(loop_finished) == StartOutcome::SpawnLoop {
        assert(commands.last() == Command::SpawnLoop);
    }
}

/// The node's part in an event of the runtime, if it has one.
pub open spec fn node_event(event: RuntimeEvent) -> Option<LifecycleEvent> {
    match event {
        RuntimeEvent::Action { action, seen } => match action {
            NativeAppAction::StartNode => Some(
                LifecycleEvent::Start { loop_finished: seen.loop_finished },
            ),
            NativeAppAction::StopNode => Some(LifecycleEvent::Stop),
            _ => None,
        },
        RuntimeEvent::Poll => Some(LifecycleEvent::Poll),
        RuntimeEvent::Built { reported, built } => Some(
            LifecycleEvent::NodeBuilt { ok: built is Ok },
        ),
        RuntimeEvent::Drained => Some(LifecycleEvent::Drained),
        _ => None,
    }
}

/// What an event of the runtime does to the node is what its part in it does,
/// and the loop tasks that the runtime asks for are the ones that are counted.
pub proof fn law_the_runtime_follows_the_lifecycle(s: Session, event: RuntimeEvent)
    ensures
        match node_event(event) {
            Some(e) => {
                let w = World { lifecycle: s.runtime.lifecycle, nodes_up: s.nodes_up };
                &&& w.possible(e) == possible(s.runtime, event)
                &&& w.next(e).lifecycle == s.next(event).runtime.lifecycle
                &&& w.next(e).nodes_up == s.next(event).nodes_up
                &&& w.spawns(e) == spawned(s.runtime, event)
                &&& w.finishes(e) == finished(s.runtime, event)
            },
            None => {
                &&& s.next(event).runtime.lifecycle == s.runtime.lifecycle
                &&& s.next(event).nodes_up == s.nodes_up
                &&& spawned(s.runtime, event) == 0
                &&& finished(s.runtime, event) == 0
            },
        },
{
    match event {
        RuntimeEvent::Action { action, seen } => {
            if action == NativeAppAction::StartNode {
                lemma_start_commands(s.runtime, seen.loop_finished);
            } else if action != NativeAppAction::StopNode {
                law_only_start_and_stop_touch_the_node(s.runtime, action, seen);
            }
        },
        RuntimeEvent::Poll => {
            lemma_start_commands(s.runtime, false);
        },
        RuntimeEvent::Built { reported, built } => {
            let commands = node_commands(s.runtime, event);
            if s.runtime.lifecycle.built_outcome(built is Ok) == StartOutcome::SpawnLoop {
                assert(commands[0] == Command::SpawnLoop);
            }
        },
        _ => {},
    }
}

proof fn lemma_event_keeps_wf(m: RuntimeModel, event: RuntimeEvent)
    requires
        m.wf(),
        possible(m, event),
    ensures
        next(m, event).wf(),
{
    crate::speedtest::lemma_run_sizes();
    match event {
        RuntimeEvent::Saved { change, saved, result } => {
            crate::settings_store::law_urls_are_trimmed(saved@.custom_relay_url);
            crate::settings_store::law_urls_are_trimmed(saved@.custom_blossom_url);
        },
        RuntimeEvent::Run { run } => {
            crate::speedtest::lemma_a_run_keeps_the_payloads(m.speedtest, run);
        },
        _ => {},
    }
}

/// One event of any kind keeps the runtime sound, and a node is started only
/// where no other is up.
pub proof fn law_an_event_keeps_the_runtime_sound(s: Session, event: RuntimeEvent)
    requires
        s.wf(),
        possible(s.runtime, event),
    ensures
        s.next(event).wf(),
        spawned(s.runtime, event) == 1 ==> s.nodes_up - finished(s.runtime, event) == 0,
{
    lemma_event_keeps_wf(s.runtime, event);
    law_the_runtime_follows_the_lifecycle(s, event);
    if let Some(e) = node_event(event) {
        crate::lifecycle::law_a_node_starts_alone(
            World { lifecycle: s.runtime.lifecycle, nodes_up: s.nodes_up },
            e,
        );
    }
}

/// Whatever the UI asks for and whatever is reported back, in whatever order:
/// the runtime stays sound, and there are never two nodes up at once.
pub proof fn law_never_two_nodes_in_a_session(s: Session, events: Seq<RuntimeEvent>)
    requires
        s.wf(),
        s.possible_history(events),
    ensures
        s.after(events).wf(),
        0 <= s.after(events).nodes_up <= 1,
    decreases events.len(),
{
    if events.len() > 0 {
        let before = events.drop_last();
        assert(before =~= events.take(events.len() - 1));
        assert forall|i: int| 0 <= i < before.len() implies #[trigger] possible(
            s.after(before.take(i)).runtime,
            before[i],
        ) by {
            assert(before.take(i) =~= events.take(i));
        }
        law_never_two_nodes_in_a_session(s, before);
        law_an_event_keeps_the_runtime_sound(s.after(before), events.last());
    }
}

/// After a stop no node runs until the UI asks for one again: whatever else it
/// asks for and whatever is reported back, in whatever order, brings none up.
pub proof fn law_a_stop_holds_until_the_next_start(
    s: Session,
    seen: Seen,
    events: Seq<RuntimeEvent>,
)
    requires
        s.wf(),
        s.next(
            (RuntimeEvent::Action { action: NativeAppAction::StopNode, seen }),
        ).possible_history(events),
        forall|i: int|
            0 <= i < events.len() ==> !(#[trigger] events[i] matches RuntimeEvent::Action {
                action,
                seen,
            } && action == NativeAppAction::StartNode),
    ensures
        crate::lifecycle::is_off(
            s.next(
                (RuntimeEvent::Action { action: NativeAppAction::StopNode, seen }),
            ).after(events).runtime.lifecycle,
        ),
    decreases events.len(),
{
    let stopped = s.next(RuntimeEvent::Action { action: NativeAppAction::StopNode, seen });
    if events.len() > 0 {
        let before = events.drop_last();
        assert(before =~= events.take(events.len() - 1));
        assert forall|i: int| 0 <= i < before.len() implies #[trigger] possible(
            stopped.after(before.take(i)).runtime,
            before[i],
        ) by {
            assert(before.take(i) =~= events.take(i));
        }
        assert forall|i: int| 0 <= i < before.len() implies !(
        #[trigger] before[i] matches RuntimeEvent::Action { action, seen } && action
            == NativeAppAction::StartNode) by {
            assert(before[i] == events[i]);
        }
        law_a_stop_holds_until_the_next_start(s, seen, before);
        assert(possible(stopped.after(before).runtime, events.last()));
        law_the_runtime_follows_the_lifecycle(stopped.after(before), events.last());
        assert(events[events.len() - 1] == events.last());
    }
}

} // verus!
