//! What each action and each report does to the runtime and asks for, and what
//! the UI is shown of it.

use vstd::prelude::*;

use crate::action::{Command, FollowUp, FollowUpModel, NativeAppAction, Seen, Wipe};
use crate::lifecycle::Lifecycle;
use crate::node_plan::BuildError;
use crate::peer_feed::PeerView;
use crate::runtime::{AppRuntime, RuntimeModel, Startup};
use crate::settings_store::{SettingChange, Settings};
use crate::speedtest::SpeedtestModel;
use crate::startup::StartupError;
use crate::state::{AppState, ContentReport, RadioFlags};

verus! {

/// A stop of a node that runs tells it to drain and waits for that, whatever the
/// switches, the peers, the settings and the error are: the node ends by its own
/// teardown. Where no node runs and none drains, the responder's address is
/// taken back, and where one drains nothing is asked for.
pub proof fn law_a_stop_is_graceful(m: RuntimeModel, seen: Seen)
    requires
        m.wf(),
    ensures
        m.lifecycle.node_running ==> m.commands(NativeAppAction::StopNode, seen) == seq![
            Command::SignalShutdown,
            Command::WatchDrain,
        ],
        !m.lifecycle.node_running && !m.lifecycle.stopping ==> m.commands(
            NativeAppAction::StopNode,
            seen,
        ) == seq![Command::RetractResponder],
        m.lifecycle.stopping ==> m.commands(NativeAppAction::StopNode, seen).len() == 0,
        ({
            let after = m.dispatched(NativeAppAction::StopNode, seen);
            &&& after.node_status == "stopped"@
            &&& after.lifecycle.stopping == (m.lifecycle.node_running || m.lifecycle.stopping)
            &&& !after.lifecycle.node_running && !after.lifecycle.start_pending
                && !after.lifecycle.building
            &&& after.lifecycle.has_runtime == m.lifecycle.has_runtime
            &&& after.lifecycle.node_held == m.lifecycle.node_held
            &&& after.feed.peers.len() == 0 && after.feed.consecutive_failures == 0
                && after.feed.last_error.len() == 0
            &&& after == (RuntimeModel {
                rev: m.rev + 1,
                lifecycle: after.lifecycle,
                feed: after.feed,
                node_status: after.node_status,
                ..m
            })
        }),
{
    let commands = m.commands(NativeAppAction::StopNode, seen);
    if m.lifecycle.node_running {
        assert(commands =~= seq![Command::SignalShutdown, Command::WatchDrain]);
    } else if !m.lifecycle.stopping {
        assert(commands =~= seq![Command::RetractResponder]);
    }
}

/// What a start asks for and tells, in every sound state. A node that runs, is
/// being built or drains calls for nothing. One at hand is moved into a loop
/// task. Where there is none, one is asked for with the Wi-Fi Aware switch as it
/// stands; a loop task that ended on its own is given up first. Nothing but the
/// node, its status and, where there is no runtime, the error changes.
pub proof fn law_a_start_asks_for_what_is_missing(m: RuntimeModel, seen: Seen)
    requires
        m.wf(),
    ensures
        ({
            let l = m.lifecycle;
            let commands = m.commands(NativeAppAction::StartNode, seen);
            let after = m.dispatched(NativeAppAction::StartNode, seen);
            let build = Command::BuildNode { wifi_aware: m.wifi_aware_enabled };
            &&& after == (RuntimeModel {
                rev: m.rev + 1,
                lifecycle: l.after_start(seen.loop_finished),
                node_status: after.node_status,
                error: after.error,
                ..m
            })
            &&& l.node_running && !seen.loop_finished ==> commands.len() == 0 && after.node_status
                == m.node_status && after.error == m.error
            &&& l.node_running && seen.loop_finished ==> commands == seq![
                Command::ForgetLoop,
                build,
            ] && after.node_status == m.node_status && after.error == m.error
            &&& l.stopping ==> commands.len() == 0 && after.node_status
                == "waiting for the previous node to stop"@ && after.error == m.error
            &&& l.building ==> commands.len() == 0 && after.node_status == m.node_status
                && after.error == m.error
            &&& l.node_held && l.has_runtime ==> commands == seq![Command::SpawnLoop]
                && after.node_status == "running"@ && after.error == m.error
            &&& l.node_held && !l.has_runtime ==> commands == seq![Command::DropNode]
                && after.error == "no runtime"@ && after.node_status == m.node_status
            &&& !l.node_running && !l.stopping && !l.building && !l.node_held ==> commands == seq![
                build,
            ] && after.node_status == m.node_status && after.error == m.error
        }),
{
    let l = m.lifecycle;
    let build = Command::BuildNode { wifi_aware: m.wifi_aware_enabled };
    let commands = m.commands(NativeAppAction::StartNode, seen);
    if l.node_running && seen.loop_finished {
        assert(commands =~= seq![Command::ForgetLoop, build]);
    } else if l.node_held {
        assert(commands =~= seq![m.outcome_commands(l.start_outcome(seen.loop_finished))[0]]);
    } else if !l.node_running && !l.stopping && !l.building {
        assert(commands =~= seq![build]);
    }
}

/// A node that was built for a start runs where there is a runtime, with the
/// pool of its own settings, and is given up where there is none. One that could
/// not be built is told with its reason, and the pool stays what it was.
pub proof fn law_a_built_node_runs(m: RuntimeModel, reported: Option<u8>, e: BuildError)
    requires
        m.wf(),
        m.lifecycle.building,
    ensures
        ({
            let built = m.after_built(reported, Ok(()));
            let failed = m.after_built(reported, Err(e));
            let commands = m.outcome_commands(m.lifecycle.built_outcome(true));
            &&& m.lifecycle.has_runtime ==> commands == seq![Command::SpawnLoop]
                && built.node_status == "running"@ && built.error == m.error
                && built.lifecycle.node_running
            &&& !m.lifecycle.has_runtime ==> commands == seq![Command::DropNode]
                && built.node_status == m.node_status && built.error == "no runtime"@
                && !built.lifecycle.node_running
            &&& built == (RuntimeModel {
                aware_slots: crate::lanes::slots_for(reported),
                lifecycle: m.lifecycle.after_built(true),
                node_status: built.node_status,
                error: built.error,
                ..m
            })
            &&& m.outcome_commands(m.lifecycle.built_outcome(false)).len() == 0
            &&& failed == (RuntimeModel {
                error: "rebuild node: "@ + crate::node_plan::build_error_text(e),
                lifecycle: Lifecycle { building: false, ..m.lifecycle },
                ..m
            })
        }),
{
}

/// A look at the state starts nothing but a start that waited for a drain that
/// is over, and that asks for a node with the Wi-Fi Aware switch as it stands.
pub proof fn law_a_poll_replays_only_a_due_start(m: RuntimeModel)
    requires
        m.wf(),
    ensures
        m.lifecycle.start_pending && !m.lifecycle.stopping ==> {
            &&& m.poll_commands() == seq![
                Command::BuildNode { wifi_aware: m.wifi_aware_enabled },
            ]
            &&& m.after_poll() == (RuntimeModel {
                lifecycle: Lifecycle { start_pending: false, building: true, ..m.lifecycle },
                ..m
            })
        },
        !(m.lifecycle.start_pending && !m.lifecycle.stopping) ==> m.poll_commands().len() == 0
            && m.after_poll() == m,
{
    if m.lifecycle.start_pending && !m.lifecycle.stopping {
        assert(m.poll_commands() =~= seq![
            Command::BuildNode { wifi_aware: m.wifi_aware_enabled },
        ]);
    }
}

/// An action for the content layer is handed on to it with the action's own
/// names, links and answers, once, in every runtime that has a content layer and
/// something to run its work on: accepting accepts and declining declines. A
/// peer that is removed is also told.
pub proof fn law_a_content_action_is_handed_on(m: RuntimeModel, action: NativeAppAction, seen: Seen)
    requires
        m.has_content,
        m.lifecycle.has_runtime,
        seen.link_recognized,
    ensures
        ({
            let commands = m.commands(action, seen);
            match action {
                NativeAppAction::OpenNsite { link, holder } => commands == seq![
                    Command::OpenSite { link, holder },
                ],
                NativeAppAction::ImportNsite { dir } => commands == seq![
                    Command::ImportDir { dir },
                ],
                NativeAppAction::AddToLibrary { link } => commands == seq![
                    Command::AddToLibrary { link },
                ],
                NativeAppAction::RemoveFromLibrary { link } => commands == seq![
                    Command::RemoveFromLibrary { link },
                ],
                NativeAppAction::ForgetNsite { link } => commands == seq![
                    Command::ForgetSite { link },
                ],
                NativeAppAction::CheckNsiteUpdates => commands == seq![Command::CheckUpdates],
                NativeAppAction::SearchNsites { query } => commands == seq![
                    Command::DiscoverFromCircle,
                ],
                NativeAppAction::WipeStores => commands == seq![
                    Command::Wipe { what: Wipe::Stores },
                ],
                NativeAppAction::WipeCache => commands == seq![
                    Command::Wipe { what: Wipe::Cache },
                ],
                NativeAppAction::AddToCircle { npub, name } => commands == seq![
                    Command::AddToCircle { npub, name },
                ],
                NativeAppAction::RemoveFromCircle { npub } => commands == seq![
                    Command::RemoveFromCircle { npub },
                    Command::SendUnpair { npub },
                ],
                NativeAppAction::SendPairRequest { npub, name, secret } => commands == seq![
                    Command::SendPairRequest { npub, name, secret },
                ],
                NativeAppAction::CancelPairInvite { npub } => commands == seq![
                    Command::ForgetOutboundPair { npub },
                ],
                NativeAppAction::AcceptPairRequest { npub, name } => commands == seq![
                    Command::AcceptPairRequest { npub, name },
                ],
                NativeAppAction::DeclinePairRequest { npub } => commands == seq![
                    Command::DeclinePairRequest { npub },
                ],
                NativeAppAction::SetOfflineOnly { enabled } => commands == seq![
                    Command::SetOfflineOnly { enabled },
                ],
                NativeAppAction::SetDeviceName { name } => commands == seq![
                    Command::SetDeviceName { name },
                ],
                NativeAppAction::ShareFile { path, name, mime, peer_npub } => commands == seq![
                    Command::ShareFile { path, name, mime, peer_npub },
                ],
                NativeAppAction::AcceptFileTransfer { transfer_id } => commands == seq![
                    Command::RespondFileTransfer { transfer_id, accept: true },
                ],
                NativeAppAction::DeclineFileTransfer { transfer_id } => commands == seq![
                    Command::RespondFileTransfer { transfer_id, accept: false },
                ],
                NativeAppAction::CancelFileTransfer { transfer_id } => commands == seq![
                    Command::CancelFileTransfer { transfer_id },
                ],
                NativeAppAction::ForgetFileTransfer { transfer_id } => commands == seq![
                    Command::ForgetFileTransfer { transfer_id },
                ],
                _ => true,
            }
        }),
{
    if let NativeAppAction::RemoveFromCircle { npub } = action {
        assert(m.commands(action, seen) =~= seq![
            Command::RemoveFromCircle { npub },
            Command::SendUnpair { npub },
        ]);
    }
}

/// What an action asks of the content layer does not depend on anything else in
/// the runtime: two that both have a content layer and something to run its work
/// on ask for the same.
pub proof fn law_content_work_does_not_depend_on_the_rest(
    a: RuntimeModel,
    b: RuntimeModel,
    action: NativeAppAction,
    seen: Seen,
)
    requires
        a.has_content && a.lifecycle.has_runtime,
        b.has_content && b.lifecycle.has_runtime,
        crate::runtime::is_content_action(action) || action is OpenNsite,
    ensures
        a.commands(action, seen) == b.commands(action, seen),
{
}

/// What the actions do that are not handed on to the content layer, and that
/// those which are change nothing but the revision. A read changes nothing. The
/// switches change themselves, BLE's also the status. A speedtest begins where
/// none runs and there is a runtime, and asks for a first run of 256 KiB.
pub proof fn law_an_action_changes_its_own_part(
    m: RuntimeModel,
    action: NativeAppAction,
    seen: Seen,
)
    requires
        action != NativeAppAction::StartNode,
        action != NativeAppAction::StopNode,
    ensures
        ({
            let after = m.dispatched(action, seen);
            let commands = m.commands(action, seen);
            let counted = RuntimeModel { rev: m.rev + 1, ..m };
            match action {
                NativeAppAction::GetState => after == m && commands.len() == 0,
                NativeAppAction::Tick => after == counted && commands.len() == 0,
                NativeAppAction::SetBleEnabled { enabled } => commands.len() == 0 && after == (
                RuntimeModel {
                    ble_enabled: enabled,
                    node_status: if enabled {
                        "ble enabled"@
                    } else {
                        "ble disabled"@
                    },
                    ..counted
                }),
                NativeAppAction::SetWifiAwareEnabled { enabled } => commands.len() == 0 && after
                    == (RuntimeModel { wifi_aware_enabled: enabled, ..counted }),
                NativeAppAction::OpenNsite { link, holder } => after == (if seen.link_recognized {
                    counted
                } else {
                    RuntimeModel { error: "unrecognized nsite link: "@ + link@, ..counted }
                }),
                NativeAppAction::SetAwareDataPaths { count } => after == (
                if m.aware_data_paths == Some(count) {
                    m
                } else {
                    counted
                }),
                NativeAppAction::SpeedtestPeer { npub } => {
                    let begins = m.lifecycle.has_runtime && !m.speedtest.running;
                    &&& begins ==> commands == seq![Command::MeasureLink { npub, bytes: 262_144 }]
                    &&& begins ==> after == (RuntimeModel {
                        speedtest: SpeedtestModel {
                            running: true,
                            peer_npub: npub@,
                            error: seq![],
                            size: 262_144,
                            any_ok: false,
                            ..m.speedtest
                        },
                        ..counted
                    })
                    &&& !begins ==> commands.len() == 0 && after == counted
                },
                _ => after == counted,
            }
        }),
{
}

/// What could not be done is told with its reason and changes nothing else; what
/// was done is not told. A capability that could not be saved is not told
/// either.
pub proof fn law_what_could_not_be_done_is_told(
    m: RuntimeModel,
    written: Settings,
    url: String,
    count: u8,
    e: String,
)
    ensures
        m.after_wiped(Wipe::Stores, Err(e)) == (RuntimeModel {
            error: "wipe failed: "@ + e@,
            ..m
        }),
        m.after_wiped(Wipe::Cache, Err(e)) == (RuntimeModel {
            error: "cache wipe failed: "@ + e@,
            ..m
        }),
        m.after_wiped(Wipe::Stores, Ok(())) == m,
        m.after_wiped(Wipe::Cache, Ok(())) == m,
        m.after_saved(SettingChange::Relay { url }, written, Err(e)) == (RuntimeModel {
            error: "Could not save the relay setting: "@ + e@,
            ..m
        }),
        m.after_saved(SettingChange::Blossom { url }, written, Err(e)) == (RuntimeModel {
            error: "Could not save the blob store setting: "@ + e@,
            ..m
        }),
        m.after_saved(SettingChange::AwareDataPaths { count }, written, Err(e)) == m,
        m.after_saved(SettingChange::AwareDataPaths { count }, written, Ok(())) == (RuntimeModel {
            aware_data_paths: Some(count),
            ..m
        }),
        m.after_saved(SettingChange::Relay { url }, written, Ok(())) == (RuntimeModel {
            pending_relay_url: crate::runtime::url_text(
                crate::settings_store::text_of(written.custom_relay_url),
            ),
            ..m
        }),
        m.after_saved(SettingChange::Blossom { url }, written, Ok(())) == (RuntimeModel {
            pending_blossom_url: crate::runtime::url_text(
                crate::settings_store::text_of(written.custom_blossom_url),
            ),
            ..m
        }),
{
}

/// A setting that stands for a URL is shown as that URL, and one that stands for
/// none is shown empty.
pub proof fn law_a_url_is_shown_or_nothing_is(v: Option<Seq<char>>)
    ensures
        crate::settings_store::url_of(v) matches Some(url) ==> crate::runtime::url_text(v) == url,
        crate::settings_store::url_of(v) is None ==> crate::runtime::url_text(v).len() == 0,
{
}

/// A launch shows what it was handed: the version, the identity, the servers and
/// the pool of its settings and the warning, with everything off, a node at hand
/// and nothing measured or seen. One that failed has its reason and no node.
pub proof fn law_a_launch_starts_from_its_settings(
    dir: Seq<char>,
    version: Seq<char>,
    startup: Startup,
    e: StartupError,
)
    ensures
        ({
            let m = RuntimeModel::ready(dir, version, startup);
            &&& m.app_version == version && m.data_dir == dir && m.rev == 0
            &&& m.error == startup.mesh_warning@
            &&& m.identity == startup.identity@
            &&& m.pending_relay_url == crate::runtime::url_text(
                crate::settings_store::text_of(startup.settings.custom_relay_url),
            )
            &&& m.pending_blossom_url == crate::runtime::url_text(
                crate::settings_store::text_of(startup.settings.custom_blossom_url),
            )
            &&& m.aware_data_paths == startup.settings.aware_data_paths
            &&& m.aware_slots == crate::lanes::slots_for(startup.settings.aware_data_paths)
            &&& !m.ble_enabled && !m.wifi_aware_enabled
            &&& m.node_status == "fips node constructed (not started)"@
            &&& m.has_content && m.has_attempt_store
            &&& m.lifecycle.has_runtime && m.lifecycle.node_held && !m.lifecycle.node_running
                && !m.lifecycle.stopping && !m.lifecycle.start_pending && !m.lifecycle.building
            &&& !m.speedtest.running && m.speedtest.generation == 0 && m.speedtest.bytes == 0
            &&& m.feed.peers.len() == 0 && m.feed.consecutive_failures == 0
        }),
        ({
            let m = RuntimeModel::unable(version, e);
            &&& m.app_version == version && m.data_dir.len() == 0 && m.rev == 0
            &&& m.error == crate::startup::startup_error_text(e)
            &&& m.node_status == "error"@
            &&& m.identity.own_npub.len() == 0 && m.identity.own_pubkey_hex.len() == 0
                && m.identity.fips_addr.len() == 0 && m.identity.fips_mtu == 0
            &&& m.pending_relay_url.len() == 0 && m.pending_blossom_url.len() == 0
            &&& m.aware_data_paths is None && m.aware_slots == 4
            &&& !m.ble_enabled && !m.wifi_aware_enabled
            &&& !m.has_content && !m.has_attempt_store
            &&& !m.lifecycle.has_runtime && !m.lifecycle.node_held && !m.lifecycle.node_running
                && !m.lifecycle.stopping && !m.lifecycle.start_pending && !m.lifecycle.building
            &&& !m.speedtest.running && m.speedtest.generation == 0 && m.speedtest.bytes == 0
            &&& m.feed.peers.len() == 0 && m.feed.consecutive_failures == 0
        }),
{
}

/// While a node drains the status says so, and says that a start waits where one
/// does; at any other time it is what was last told.
pub proof fn law_a_drain_is_shown(m: RuntimeModel)
    ensures
        !m.lifecycle.stopping ==> m.status_text() == m.node_status,
        m.lifecycle.stopping && m.lifecycle.start_pending ==> m.status_text()
            == "restarting (draining the previous node)"@,
        m.lifecycle.stopping && !m.lifecycle.start_pending ==> m.status_text()
            == "stopping (draining)"@,
{
}

/// The snapshot shows the runtime as it is: the revision, the node, the radios
/// as they said, one row for each peer last reported with that peer's address,
/// name and connected flag, the switches, the bound slots, the saved servers and
/// the speedtest's figures, and hands the content layer's part on.
pub proof fn law_the_snapshot_shows_the_runtime<C, P>(
    rt: &AppRuntime,
    radios: RadioFlags,
    content: Option<ContentReport<C>>,
    no_content: C,
    peers: P,
    s: AppState<C, P>,
    i: int,
)
    requires
        call_ensures(AppRuntime::state::<C, P>, (rt, radios, content, no_content, peers), s),
    ensures
        s.rev == rt@.rev,
        s.app_version@ == rt@.app_version,
        s.identity.own_npub@ == rt@.identity.own_npub,
        s.identity.own_pubkey_hex@ == rt@.identity.own_pubkey_hex,
        s.identity.fips_addr@ == rt@.identity.fips_addr,
        s.identity.fips_mtu == rt@.identity.fips_mtu,
        rt@.feed.consecutive_failures < 3 ==> s.error@ == rt@.error,
        rt@.feed.consecutive_failures >= 3 ==> s.error@.len() > 0 && rt@.error.is_prefix_of(
            s.error@,
        ),
        s.node.running == rt@.lifecycle.node_running,
        !rt@.lifecycle.stopping ==> s.node.status_text@ == rt@.node_status,
        rt@.lifecycle.stopping ==> s.node.status_text@ == (if rt@.lifecycle.start_pending {
            "restarting (draining the previous node)"@
        } else {
            "stopping (draining)"@
        }),
        s.ble.enabled == rt@.ble_enabled,
        s.ble.role@ == "peripheral+central"@,
        s.ble.scanning == (radios.ble_scanning == Some(true)),
        s.ble.scanning_known == radios.ble_scanning is Some,
        s.ble.advertising == (radios.ble_advertising == Some(true)),
        s.ble.advertising_known == radios.ble_advertising is Some,
        s.ble.adapter_name@ == (if rt@.lifecycle.node_running {
            "ble0"@
        } else {
            "—"@
        }),
        s.ble_peers@.len() == rt@.feed.peers.len(),
        0 <= i < s.ble_peers@.len() ==> {
            &&& s.ble_peers@[i].connected <==> rt@.feed.peers[i].connected
            &&& s.ble_peers@[i].npub == rt@.feed.peers[i].npub
            &&& s.ble_peers@[i].node_addr_hex == rt@.feed.peers[i].node_addr_hex
            &&& s.ble_peers@[i].psm == 0
            &&& s.ble_peers@[i].rssi is None
        },
        s.ble_adverts@.len() == 0,
        s.wifi_aware.enabled == rt@.wifi_aware_enabled,
        rt@.wifi_aware_enabled ==> s.wifi_aware.port == 4872,
        !rt@.wifi_aware_enabled ==> s.wifi_aware.port == 0,
        s.wifi_aware.slots == rt@.aware_slots,
        s.wifi_aware.scanning == (radios.aware_discovering == Some(true)),
        s.wifi_aware.scanning_known == radios.aware_discovering is Some,
        s.pending_relay_url@ == rt@.pending_relay_url,
        s.pending_blossom_url@ == rt@.pending_blossom_url,
        s.speedtest.running == rt@.speedtest.running,
        s.speedtest.peer_npub@ == rt@.speedtest.peer_npub,
        s.speedtest.up_mbps_bits == rt@.speedtest.up_mbps_bits,
        s.speedtest.down_mbps_bits == rt@.speedtest.down_mbps_bits,
        s.speedtest.bytes == rt@.speedtest.bytes,
        s.speedtest.generation == rt@.speedtest.generation,
        s.speedtest.error@ == rt@.speedtest.error,
        content matches Some(report) ==> s.offline_only == report.offline_only && s.content
            == report.snapshots,
        content is None ==> !s.offline_only && s.content == no_content,
        s.peers == peers,
{
    let feed = rt@.feed;
    let note = crate::peer_feed::feed_note(feed.consecutive_failures as nat, feed.last_error);
    reveal_strlit("; ");
    crate::text::law_a_number_reads_back(feed.consecutive_failures as nat);
    assert(note.len() > 0);
    if feed.consecutive_failures >= 3 {
        assert(s.error@.subrange(0, rt@.error.len() as int) =~= rt@.error);
    }
}

/// What follows a look at the node's peers. Where it gave peers, the content
/// layer is told who of them is connected under a name, and sites are tried
/// again while the Circle is not empty. In any case, and last, the relay links
/// are kept warm.
pub proof fn law_a_look_at_the_peers_is_followed_up(
    peers: Vec<PeerView>,
    reason: String,
    circle_is_empty: bool,
)
    ensures
        ({
            let told = FollowUpModel::SetConnected {
                npubs: crate::peer_feed::connected_names(peers@),
            };
            let after = crate::runtime::tick_follow_ups(Some(Ok(peers)), circle_is_empty);
            &&& circle_is_empty ==> after == seq![told, FollowUpModel::Keepwarm]
            &&& !circle_is_empty ==> after == seq![
                told,
                FollowUpModel::RetryLibrary,
                FollowUpModel::Keepwarm,
            ]
        }),
        crate::runtime::tick_follow_ups(Some(Err(reason)), circle_is_empty) == seq![
            FollowUpModel::Keepwarm,
        ],
        crate::runtime::tick_follow_ups(None, circle_is_empty) == seq![FollowUpModel::Keepwarm],
{
    let told = FollowUpModel::SetConnected { npubs: crate::peer_feed::connected_names(peers@) };
    let after = crate::runtime::tick_follow_ups(Some(Ok(peers)), circle_is_empty);
    if circle_is_empty {
        assert(after =~= seq![told, FollowUpModel::Keepwarm]);
    } else {
        assert(after =~= seq![told, FollowUpModel::RetryLibrary, FollowUpModel::Keepwarm]);
    }
}

/// What follows a snapshot. In a sound runtime with a content layer it is told
/// who is connected; the history is written first where that is due, and sites
/// are tried again, last, while the Circle is not empty. Without a content layer
/// nothing follows.
pub proof fn law_a_snapshot_is_followed_up(
    m: RuntimeModel,
    circle_is_empty: bool,
    flush_due: bool,
)
    requires
        m.wf(),
    ensures
        ({
            let after = m.snapshot_follow_ups(circle_is_empty, flush_due);
            let told = FollowUpModel::SetConnected {
                npubs: crate::peer_feed::connected_names(m.feed.peers),
            };
            &&& !m.has_content ==> after.len() == 0
            &&& m.has_content && !flush_due && circle_is_empty ==> after == seq![told]
            &&& m.has_content && flush_due && circle_is_empty ==> after == seq![
                FollowUpModel::FlushAttempts,
                told,
            ]
            &&& m.has_content && !flush_due && !circle_is_empty ==> after == seq![
                told,
                FollowUpModel::RetryLibrary,
            ]
            &&& m.has_content && flush_due && !circle_is_empty ==> after == seq![
                FollowUpModel::FlushAttempts,
                told,
                FollowUpModel::RetryLibrary,
            ]
        }),
{
    let after = m.snapshot_follow_ups(circle_is_empty, flush_due);
    let told = FollowUpModel::SetConnected {
        npubs: crate::peer_feed::connected_names(m.feed.peers),
    };
    if m.has_content && flush_due && !circle_is_empty {
        assert(after =~= seq![FollowUpModel::FlushAttempts, told, FollowUpModel::RetryLibrary]);
    } else if m.has_content && flush_due {
        assert(after =~= seq![FollowUpModel::FlushAttempts, told]);
    } else if m.has_content && !circle_is_empty {
        assert(after =~= seq![told, FollowUpModel::RetryLibrary]);
    } else if m.has_content {
        assert(after =~= seq![told]);
    }
}

/// A follow-up asks for what it is named after.
pub proof fn law_a_follow_up_asks_for_its_name(npubs: Vec<String>)
    ensures
        FollowUp::FlushAttempts@ == FollowUpModel::FlushAttempts,
        (FollowUp::SetConnected { npubs })@ == (FollowUpModel::SetConnected { npubs: npubs@ }),
        FollowUp::RetryLibrary@ == FollowUpModel::RetryLibrary,
        FollowUp::Keepwarm@ == FollowUpModel::Keepwarm,
{
}

/// The snapshot's JSON is what was serialized, untouched, or says why it could
/// not be.
pub proof fn law_the_json_is_what_was_serialized(text: String, json: String)
    ensures
        call_ensures(AppRuntime::state_json, (Ok::<String, String>(text),), json) ==> json@
            == text@,
        call_ensures(AppRuntime::state_json, (Err::<String, String>(text),), json) ==> json@
            == "{\"error\":\"serialize failed: "@ + text@ + "\"}"@,
{
}

/// The gateway gets the content layer and the handle that were given, and only
/// where both were.
pub proof fn law_the_gateway_gets_both_or_neither<C, H>(
    content: Option<C>,
    handle: Option<H>,
    context: Option<(C, H)>,
)
    requires
        call_ensures(AppRuntime::gateway_context::<C, H>, (content, handle), context),
    ensures
        context is Some <==> content is Some && handle is Some,
        context matches Some(both) ==> Some(both.0) == content && Some(both.1) == handle,
{
}

/// The node is asked for its peers only while it runs, and a node that was built
/// is wanted only while a start waits for it.
pub proof fn law_the_node_is_asked_while_it_runs(rt: &AppRuntime, yes: bool)
    requires
        rt@.wf(),
    ensures
        call_ensures(AppRuntime::node_live, (rt,), yes) ==> yes == rt@.lifecycle.node_running,
        call_ensures(AppRuntime::wants_node, (rt,), yes) ==> yes == rt@.lifecycle.building,
{
}

} // verus!
