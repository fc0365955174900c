use myco_core::action::{Command, FollowUp, NativeAppAction, Seen, Wipe};
use myco_core::lanes::AWARE_UDP_DEFAULT_SLOTS;
use myco_core::node_plan::BuildError;
use myco_core::node_task::{drain_steps, DrainStep};
use myco_core::peer_feed::{PeerView, PEER_FEED_FAILURES_BEFORE_ERROR};
use myco_core::runtime::{configured_aware_slots, AppRuntime, Startup};
use myco_core::settings_store::{load, SettingChange, Settings, SettingsRead};
use myco_core::startup::StartupError;
use myco_core::state::{AppState, ContentReport, IdentityView, RadioFlags};

const QUIET: RadioFlags =
    RadioFlags { ble_scanning: None, ble_advertising: None, aware_discovering: None };

const NOTHING_SEEN: Seen = Seen { loop_finished: false, link_recognized: false };

fn identity() -> IdentityView {
    IdentityView {
        own_npub: "npub1me".to_string(),
        own_pubkey_hex: "ab".repeat(32),
        fips_addr: "npub1me.fips".to_string(),
        fips_mtu: 1203,
    }
}

/// A shell around the runtime with everything in memory: the settings file, the
/// node and its loop task.
struct Shell {
    core: AppRuntime,
    settings: Option<Settings>,
    disk_fails: bool,
    build_fails: bool,
    nodes_up: i32,
    draining: bool,
    aborted: bool,
    loop_finished: bool,
    asked: Vec<Command>,
}

impl Shell {
    fn launch_with(settings: Option<Settings>, version: &str) -> Shell {
        let read = Shell::read(&settings);
        Shell {
            core: AppRuntime::new(
                "/data",
                version,
                Ok(Startup {
                    settings: read,
                    identity: identity(),
                    mesh_warning: String::new(),
                }),
            ),
            settings,
            disk_fails: false,
            build_fails: false,
            nodes_up: 0,
            draining: false,
            aborted: false,
            loop_finished: false,
            asked: Vec::new(),
        }
    }

    fn launch(version: &str) -> Shell {
        Shell::launch_with(None, version)
    }

    fn read(settings: &Option<Settings>) -> Settings {
        load(match settings {
            Some(settings) => SettingsRead::Parsed(settings.clone()),
            None => SettingsRead::Unreadable,
        })
    }

    fn load(&self) -> Settings {
        Shell::read(&self.settings)
    }

    fn seen(&self, link_recognized: bool) -> Seen {
        Seen { loop_finished: self.loop_finished, link_recognized }
    }

    fn dispatch(&mut self, action: NativeAppAction) {
        let seen = self.seen(true);
        let commands = self.core.dispatch(action, seen);
        self.perform(commands);
    }

    fn perform(&mut self, commands: Vec<Command>) {
        for command in commands {
            self.asked.push(command.clone());
            match command {
                Command::UpdateSettings { change } => {
                    let written = change.apply(self.load());
                    let result = if self.disk_fails {
                        Err("disk full".to_string())
                    } else {
                        self.settings = Some(written.clone());
                        Ok(())
                    };
                    self.core.settings_saved(&change, &written, result);
                }
                Command::BuildNode { .. } => {
                    assert!(self.core.wants_node());
                    let settings = self.load();
                    let built = if self.build_fails {
                        Err(BuildError::Node("refused".to_string()))
                    } else {
                        Ok(())
                    };
                    let more = self.core.node_built(settings.aware_data_paths, built);
                    self.perform(more);
                }
                Command::SpawnLoop => {
                    assert_eq!(self.nodes_up, 0, "two nodes at once");
                    self.nodes_up += 1;
                    self.loop_finished = false;
                }
                Command::ForgetLoop => {
                    assert!(self.loop_finished);
                    self.nodes_up -= 1;
                }
                Command::WatchDrain => self.draining = true,
                _ => {}
            }
        }
    }

    /// The loop task that was told to drain finishes, or is aborted.
    fn finish_drain(&mut self, timed_out: bool) {
        assert!(self.draining);
        for step in drain_steps(timed_out) {
            match step {
                DrainStep::AbortLoop => self.aborted = true,
                DrainStep::RetractResponder => {}
                DrainStep::AllowStart => {
                    self.draining = false;
                    self.nodes_up -= 1;
                    self.core.node_drained();
                }
            }
        }
    }

    fn state(&self) -> AppState<(), ()> {
        self.core.state(QUIET, Some(ContentReport { offline_only: false, snapshots: () }), (), ())
    }

    fn poll(&mut self) {
        let commands = self.core.poll_pending_start();
        self.perform(commands);
    }

    fn state_json(&mut self) -> String {
        self.poll();
        let state = self.state();
        let mut aware = serde_json::Map::new();
        aware.insert("slots".to_string(), serde_json::Value::from(state.wifi_aware.slots));
        let mut map = serde_json::Map::new();
        map.insert("rev".to_string(), serde_json::Value::from(state.rev));
        map.insert("error".to_string(), serde_json::Value::from(state.error.as_str()));
        map.insert("wifiAware".to_string(), serde_json::Value::Object(aware));
        let json = serde_json::to_string(&serde_json::Value::Object(map));
        AppRuntime::state_json(json.map_err(|e| e.to_string()))
    }

    fn dispatch_json(&mut self, action_json: &str) -> String {
        let parsed = parse(action_json);
        let seen = self.seen(true);
        let commands = self.core.dispatch_json(parsed, seen);
        self.perform(commands);
        self.state_json()
    }
}

/// The few actions that the tests send as JSON.
fn parse(action_json: &str) -> Result<NativeAppAction, String> {
    let value: serde_json::Value =
        serde_json::from_str(action_json).map_err(|e| e.to_string())?;
    let text = |key: &str| value[key].as_str().unwrap_or_default().to_string();
    match value["type"].as_str() {
        Some("set_aware_data_paths") => Ok(NativeAppAction::SetAwareDataPaths {
            count: value["count"].as_u64().unwrap_or_default() as u8,
        }),
        Some("set_custom_relay") => Ok(NativeAppAction::SetCustomRelay { url: text("url") }),
        Some("set_custom_blossom") => Ok(NativeAppAction::SetCustomBlossom { url: text("url") }),
        _ => Err("unknown variant".to_string()),
    }
}

/// The capability has to survive a restart, because the pool is bound before it
/// can be read again.
#[test]
fn a_reported_capability_persists_for_the_next_node_start() {
    let mut rt = Shell::launch("test");

    let state = rt.dispatch_json(r#"{"type":"set_aware_data_paths","count":8}"#);
    assert!(
        !state.contains("invalid action JSON"),
        "the app's tag must deserialize: {state}"
    );
    assert_eq!(
        rt.load().aware_data_paths,
        Some(8),
        "the count has to be on disk before the next node build reads it"
    );
    // Deliberately not resized under the running node.
    assert!(
        state.contains(&format!("\"slots\":{AWARE_UDP_DEFAULT_SLOTS}")),
        "a report must not resize the running pool: {state}"
    );

    // The next launch is where it lands.
    let mut relaunched = Shell::launch_with(rt.settings.clone(), "test");
    assert!(
        relaunched.state_json().contains("\"slots\":8"),
        "the persisted count must size the pool at the next node start"
    );
}

#[test]
fn a_reported_capability_sizes_the_next_node_of_the_session() {
    let mut rt = Shell::launch("test");
    rt.dispatch(NativeAppAction::StartNode);
    rt.dispatch(NativeAppAction::SetAwareDataPaths { count: 2 });
    assert_eq!(rt.state().wifi_aware.slots, 4);
    assert_eq!(configured_aware_slots(&rt.load()), 2);
    rt.dispatch(NativeAppAction::StopNode);
    rt.finish_drain(false);
    assert_eq!(rt.state().wifi_aware.slots, 4);
    rt.dispatch(NativeAppAction::StartNode);
    assert!(rt.state().node.running);
    assert_eq!(rt.state().wifi_aware.slots, 2);
}

#[test]
fn a_capability_that_has_not_moved_is_no_change() {
    let mut rt = Shell::launch_with(
        Some(Settings { aware_data_paths: Some(8), ..Default::default() }),
        "test",
    );
    rt.dispatch(NativeAppAction::SetAwareDataPaths { count: 8 });
    assert_eq!(rt.state().rev, 0);
    assert!(rt.asked.is_empty());
    rt.dispatch(NativeAppAction::SetAwareDataPaths { count: 3 });
    assert_eq!(rt.state().rev, 1);
    assert_eq!(rt.asked.len(), 1);
}

#[test]
fn two_launches_with_one_identity_show_the_same() {
    let first = Shell::launch("0.0.1").state();
    let second = Shell::launch("0.0.1").state();
    assert_eq!(first.error, "");
    assert_eq!(first.identity.own_npub, second.identity.own_npub);
}

#[test]
fn an_action_says_whether_it_is_a_change() {
    let rt = Shell::launch_with(
        Some(Settings { aware_data_paths: Some(8), ..Default::default() }),
        "test",
    );
    assert!(!rt.core.bumps(&NativeAppAction::GetState));
    assert!(!rt.core.bumps(&NativeAppAction::SetAwareDataPaths { count: 8 }));
    assert!(rt.core.bumps(&NativeAppAction::SetAwareDataPaths { count: 7 }));
    assert!(rt.core.bumps(&NativeAppAction::Tick));
}

#[test]
fn a_capability_that_could_not_be_saved_is_tried_again() {
    let mut rt = Shell::launch("test");
    rt.disk_fails = true;
    rt.dispatch(NativeAppAction::SetAwareDataPaths { count: 8 });
    assert_eq!(rt.state().error, "", "the user can do nothing about it");
    assert_eq!(rt.state().rev, 1);
    rt.disk_fails = false;
    rt.dispatch(NativeAppAction::SetAwareDataPaths { count: 8 });
    assert_eq!(rt.state().rev, 2);
    assert_eq!(rt.load().aware_data_paths, Some(8));
}

/// The action tag the app sends has to be the one the reducer accepts, and the
/// settings share a file.
#[test]
fn saving_a_custom_relay_persists_it() {
    let mut rt = Shell::launch("test");

    let state = rt.dispatch_json(r#"{"type":"set_custom_relay","url":"ws://10.0.0.5:4869"}"#);
    assert!(
        !state.contains("invalid action JSON"),
        "the app's tag must deserialize: {state}"
    );
    assert_eq!(
        rt.load().relay_url().as_deref(),
        Some("ws://10.0.0.5:4869"),
        "the URL must reach settings.json"
    );

    // Saving one must not clear the other.
    rt.dispatch_json(r#"{"type":"set_custom_blossom","url":"http://10.0.0.5:24242"}"#);
    let both = rt.load();
    assert_eq!(both.relay_url().as_deref(), Some("ws://10.0.0.5:4869"));
    assert_eq!(both.blossom_url().as_deref(), Some("http://10.0.0.5:24242"));

    rt.dispatch_json(r#"{"type":"set_custom_relay","url":""}"#);
    let after = rt.load();
    assert!(after.relay_url().is_none());
    assert_eq!(
        after.blossom_url().as_deref(),
        Some("http://10.0.0.5:24242"),
        "clearing the relay must leave the blob store alone"
    );
}

#[test]
fn a_saved_server_is_shown_trimmed_and_after_a_restart() {
    let mut rt = Shell::launch("test");
    rt.dispatch(NativeAppAction::SetCustomRelay { url: "  ws://a  ".to_string() });
    rt.dispatch(NativeAppAction::SetCustomBlossom { url: "http://b\n".to_string() });
    assert_eq!(rt.state().pending_relay_url, "ws://a");
    assert_eq!(rt.state().pending_blossom_url, "http://b");
    let next = Shell::launch_with(rt.settings.clone(), "test");
    assert_eq!(next.state().pending_relay_url, "ws://a");
    assert_eq!(next.state().pending_blossom_url, "http://b");
    rt.dispatch(NativeAppAction::SetCustomRelay { url: String::new() });
    assert_eq!(rt.state().pending_relay_url, "");
    assert_eq!(rt.state().pending_blossom_url, "http://b");
}

#[test]
fn a_server_that_could_not_be_saved_is_an_error() {
    let mut rt = Shell::launch("test");
    rt.disk_fails = true;
    rt.dispatch(NativeAppAction::SetCustomRelay { url: "ws://a".to_string() });
    assert_eq!(rt.state().error, "Could not save the relay setting: disk full");
    assert_eq!(rt.state().pending_relay_url, "");
    rt.dispatch(NativeAppAction::SetCustomBlossom { url: "http://b".to_string() });
    assert_eq!(rt.state().error, "Could not save the blob store setting: disk full");
    assert_eq!(rt.state().pending_blossom_url, "");
    assert_eq!(rt.state().rev, 2);
}

#[test]
fn a_launch_that_succeeded_shows_its_identity_and_nothing_else() {
    let rt = Shell::launch("0.0.1");
    let s1 = rt.state();
    assert!(s1.error.is_empty(), "startup error: {}", s1.error);
    assert_eq!(s1.app_version, "0.0.1");
    assert_eq!(s1.identity.own_npub, "npub1me");
    assert_eq!(s1.identity.own_pubkey_hex.len(), 64);
    assert!(s1.identity.fips_addr.ends_with(".fips"));
    assert_eq!(s1.identity.fips_mtu, 1203);
    assert!(!s1.ble.enabled, "BLE off until SetBleEnabled");
    assert!(s1.ble_peers.is_empty());
    assert!(s1.ble_adverts.is_empty());
    assert!(!s1.node.running);
    assert_eq!(s1.node.status_text, "fips node constructed (not started)");
    assert_eq!(s1.ble.role, "peripheral+central");
    assert_eq!(s1.ble.adapter_name, "\u{2014}");
    assert_eq!(rt.core.data_dir(), "/data");
}

#[test]
fn a_launch_warns_of_lost_ports() {
    let core = AppRuntime::new(
        "/data",
        "1",
        Ok(Startup {
            settings: Settings::default(),
            identity: identity(),
            mesh_warning: "relay port 4870 unavailable".to_string(),
        }),
    );
    assert_eq!(core.state::<(), ()>(QUIET, None, (), ()).error, "relay port 4870 unavailable");
}

#[test]
fn a_launch_that_failed_shows_why() {
    let mut core =
        AppRuntime::new("/data", "0.0.1", Err(StartupError::Runtime("no threads".to_string())));
    let state = core.state::<u8, u8>(QUIET, None, 7, 9);
    assert_eq!(state.error, "tokio runtime: no threads");
    assert_eq!(state.node.status_text, "error");
    assert_eq!(state.wifi_aware.slots, 4);
    assert_eq!(state.identity.own_npub, "");
    assert_eq!(state.content, 7, "the stand-in for the missing content layer");
    assert_eq!(state.peers, 9);
    assert!(!state.offline_only);
    assert_eq!(core.data_dir(), "");

    // There is no node: one is asked for, and then there is nothing to run it.
    let commands = core.dispatch(NativeAppAction::StartNode, NOTHING_SEEN);
    assert!(matches!(commands[..], [Command::BuildNode { wifi_aware: false }]));
    let commands = core.node_built(None, Ok(()));
    assert!(matches!(commands[..], [Command::DropNode]));
    let state = core.state::<u8, u8>(QUIET, None, 7, 9);
    assert_eq!(state.error, "no runtime");
    assert!(!state.node.running);

    // Nothing is asked of a content layer that is not there.
    let seen = Seen { loop_finished: false, link_recognized: true };
    assert!(core
        .dispatch(NativeAppAction::OpenNsite { link: "l".to_string(), holder: None }, seen)
        .is_empty());
    assert!(core.dispatch(NativeAppAction::WipeStores, seen).is_empty());
    assert!(core
        .dispatch(NativeAppAction::RemoveFromCircle { npub: "n".to_string() }, seen)
        .is_empty());
    assert!(core
        .dispatch(NativeAppAction::SpeedtestPeer { npub: "n".to_string() }, seen)
        .is_empty());
    assert!(!core.state::<u8, u8>(QUIET, None, 7, 9).speedtest.running);
    assert!(core.state_follow_ups(false, true).is_empty());
    // A stop with nothing running takes the responder's address back.
    let commands = core.dispatch(NativeAppAction::StopNode, NOTHING_SEEN);
    assert!(matches!(commands[..], [Command::RetractResponder]));
    assert_eq!(core.state::<u8, u8>(QUIET, None, 7, 9).rev, 6);
}

#[test]
fn reducer_rev_and_bad_action() {
    let mut rt = Shell::launch("0.0.1");

    let rev0 = rt.state().rev;
    rt.dispatch(NativeAppAction::GetState);
    assert_eq!(rt.state().rev, rev0, "GetState must not bump rev");
    rt.dispatch(NativeAppAction::Tick);
    assert_eq!(rt.state().rev, rev0 + 1, "Tick must bump rev");

    let json = rt.dispatch_json("not json");
    assert!(json.contains("invalid action JSON"));
    assert_eq!(rt.state().rev, rev0 + 2);
}

#[test]
fn set_ble_enabled_toggles_state() {
    let mut rt = Shell::launch("0.0.1");

    assert!(!rt.state().ble.enabled);
    rt.dispatch(NativeAppAction::SetBleEnabled { enabled: true });
    assert!(
        rt.state().ble.enabled,
        "SetBleEnabled true should flip the switch"
    );
    assert_eq!(rt.state().node.status_text, "ble enabled");
    rt.dispatch(NativeAppAction::SetBleEnabled { enabled: false });
    assert!(!rt.state().ble.enabled);
    assert_eq!(rt.state().node.status_text, "ble disabled");
}

#[test]
fn the_aware_switch_never_touches_the_node() {
    let mut rt = Shell::launch("0.0.1");
    rt.dispatch(NativeAppAction::StartNode);
    let before = rt.core.lifecycle();
    let asked = rt.asked.len();
    assert_eq!(rt.state().wifi_aware.port, 0);
    rt.dispatch(NativeAppAction::SetWifiAwareEnabled { enabled: true });
    assert!(rt.state().wifi_aware.enabled);
    assert_eq!(rt.state().wifi_aware.port, 4872);
    rt.dispatch(NativeAppAction::SetBleEnabled { enabled: true });
    assert_eq!(rt.core.lifecycle(), before);
    assert_eq!(rt.asked.len(), asked);
    // The next node is built with it.
    rt.dispatch(NativeAppAction::StopNode);
    rt.finish_drain(false);
    rt.dispatch(NativeAppAction::StartNode);
    assert!(rt.asked.iter().any(|c| matches!(c, Command::BuildNode { wifi_aware: true })));
}

#[test]
fn node_starts_and_stops_on_host() {
    let mut rt = Shell::launch("0.0.1");

    rt.dispatch(NativeAppAction::StartNode);
    let s = rt.state();
    assert!(s.error.is_empty(), "start error: {}", s.error);
    assert!(s.node.running, "node should be running after StartNode");
    assert_eq!(s.node.status_text, "running");
    assert_eq!(s.ble.adapter_name, "ble0");
    assert!(rt.core.node_live());

    rt.dispatch(NativeAppAction::StopNode);
    assert!(
        !rt.state().node.running,
        "node should be stopped after StopNode"
    );
    assert!(!rt.core.node_live());
    assert_eq!(rt.state().node.status_text, "stopping (draining)");
    rt.finish_drain(false);
    assert_eq!(rt.state().node.status_text, "stopped");
}

/// A stop takes the node down by letting the loop task run to its end.
#[test]
fn stopping_the_node_completes_the_loop_task_rather_than_aborting_it() {
    let mut rt = Shell::launch("0.0.1");

    rt.dispatch(NativeAppAction::StartNode);
    assert!(rt.state().node.running, "node should be running");

    rt.dispatch(NativeAppAction::StopNode);
    assert!(matches!(
        rt.asked[..],
        [Command::SpawnLoop, Command::SignalShutdown, Command::WatchDrain]
    ));
    rt.finish_drain(false);

    assert!(
        !rt.core.lifecycle().stopping,
        "the graceful stop never finished"
    );
    assert!(!rt.aborted, "the last-resort abort fired");
    assert!(
        !rt.core.lifecycle().loop_task && !rt.core.lifecycle().shutdown_armed,
        "the loop task and its shutdown signal must be released by StopNode"
    );
    assert_eq!(rt.nodes_up, 0);
}

#[test]
fn a_teardown_that_hangs_is_aborted_and_starts_are_allowed() {
    let mut rt = Shell::launch("0.0.1");
    rt.dispatch(NativeAppAction::StartNode);
    rt.dispatch(NativeAppAction::StopNode);
    rt.finish_drain(true);
    assert!(rt.aborted);
    assert!(!rt.core.lifecycle().stopping);
    rt.dispatch(NativeAppAction::StartNode);
    assert!(rt.state().node.running);
}

/// A start that lands while the previous node is still draining must be queued.
#[test]
fn a_start_during_a_drain_is_queued_until_the_old_node_is_down() {
    let mut rt = Shell::launch("0.0.1");

    // The previous node is still tearing down.
    rt.dispatch(NativeAppAction::StartNode);
    rt.dispatch(NativeAppAction::StopNode);
    assert!(rt.core.lifecycle().stopping);

    rt.dispatch(NativeAppAction::StartNode);
    assert!(
        !rt.core.lifecycle().node_running && !rt.core.lifecycle().loop_task,
        "no second node may be built while the first one's transports are up"
    );
    assert!(
        rt.core.lifecycle().start_pending,
        "the start must be remembered, not dropped"
    );
    let status = rt.state().node.status_text;
    assert!(
        status.contains("draining"),
        "the UI needs to see the restart in flight, got: {status}"
    );

    // A state read while still draining must not start it either.
    let _ = rt.state_json();
    assert!(!rt.core.lifecycle().node_running, "still draining, still no node");

    // The watchdog's release edge.
    rt.finish_drain(false);
    assert_eq!(rt.state().node.status_text, "waiting for the previous node to stop");
    let _ = rt.state_json();
    assert!(
        rt.core.lifecycle().node_running && rt.core.lifecycle().loop_task,
        "the queued start must be replayed once the old node is down"
    );
    assert!(!rt.core.lifecycle().start_pending, "the queued start must be consumed");

    rt.dispatch(NativeAppAction::StopNode);
    rt.finish_drain(false);
}

/// An off and on cycle must leave exactly one node behind.
#[test]
fn an_off_on_cycle_leaves_one_node() {
    let mut rt = Shell::launch("0.0.1");

    rt.dispatch(NativeAppAction::StartNode);
    assert!(rt.state().node.running);

    rt.dispatch(NativeAppAction::StopNode);
    // The toggle's own start, before the drain can possibly be done.
    rt.dispatch(NativeAppAction::StartNode);
    assert!(
        rt.core.lifecycle().node_running || rt.core.lifecycle().start_pending,
        "the restart is either immediate or queued, never lost"
    );

    // The regular poll of the UI; the drain ends between two of them.
    for round in 0..5 {
        let _ = rt.state_json();
        if round == 2 {
            rt.finish_drain(false);
        }
    }
    assert!(rt.core.lifecycle().node_running, "the node must come back");
    assert!(!rt.core.lifecycle().start_pending);
    assert!(
        !rt.core.lifecycle().stopping,
        "the old node must be down before the new one exists"
    );
    assert_eq!(rt.nodes_up, 1);

    rt.dispatch(NativeAppAction::StopNode);
    rt.finish_drain(false);
}

#[test]
fn a_second_stop_does_not_end_a_drain() {
    let mut rt = Shell::launch("0.0.1");
    rt.dispatch(NativeAppAction::StartNode);
    rt.dispatch(NativeAppAction::StopNode);
    rt.dispatch(NativeAppAction::StartNode);
    assert_eq!(rt.state().node.status_text, "restarting (draining the previous node)");
    // It cancels the start that was queued, and no more: the responder answers
    // to the end of the drain.
    let asked = rt.asked.len();
    rt.dispatch(NativeAppAction::StopNode);
    assert_eq!(rt.asked.len(), asked);
    assert!(rt.core.lifecycle().stopping, "the old node is not down yet");
    assert!(!rt.core.lifecycle().start_pending);
    rt.dispatch(NativeAppAction::StartNode);
    assert!(!rt.state().node.running, "two nodes at once");
    rt.finish_drain(false);
    rt.poll();
    assert!(rt.state().node.running);
    assert_eq!(rt.nodes_up, 1);
}

#[test]
fn a_stop_after_a_queued_start_leaves_nothing_running() {
    let mut rt = Shell::launch("0.0.1");
    rt.dispatch(NativeAppAction::StartNode);
    rt.dispatch(NativeAppAction::StopNode);
    rt.dispatch(NativeAppAction::StartNode);
    rt.dispatch(NativeAppAction::StopNode);
    rt.finish_drain(false);
    rt.poll();
    assert!(!rt.state().node.running);
    assert_eq!(rt.nodes_up, 0);
}

#[test]
fn a_stop_cancels_a_start_that_waits_for_its_node() {
    let mut rt = Shell::launch("0.0.1");
    rt.dispatch(NativeAppAction::StartNode);
    rt.dispatch(NativeAppAction::StopNode);
    rt.finish_drain(false);
    assert!(!rt.core.wants_node(), "nobody has asked for a node");

    // The node is asked for and has not been built.
    let commands = rt.core.dispatch(NativeAppAction::StartNode, NOTHING_SEEN);
    assert!(matches!(commands[..], [Command::BuildNode { .. }]));
    assert!(rt.core.wants_node());
    // A second start does not ask for a second one.
    assert!(rt.core.dispatch(NativeAppAction::StartNode, NOTHING_SEEN).is_empty());
    assert!(rt.core.wants_node());

    let commands = rt.core.dispatch(NativeAppAction::StopNode, NOTHING_SEEN);
    assert!(matches!(commands[..], [Command::RetractResponder]));
    assert!(!rt.core.wants_node(), "the stop is the last word");
    assert!(rt.core.poll_pending_start().is_empty());
    assert!(!rt.state().node.running);
}

#[test]
fn an_error_stays_until_the_next() {
    let mut rt = Shell::launch("0.0.1");
    let _ = rt.dispatch_json("not json");
    let error = rt.state().error;
    rt.dispatch(NativeAppAction::Tick);
    rt.dispatch(NativeAppAction::StartNode);
    rt.dispatch(NativeAppAction::SetCustomRelay { url: "ws://a".to_string() });
    assert_eq!(rt.state().error, error);
}

#[test]
fn a_second_start_is_ignored() {
    let mut rt = Shell::launch("0.0.1");
    rt.dispatch(NativeAppAction::StartNode);
    rt.dispatch(NativeAppAction::StartNode);
    assert!(matches!(rt.asked[..], [Command::SpawnLoop]));
    assert_eq!(rt.state().rev, 2);
}

#[test]
fn a_loop_task_that_exited_is_replaced() {
    let mut rt = Shell::launch("0.0.1");
    rt.dispatch(NativeAppAction::StartNode);
    rt.loop_finished = true;
    rt.dispatch(NativeAppAction::StartNode);
    assert!(rt.state().node.running);
    assert_eq!(rt.nodes_up, 1);
    assert!(matches!(
        rt.asked[..],
        [
            Command::SpawnLoop,
            Command::ForgetLoop,
            Command::BuildNode { .. },
            Command::SpawnLoop
        ]
    ));
}

#[test]
fn a_node_that_cannot_be_rebuilt_is_an_error() {
    let mut rt = Shell::launch("0.0.1");
    rt.dispatch(NativeAppAction::StartNode);
    rt.dispatch(NativeAppAction::StopNode);
    rt.finish_drain(false);
    rt.build_fails = true;
    rt.dispatch(NativeAppAction::StartNode);
    assert_eq!(rt.state().error, "rebuild node: fips Node::new failed: refused");
    assert!(!rt.state().node.running);
    rt.build_fails = false;
    rt.dispatch(NativeAppAction::StartNode);
    assert!(rt.state().node.running);
}

/// A broken peer feed must not look like an empty room.
#[test]
fn a_sustained_peer_feed_failure_reaches_the_error_banner() {
    let mut rt = Shell::launch("0.0.1");

    assert!(rt.state().error.is_empty(), "healthy by default");

    let reason = "connect: No such file or directory";
    for _ in 0..PEER_FEED_FAILURES_BEFORE_ERROR - 1 {
        let follow_ups = rt.core.peer_tick(Some(Err(reason.to_string())), true);
        assert!(matches!(follow_ups[..], [FollowUp::Keepwarm]));
    }
    assert!(
        rt.state().error.is_empty(),
        "a startup-window failure must not shout"
    );

    rt.core.peer_tick(Some(Err(reason.to_string())), true);
    let error = rt.state().error;
    assert!(
        error.contains("peer state unavailable"),
        "sustained failure must be visible, got: {error}"
    );
    assert!(
        error.contains("No such file or directory"),
        "the reason must survive into the banner, got: {error}"
    );
    assert_eq!(
        error,
        "peer state unavailable (3 failed queries): connect: No such file or directory"
    );
}

fn peer(npub: &str, connected: bool) -> PeerView {
    PeerView { node_addr_hex: format!("addr-{npub}"), npub: npub.to_string(), connected }
}

#[test]
fn a_look_at_the_peers_tells_who_is_connected() {
    let mut rt = Shell::launch("0.0.1");
    let peers = vec![peer("a", true), peer("b", false), peer("", true), peer("c", true)];
    let follow_ups = rt.core.peer_tick(Some(Ok(peers)), false);
    match &follow_ups[..] {
        [FollowUp::SetConnected { npubs }, FollowUp::RetryLibrary, FollowUp::Keepwarm] => {
            assert_eq!(*npubs, vec!["a".to_string(), "c".to_string()]);
        }
        other => panic!("{other:?}"),
    }
    let state = rt.state();
    assert_eq!(state.ble_peers.len(), 4);
    assert_eq!(state.ble_peers[1].npub, "b");
    assert_eq!(state.ble_peers[1].node_addr_hex, "addr-b");
    assert!(!state.ble_peers[1].connected);
    assert_eq!(state.ble_peers[1].psm, 0);
    assert_eq!(state.ble_peers[1].rssi, None);
    assert_eq!(rt.core.peer_views().len(), 4);

    // With an empty Circle there is nothing to try again.
    let follow_ups = rt.core.peer_tick(Some(Ok(Vec::new())), true);
    assert!(matches!(follow_ups[..], [FollowUp::SetConnected { .. }, FollowUp::Keepwarm]));
    // No look at all.
    assert!(matches!(rt.core.peer_tick(None, false)[..], [FollowUp::Keepwarm]));
}

#[test]
fn a_failed_look_keeps_the_peers_and_a_good_one_clears_the_note() {
    let mut rt = Shell::launch("0.0.1");
    rt.core.peer_tick(Some(Ok(vec![peer("a", true)])), true);
    for n in 0..4 {
        rt.core.peer_tick(Some(Err(format!("e{n}"))), true);
    }
    assert_eq!(rt.state().ble_peers.len(), 1);
    assert_eq!(rt.state().error, "peer state unavailable (4 failed queries): e3");
    rt.dispatch(NativeAppAction::SetCustomRelay { url: String::new() });
    let _ = rt.dispatch_json("not json");
    assert!(rt.state().error.starts_with("invalid action JSON: "));
    assert!(rt.state().error.ends_with("; peer state unavailable (4 failed queries): e3"));
    rt.core.peer_tick(Some(Ok(Vec::new())), true);
    assert!(rt.state().ble_peers.is_empty());
    assert!(!rt.state().error.contains("peer state unavailable"));
}

#[test]
fn a_stop_clears_the_peers_and_the_note() {
    let mut rt = Shell::launch("0.0.1");
    rt.dispatch(NativeAppAction::StartNode);
    rt.core.peer_tick(Some(Ok(vec![peer("a", true)])), true);
    for _ in 0..3 {
        rt.core.peer_tick(Some(Err("gone".to_string())), true);
    }
    rt.dispatch(NativeAppAction::StopNode);
    assert!(rt.state().ble_peers.is_empty());
    assert_eq!(rt.state().error, "");
}

#[test]
fn a_snapshot_is_followed_up() {
    let mut rt = Shell::launch("0.0.1");
    rt.core.peer_tick(Some(Ok(vec![peer("a", true)])), true);
    match &rt.core.state_follow_ups(false, true)[..] {
        [FollowUp::FlushAttempts, FollowUp::SetConnected { npubs }, FollowUp::RetryLibrary] => {
            assert_eq!(*npubs, vec!["a".to_string()]);
        }
        other => panic!("{other:?}"),
    }
    assert!(matches!(
        rt.core.state_follow_ups(true, false)[..],
        [FollowUp::SetConnected { .. }]
    ));
}

#[test]
fn what_the_radios_have_not_said_is_unknown() {
    let rt = Shell::launch("0.0.1");
    let state = rt.state();
    assert!(!state.ble.scanning && !state.ble.scanning_known);
    assert!(!state.ble.advertising && !state.ble.advertising_known);
    assert!(!state.wifi_aware.scanning && !state.wifi_aware.scanning_known);
    let radios = RadioFlags {
        ble_scanning: Some(true),
        ble_advertising: Some(false),
        aware_discovering: Some(true),
    };
    let state = rt.core.state::<(), ()>(radios, None, (), ());
    assert!(state.ble.scanning && state.ble.scanning_known);
    assert!(!state.ble.advertising && state.ble.advertising_known);
    assert!(state.wifi_aware.scanning && state.wifi_aware.scanning_known);
    assert_eq!(radios.ble_radio_state(), (true, true, false, true));
    assert_eq!(radios.aware_radio_state(), (true, true));
}

#[test]
fn the_content_layer_is_handed_on() {
    let rt = Shell::launch("0.0.1");
    let report = ContentReport { offline_only: true, snapshots: "sites" };
    let state = rt.core.state(QUIET, Some(report), "none", vec![1u8, 2]);
    assert!(state.offline_only);
    assert_eq!(state.content, "sites");
    assert_eq!(state.peers, vec![1, 2]);
}

#[test]
fn a_link_that_is_no_sites_is_an_error_and_goes_nowhere() {
    let mut rt = Shell::launch("0.0.1");
    let link = "http://example".to_string();
    let commands = rt.core.dispatch(
        NativeAppAction::OpenNsite { link: link.clone(), holder: None },
        NOTHING_SEEN,
    );
    assert!(commands.is_empty());
    assert_eq!(rt.state().error, "unrecognized nsite link: http://example");
    for action in [
        NativeAppAction::AddToLibrary { link: link.clone() },
        NativeAppAction::RemoveFromLibrary { link: link.clone() },
        NativeAppAction::ForgetNsite { link: link.clone() },
    ] {
        assert!(rt.core.dispatch(action, NOTHING_SEEN).is_empty());
    }
    assert_eq!(rt.state().rev, 4);
}

#[test]
fn each_action_asks_for_its_work() {
    let mut rt = Shell::launch("0.0.1");
    let s = |text: &str| text.to_string();
    let cases: Vec<(NativeAppAction, &str)> = vec![
        (
            NativeAppAction::OpenNsite { link: s("l"), holder: Some(s("h")) },
            "[OpenSite { link: \"l\", holder: Some(\"h\") }]",
        ),
        (NativeAppAction::ImportNsite { dir: s("d") }, "[ImportDir { dir: \"d\" }]"),
        (NativeAppAction::AddToLibrary { link: s("l") }, "[AddToLibrary { link: \"l\" }]"),
        (
            NativeAppAction::RemoveFromLibrary { link: s("l") },
            "[RemoveFromLibrary { link: \"l\" }]",
        ),
        (NativeAppAction::ForgetNsite { link: s("l") }, "[ForgetSite { link: \"l\" }]"),
        (NativeAppAction::CheckNsiteUpdates, "[CheckUpdates]"),
        (NativeAppAction::SearchNsites { query: s("q") }, "[DiscoverFromCircle]"),
        (NativeAppAction::WipeStores, "[Wipe { what: Stores }]"),
        (NativeAppAction::WipeCache, "[Wipe { what: Cache }]"),
        (
            NativeAppAction::AddToCircle { npub: s("p"), name: s("n") },
            "[AddToCircle { npub: \"p\", name: \"n\" }]",
        ),
        (
            NativeAppAction::RemoveFromCircle { npub: s("p") },
            "[RemoveFromCircle { npub: \"p\" }, SendUnpair { npub: \"p\" }]",
        ),
        (
            NativeAppAction::SendPairRequest { npub: s("p"), name: s("n"), secret: s("x") },
            "[SendPairRequest { npub: \"p\", name: \"n\", secret: \"x\" }]",
        ),
        (
            NativeAppAction::CancelPairInvite { npub: s("p") },
            "[ForgetOutboundPair { npub: \"p\" }]",
        ),
        (
            NativeAppAction::AcceptPairRequest { npub: s("p"), name: s("n") },
            "[AcceptPairRequest { npub: \"p\", name: \"n\" }]",
        ),
        (
            NativeAppAction::DeclinePairRequest { npub: s("p") },
            "[DeclinePairRequest { npub: \"p\" }]",
        ),
        (
            NativeAppAction::SetOfflineOnly { enabled: true },
            "[SetOfflineOnly { enabled: true }]",
        ),
        (NativeAppAction::SetDeviceName { name: s("n") }, "[SetDeviceName { name: \"n\" }]"),
        (
            NativeAppAction::SpeedtestPeer { npub: s("p") },
            "[MeasureLink { npub: \"p\", bytes: 262144 }]",
        ),
        (
            NativeAppAction::ShareFile {
                path: s("f"),
                name: s("n"),
                mime: s("m"),
                peer_npub: s("p"),
            },
            "[ShareFile { path: \"f\", name: \"n\", mime: \"m\", peer_npub: \"p\" }]",
        ),
        (
            NativeAppAction::AcceptFileTransfer { transfer_id: s("t") },
            "[RespondFileTransfer { transfer_id: \"t\", accept: true }]",
        ),
        (
            NativeAppAction::DeclineFileTransfer { transfer_id: s("t") },
            "[RespondFileTransfer { transfer_id: \"t\", accept: false }]",
        ),
        (
            NativeAppAction::CancelFileTransfer { transfer_id: s("t") },
            "[CancelFileTransfer { transfer_id: \"t\" }]",
        ),
        (
            NativeAppAction::ForgetFileTransfer { transfer_id: s("t") },
            "[ForgetFileTransfer { transfer_id: \"t\" }]",
        ),
        (
            NativeAppAction::SetCustomRelay { url: s(" u ") },
            "[UpdateSettings { change: Relay { url: \" u \" } }]",
        ),
        (
            NativeAppAction::SetCustomBlossom { url: s("u") },
            "[UpdateSettings { change: Blossom { url: \"u\" } }]",
        ),
        (
            NativeAppAction::SetAwareDataPaths { count: 5 },
            "[UpdateSettings { change: AwareDataPaths { count: 5 } }]",
        ),
        (NativeAppAction::Tick, "[]"),
    ];
    let seen = Seen { loop_finished: false, link_recognized: true };
    let mut rev = 0;
    for (action, expected) in cases {
        let commands = rt.core.dispatch(action, seen);
        assert_eq!(format!("{commands:?}"), expected);
        rev += 1;
        assert_eq!(rt.state().rev, rev);
    }
}

#[test]
fn a_failed_wipe_is_an_error() {
    let mut rt = Shell::launch("0.0.1");
    rt.core.wiped(Wipe::Stores, Ok(()));
    assert_eq!(rt.state().error, "");
    rt.core.wiped(Wipe::Stores, Err("busy".to_string()));
    assert_eq!(rt.state().error, "wipe failed: busy");
    rt.core.wiped(Wipe::Cache, Err("busy".to_string()));
    assert_eq!(rt.state().error, "cache wipe failed: busy");
}

#[test]
fn a_speedtest_climbs_until_a_run_is_long_enough() {
    let mut rt = Shell::launch("0.0.1");
    rt.dispatch(NativeAppAction::SpeedtestPeer { npub: "p".to_string() });
    assert!(rt.state().speedtest.running);
    // A second request while one runs is ignored.
    rt.dispatch(NativeAppAction::SpeedtestPeer { npub: "q".to_string() });
    assert_eq!(rt.state().speedtest.peer_npub, "p");
    let rates = |up: f64, down: f64| Ok((up.to_bits(), down.to_bits()));
    let next = rt.core.speedtest_run(rates(1.5, 2.5), 100);
    assert_eq!(format!("{next:?}"), "[MeasureLink { npub: \"p\", bytes: 524288 }]");
    assert!(rt.core.speedtest_run(rates(3.0, 4.0), 5_000).is_empty());
    let report = rt.state().speedtest;
    assert!(!report.running);
    assert_eq!(f64::from_bits(report.up_mbps_bits), 3.0);
    assert_eq!(f64::from_bits(report.down_mbps_bits), 4.0);
    assert_eq!(report.bytes, 524288);
    assert_eq!(report.generation, 3);
    assert_eq!(report.error, "");
}

#[test]
fn a_snapshot_that_cannot_be_serialized_says_so() {
    assert_eq!(
        AppRuntime::state_json(Err("key must be a string".to_string())),
        r#"{"error":"serialize failed: key must be a string"}"#
    );
    assert_eq!(AppRuntime::state_json(Ok("{}".to_string())), "{}");
}

#[test]
fn the_gateway_needs_both_the_content_and_a_handle() {
    assert_eq!(AppRuntime::gateway_context(Some(1), Some("h")), Some((1, "h")));
    assert_eq!(AppRuntime::gateway_context(None::<u8>, Some("h")), None);
    assert_eq!(AppRuntime::gateway_context(Some(1), None::<u8>), None);
}

#[test]
fn a_saved_setting_is_reported_by_what_was_written() {
    let mut rt = Shell::launch("0.0.1");
    let change = SettingChange::Relay { url: " x ".to_string() };
    let written = change.apply(Settings::default());
    rt.core.settings_saved(&change, &written, Ok(()));
    assert_eq!(rt.state().pending_relay_url, "x");
    assert_eq!(rt.state().rev, 0);
}
