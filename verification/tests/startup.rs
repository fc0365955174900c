use myco_core::node_plan::{build_node, max_mss, BuildError};
use myco_core::node_task::{drain_steps, DrainStep, LoopStep, NODE_STOP_TIMEOUT_SECS};
use myco_core::lanes::AWARE_UDP_DEFAULT_SLOTS;
use myco_core::settings_store::Settings;
use myco_core::startup::{
    listener_address, may_access_blobs, mesh_warning, now_ms, seed_default_sites, seed_marker_in,
    serves, startup_steps, BindReport, BlobOp, Listener, SeedStep, SiteLink, StartupError, StartupStep,
    DEFAULT_SITES, SEED_MARKER_CONTENTS,
};

fn all_bound() -> BindReport {
    BindReport {
        mesh_relay: None,
        loopback_relay: None,
        auth: None,
        blossom: None,
        blobs_local: true,
        auth_port: 4869,
    }
}

/// Which of the node's subsystems the app runs itself, and which it depends on
/// the node to run.
#[test]
fn node_config_matches_who_owns_each_subsystem() {
    let socket_path = "/data/owned-subsystems/fips.sock";
    let config = build_node(socket_path, false, false, AWARE_UDP_DEFAULT_SLOTS);
    assert!(
        config.dns_enabled,
        "the DNS responder must be on: `.fips` queries are proxied to it, and \
         answering them is what warms the route"
    );
    assert!(!config.tun_enabled, "the TUN is app-owned");
    assert!(
        config.control_enabled,
        "peer state and platform peer pushes both ride the control socket"
    );
    assert_eq!(config.control_socket_path, socket_path);
}

#[test]
fn a_host_node_has_no_radio_transports() {
    let plan = build_node("s", false, false, 4);
    assert!(plan.identity_persistent);
    assert_eq!(plan.dns_port, Some(0));
    assert_eq!(plan.ble_auto_connect, None);
    assert!(plan.udp.is_none());
}

#[test]
fn wifi_aware_on_the_host_adds_the_udp_transports_alone() {
    let plan = build_node("s", true, false, 2);
    assert_eq!(plan.ble_auto_connect, None);
    let udp = plan.udp.unwrap();
    let shown: Vec<(&str, u16, &str)> =
        udp.iter().map(|u| (u.name.as_str(), u.port, u.bind_addr.as_str())).collect();
    assert_eq!(
        shown,
        vec![
            ("lan", 4871, "[::]:4871"),
            ("aware0", 4872, "[::]:4872"),
            ("aware1", 4873, "[::]:4873"),
        ]
    );
}

#[test]
fn on_android_the_aware_toggle_changes_no_transport() {
    let on = build_node("s", true, true, 8);
    let off = build_node("s", false, true, 8);
    assert_eq!(on.ble_auto_connect, Some(true));
    assert_eq!(off.ble_auto_connect, Some(true));
    let names = |plan: &myco_core::node_plan::NodePlan| -> Vec<(String, u16)> {
        plan.udp.as_ref().unwrap().iter().map(|u| (u.name.clone(), u.port)).collect()
    };
    assert_eq!(names(&on), names(&off));
    assert_eq!(names(&on).len(), 9);
    assert_eq!(names(&on)[8], ("aware7".to_string(), 4879));
}

#[test]
fn no_two_transports_share_a_name_or_a_port() {
    for slots in 0..=255u8 {
        let udp = build_node("s", true, false, slots).udp.unwrap();
        assert_eq!(udp.len(), 1 + (slots as usize).min(8));
        let names: std::collections::HashSet<_> = udp.iter().map(|u| u.name.clone()).collect();
        let ports: std::collections::HashSet<_> = udp.iter().map(|u| u.port).collect();
        assert_eq!(names.len(), udp.len());
        assert_eq!(ports.len(), udp.len());
    }
}

#[test]
fn build_errors_are_told() {
    assert_eq!(BuildError::Identity("no key".to_string()).message(), "no key");
    assert_eq!(
        BuildError::Node("bad config".to_string()).message(),
        "fips Node::new failed: bad config"
    );
}

#[test]
fn startup_errors_are_told() {
    assert_eq!(StartupError::DataDir("denied".to_string()).message(), "denied");
    assert_eq!(StartupError::Runtime("no threads".to_string()).message(), "tokio runtime: no threads");
    assert_eq!(
        StartupError::Build(BuildError::Node("x".to_string())).message(),
        "fips Node::new failed: x"
    );
    assert_eq!(StartupError::Content("locked".to_string()).message(), "locked");
}

#[test]
fn the_segment_size_leaves_room_for_the_headers() {
    assert_eq!(max_mss(1280), 1220);
    assert_eq!(max_mss(60), 0);
    assert_eq!(max_mss(59), 0);
    assert_eq!(max_mss(0), 0);
    assert_eq!(max_mss(61), 1);
}

#[test]
fn a_start_chooses_the_servers_before_anything_opens() {
    let settings = Settings {
        custom_relay_url: Some(" ws://relay ".to_string()),
        custom_blossom_url: Some("  ".to_string()),
        aware_data_paths: Some(2),
    };
    let steps = startup_steps(&settings, false);
    assert_eq!(steps.len(), 6);
    match &steps[0] {
        StartupStep::BuildNode { wifi_aware, aware_slots } => {
            assert!(!*wifi_aware);
            assert_eq!(*aware_slots, 2);
        }
        other => panic!("{other:?}"),
    }
    match &steps[1] {
        StartupStep::OpenContent { relay, blobs } => {
            assert_eq!(relay.as_deref(), Some("ws://relay"));
            assert_eq!(*blobs, None);
        }
        other => panic!("{other:?}"),
    }
    assert!(matches!(steps[2], StartupStep::SetDeviceKeys));
    assert!(matches!(steps[3], StartupStep::SetSource));
    assert!(matches!(steps[4], StartupStep::RefreshLibrary));
    assert!(matches!(steps[5], StartupStep::SeedDefaultSites));
}

#[test]
fn the_mesh_is_served_on_android_only() {
    let steps = startup_steps(&Settings::default(), true);
    assert_eq!(steps.len(), 9);
    assert!(matches!(steps[0], StartupStep::BuildNode { wifi_aware: false, aware_slots: 4 }));
    assert!(matches!(steps[1], StartupStep::OpenContent { relay: None, blobs: None }));
    assert!(matches!(steps[6], StartupStep::BindServices));
    assert!(matches!(steps[7], StartupStep::DrainPlatformPeers));
    assert!(matches!(steps[8], StartupStep::TickPeers));
}

#[test]
fn listeners_have_their_addresses() {
    assert_eq!(listener_address(Listener::MeshRelay, 1), "[::]:4870");
    assert_eq!(listener_address(Listener::LoopbackRelay, 1), "127.0.0.1:4870");
    assert_eq!(listener_address(Listener::Auth, 4869), "[::]:4869");
    assert_eq!(listener_address(Listener::Blossom, 1), "[::]:24243");
    for listener in
        [Listener::MeshRelay, Listener::LoopbackRelay, Listener::Auth, Listener::Blossom]
    {
        let digits = listener_address(listener, 65535);
        let port = digits.rsplit(':').next().unwrap();
        assert!(port.parse::<u16>().is_ok());
    }
}

#[test]
fn nothing_is_said_where_everything_is_bound() {
    assert_eq!(mesh_warning(&all_bound()), "");
}

#[test]
fn each_lost_port_is_told() {
    let mut report = all_bound();
    report.mesh_relay = Some("in use".to_string());
    assert_eq!(
        mesh_warning(&report),
        "relay port 4870 unavailable (another app using it?): in use"
    );

    let mut report = all_bound();
    report.loopback_relay = Some("in use".to_string());
    assert_eq!(
        mesh_warning(&report),
        "Another app is using port 4870 \u{2014} Myco's relay couldn't start, \
         so apps will talk to the wrong relay. Close the other app and \
         restart Myco. (in use)"
    );

    let mut report = all_bound();
    report.auth = Some("in use".to_string());
    assert_eq!(
        mesh_warning(&report),
        "Another app is using port 4869 \u{2014} Myco can't accept pairing \
         requests, so new peers won't be able to pair with this \
         device. (in use)"
    );

    let mut report = all_bound();
    report.blossom = Some("in use".to_string());
    assert_eq!(mesh_warning(&report), "blossom port 24243 unavailable: in use");
}

#[test]
fn lost_ports_are_told_one_after_the_other() {
    let report = BindReport {
        mesh_relay: Some("a".to_string()),
        loopback_relay: Some("b".to_string()),
        auth: Some("c".to_string()),
        blossom: Some("d".to_string()),
        blobs_local: true,
        auth_port: 7,
    };
    let warning = mesh_warning(&report);
    let parts: Vec<&str> = warning.split("; ").collect();
    assert_eq!(parts.len(), 4);
    assert!(parts[0].ends_with(": a"));
    assert!(parts[1].ends_with("(b)"));
    assert!(parts[2].starts_with("Another app is using port 7 \u{2014}"));
    assert!(parts[2].ends_with("(c)"));
    assert_eq!(parts[3], "blossom port 24243 unavailable: d");
    assert!(warning.contains("port 4870"));
}

#[test]
fn a_blob_server_with_nothing_to_serve_is_not_missed() {
    let mut report = all_bound();
    report.blobs_local = false;
    report.blossom = Some("in use".to_string());
    assert_eq!(mesh_warning(&report), "");
    assert!(!serves(Listener::Blossom, &report));
    report.blossom = None;
    assert!(!serves(Listener::Blossom, &report));
    report.blobs_local = true;
    assert!(serves(Listener::Blossom, &report));
}

#[test]
fn what_is_bound_is_served() {
    let mut report = all_bound();
    assert!(serves(Listener::MeshRelay, &report));
    assert!(serves(Listener::LoopbackRelay, &report));
    assert!(serves(Listener::Auth, &report));
    report.mesh_relay = Some("x".to_string());
    report.auth = Some("x".to_string());
    assert!(!serves(Listener::MeshRelay, &report));
    assert!(serves(Listener::LoopbackRelay, &report));
    assert!(!serves(Listener::Auth, &report));
    report.loopback_relay = Some("x".to_string());
    assert!(!serves(Listener::LoopbackRelay, &report));
}

#[test]
fn reads_and_uploads_are_granted_apart() {
    assert!(may_access_blobs(BlobOp::Read, true, false));
    assert!(!may_access_blobs(BlobOp::Write, true, false));
    assert!(!may_access_blobs(BlobOp::Read, false, true));
    assert!(may_access_blobs(BlobOp::Write, false, true));
}

fn told(steps: &[SeedStep]) -> Vec<String> {
    steps
        .iter()
        .map(|step| match step {
            SeedStep::Pin { link } => format!("pin {link}"),
            SeedStep::Fetch { link } => format!("fetch {link}"),
            SeedStep::WriteMarker => "mark".to_string(),
        })
        .collect()
}

#[test]
fn default_sites_are_installed_once() {
    let sites = vec![
        SiteLink { link: "a".to_string(), recognized: true },
        SiteLink { link: "b".to_string(), recognized: false },
        SiteLink { link: "c".to_string(), recognized: true },
    ];
    assert_eq!(
        told(&seed_default_sites(false, &sites)),
        vec!["pin a", "fetch a", "pin c", "fetch c", "mark"]
    );
    assert!(seed_default_sites(true, &sites).is_empty());
    assert_eq!(told(&seed_default_sites(false, &Vec::new())), vec!["mark"]);
}

#[test]
fn the_seed_marker_is_in_the_data_dir() {
    assert_eq!(seed_marker_in("/data/app"), "/data/app/seeded-defaults");
    assert_eq!(seed_marker_in("/data/app/"), "/data/app/seeded-defaults");
    assert_eq!(SEED_MARKER_CONTENTS.as_bytes(), b"1\n");
}

#[test]
fn the_bundled_site_is_the_default() {
    assert_eq!(
        DEFAULT_SITES,
        ["4ofb5evx6765n3syphyhlocydo8q7fyipswzgpkx59u7p1yiivbitchat.nsite.lol"]
    );
}

#[test]
fn the_clock_is_cut_to_its_low_bits() {
    assert_eq!(now_ms(None), 0);
    assert_eq!(now_ms(Some(0)), 0);
    assert_eq!(now_ms(Some(1_700_000_000_123)), 1_700_000_000_123);
    assert_eq!(now_ms(Some(u64::MAX as u128)), u64::MAX);
    assert_eq!(now_ms(Some(u64::MAX as u128 + 1)), 0);
    assert_eq!(now_ms(Some(u64::MAX as u128 + 8)), 7);
}

#[test]
fn a_loop_task_tears_its_node_down() {
    let mut step = LoopStep::StartNode;
    let mut taken = vec![step];
    // The packet loop fails; the rest goes on all the same.
    for ok in [true, true, false, true, true] {
        step = step.next(ok);
        taken.push(step);
    }
    assert_eq!(
        taken,
        vec![
            LoopStep::StartNode,
            LoopStep::PublishResponder,
            LoopStep::Serve,
            LoopStep::FinishShutdown { published: true },
            LoopStep::RetractResponder,
            LoopStep::End,
        ]
    );
    assert_eq!(LoopStep::End.next(false), LoopStep::End);
}

#[test]
fn a_start_that_failed_is_torn_down_too() {
    let first = LoopStep::StartNode.next(false);
    assert_eq!(first, LoopStep::FinishShutdown { published: false });
    assert_eq!(first.next(true), LoopStep::End);
    assert_eq!(first.next(false), LoopStep::End);
}

#[test]
fn starts_are_allowed_again_last() {
    assert_eq!(drain_steps(false), vec![DrainStep::AllowStart]);
    assert_eq!(
        drain_steps(true),
        vec![DrainStep::AbortLoop, DrainStep::RetractResponder, DrainStep::AllowStart]
    );
    assert_eq!(NODE_STOP_TIMEOUT_SECS, 10);
}
