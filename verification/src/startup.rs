//! What is decided while the app starts: which services are offered to the
//! mesh, what is said about those that could not be, which apps are installed
//! on the first run, and how a failed start is told.

use vstd::prelude::*;

use crate::lanes::aware_udp_slots;
use crate::node_plan::BuildError;
use crate::settings_store::Settings;
use crate::text::{decimal_text, glue, path_of};

verus! {

/// The sites that are installed on the first run.
pub const DEFAULT_SITES: [&'static str; 1] = [
    "4ofb5evx6765n3syphyhlocydo8q7fyipswzgpkx59u7p1yiivbitchat.nsite.lol",
];

/// The file that remembers that the default sites have been installed.
pub const SEED_MARKER: &'static str = "seeded-defaults";

/// What is written to that file.
pub const SEED_MARKER_CONTENTS: &'static str = "1\n";

/// The path of the file that remembers that the default sites have been
/// installed.
pub fn seed_marker_in(data_dir: &str) -> (path: String)
    ensures
        path@ == crate::text::file_path(data_dir@, SEED_MARKER@),
{
    path_of(data_dir, SEED_MARKER)
}

/// One step of a start, once the data directory and the task runtime are there
/// and the settings have been read. Where a node cannot be built or the content
/// layer cannot be opened, the start ends there.
#[derive(Debug, Clone)]
pub enum StartupStep {
    /// Build a node, with an Aware pool of this size.
    BuildNode { wifi_aware: bool, aware_slots: u8 },
    /// Open the content layer, on these servers or on the built-in stores.
    OpenContent { relay: Option<String>, blobs: Option<String> },
    /// Sign pairing requests with the device's key, where that can be read.
    SetDeviceKeys,
    /// Fetch sites over the internet where no peer has them.
    SetSource,
    /// Check which installed sites are complete, aside.
    RefreshLibrary,
    /// Install the default sites, see [`seed_default_sites`].
    SeedDefaultSites,
    /// Bind and serve the [`Listener`]s.
    BindServices,
    /// Hand the peers that the radios find to the node, aside.
    DrainPlatformPeers,
    /// Look at the node's peers every few seconds, aside.
    TickPeers,
}

/// What a [`StartupStep`] holds.
pub enum StartupStepModel {
    BuildNode { wifi_aware: bool, aware_slots: u8 },
    OpenContent { relay: Option<Seq<char>>, blobs: Option<Seq<char>> },
    SetDeviceKeys,
    SetSource,
    RefreshLibrary,
    SeedDefaultSites,
    BindServices,
    DrainPlatformPeers,
    TickPeers,
}

impl View for StartupStep {
    type V = StartupStepModel;

    open spec fn view(&self) -> StartupStepModel {
        match self {
            StartupStep::BuildNode { wifi_aware, aware_slots } => StartupStepModel::BuildNode {
                wifi_aware: *wifi_aware,
                aware_slots: *aware_slots,
            },
            StartupStep::OpenContent { relay, blobs } => StartupStepModel::OpenContent {
                relay: crate::settings_store::text_of(*relay),
                blobs: crate::settings_store::text_of(*blobs),
            },
            StartupStep::SetDeviceKeys => StartupStepModel::SetDeviceKeys,
            StartupStep::SetSource => StartupStepModel::SetSource,
            StartupStep::RefreshLibrary => StartupStepModel::RefreshLibrary,
            StartupStep::SeedDefaultSites => StartupStepModel::SeedDefaultSites,
            StartupStep::BindServices => StartupStepModel::BindServices,
            StartupStep::DrainPlatformPeers => StartupStepModel::DrainPlatformPeers,
            StartupStep::TickPeers => StartupStepModel::TickPeers,
        }
    }
}

/// The steps of a start, in their order. The servers are chosen before anything
/// opens. The mesh is served on Android only: elsewhere there is no TUN.
pub open spec fn steps_of_a_start(settings: Settings, android: bool) -> Seq<StartupStepModel> {
    seq![
        StartupStepModel::BuildNode {
            wifi_aware: false,
            aware_slots: crate::lanes::slots_for(settings.aware_data_paths),
        },
        StartupStepModel::OpenContent {
            relay: crate::settings_store::url_of(settings@.custom_relay_url),
            blobs: crate::settings_store::url_of(settings@.custom_blossom_url),
        },
        StartupStepModel::SetDeviceKeys,
        StartupStepModel::SetSource,
        StartupStepModel::RefreshLibrary,
        StartupStepModel::SeedDefaultSites,
    ] + (if android {
        seq![
            StartupStepModel::BindServices,
            StartupStepModel::DrainPlatformPeers,
            StartupStepModel::TickPeers,
        ]
    } else {
        seq![]
    })
}

/// What a start does once the settings have been read.
pub fn startup_steps(settings: &Settings, android: bool) -> (steps: Vec<StartupStep>)
    ensures
        steps@.map_values(|step: StartupStep| step@) == steps_of_a_start(*settings, android),
{
    let mut steps: Vec<StartupStep> = Vec::new();
    steps.push(
        StartupStep::BuildNode {
            wifi_aware: false,
            aware_slots: aware_udp_slots(settings.aware_data_paths),
        },
    );
    steps.push(
        StartupStep::OpenContent { relay: settings.relay_url(), blobs: settings.blossom_url() },
    );
    steps.push(StartupStep::SetDeviceKeys);
    steps.push(StartupStep::SetSource);
    steps.push(StartupStep::RefreshLibrary);
    steps.push(StartupStep::SeedDefaultSites);
    if android {
        steps.push(StartupStep::BindServices);
        steps.push(StartupStep::DrainPlatformPeers);
        steps.push(StartupStep::TickPeers);
    }
    assert(steps@.map_values(|step: StartupStep| step@) =~= steps_of_a_start(*settings, android));
    steps
}

/// A service that listens for connections.
#[derive(Debug, Clone, Copy, PartialEq, Eq, Structural)]
pub enum Listener {
    /// The relay, for peers.
    MeshRelay,
    /// The relay, for the sites in the app.
    LoopbackRelay,
    /// The auth plane: the one port that is open to peers never met before.
    Auth,
    /// The blob server, for peers.
    Blossom,
}

/// Where a service listens. The mesh is IPv6 only.
pub open spec fn address_of(listener: Listener, auth_port: u16) -> Seq<char> {
    match listener {
        Listener::MeshRelay => "[::]:4870"@,
        Listener::LoopbackRelay => "127.0.0.1:4870"@,
        Listener::Auth => "[::]:"@ + crate::text::decimal(auth_port as nat),
        Listener::Blossom => "[::]:24243"@,
    }
}

/// Where a service listens.
pub fn listener_address(listener: Listener, auth_port: u16) -> (address: String)
    ensures
        address@ == address_of(listener, auth_port),
{
    match listener {
        Listener::MeshRelay => "[::]:4870".to_owned(),
        Listener::LoopbackRelay => "127.0.0.1:4870".to_owned(),
        Listener::Auth => {
            let digits: String = decimal_text(auth_port as u64);
            glue("[::]:", digits.as_str())
        },
        Listener::Blossom => "[::]:24243".to_owned(),
    }
}

/// What came of binding the services: for each the reason it could not be
/// bound, if it could not.
#[derive(Debug, Clone)]
pub struct BindReport {
    pub mesh_relay: Option<String>,
    pub loopback_relay: Option<String>,
    pub auth: Option<String>,
    pub blossom: Option<String>,
    /// The blobs are in the embedded store. With a custom server configured
    /// there is nothing local to serve.
    pub blobs_local: bool,
    pub auth_port: u16,
}

pub open spec fn mesh_relay_note(reason: Seq<char>) -> Seq<char> {
    "relay port 4870 unavailable (another app using it?): "@ + reason
}

pub open spec fn loopback_relay_note(reason: Seq<char>) -> Seq<char> {
    "Another app is using port 4870 — Myco's relay couldn't start, so apps will talk to the wrong relay. Close the other app and restart Myco. ("@
        + reason + ")"@
}

pub open spec fn auth_note(auth_port: u16, reason: Seq<char>) -> Seq<char> {
    "Another app is using port "@ + crate::text::decimal(auth_port as nat)
        + " — Myco can't accept pairing requests, so new peers won't be able to pair with this device. ("@
        + reason + ")"@
}

pub open spec fn blossom_note(reason: Seq<char>) -> Seq<char> {
    "blossom port 24243 unavailable: "@ + reason
}

/// No text, or one.
pub open spec fn if_any(note: Option<Seq<char>>) -> Seq<Seq<char>> {
    match note {
        Some(note) => seq![note],
        None => seq![],
    }
}

/// What is said of the services that could not be bound, in their order. A blob
/// server that has nothing to serve is not missed.
pub open spec fn bind_notes(report: BindReport) -> Seq<Seq<char>> {
    if_any(
        match report.mesh_relay {
            Some(reason) => Some(mesh_relay_note(reason@)),
            None => None,
        },
    ) + if_any(
        match report.loopback_relay {
            Some(reason) => Some(loopback_relay_note(reason@)),
            None => None,
        },
    ) + if_any(
        match report.auth {
            Some(reason) => Some(auth_note(report.auth_port, reason@)),
            None => None,
        },
    ) + if_any(
        match report.blossom {
            Some(reason) => if report.blobs_local {
                Some(blossom_note(reason@))
            } else {
                None
            },
            None => None,
        },
    )
}

/// Texts one after the other, with a semicolon and a space between them.
pub open spec fn joined(notes: Seq<Seq<char>>) -> Seq<char>
    decreases notes.len(),
{
    if notes.len() == 0 {
        seq![]
    } else if notes.len() == 1 {
        notes[0]
    } else {
        joined(notes.drop_last()) + "; "@ + notes.last()
    }
}

fn add_note(warning: String, note: String, Ghost(notes): Ghost<Seq<Seq<char>>>) -> (longer: String)
    requires
        warning@ == joined(notes),
        warning@.len() == 0 <==> notes.len() == 0,
        note@.len() > 0,
    ensures
        longer@ == joined(notes.push(note@)),
        longer@.len() > 0,
{
    proof {
        assert(notes.push(note@).drop_last() =~= notes);
    }
    if warning.as_str().is_empty() {
        note
    } else {
        warning.concat("; ").concat(note.as_str())
    }
}

/// The warning to show for the services that could not be bound. Each is told,
/// because the app looks alright without it: a site in the app would silently
/// talk to another app's relay, and nobody new could pair.
pub fn mesh_warning(report: &BindReport) -> (warning: String)
    ensures
        warning@ == joined(bind_notes(*report)),
{
    let ghost mut notes: Seq<Seq<char>> = seq![];
    let mut warning: String = String::new();
    if let Some(reason) = &report.mesh_relay {
        let note: String = glue(
            "relay port 4870 unavailable (another app using it?): ",
            reason.as_str(),
        );
        proof {
            reveal_strlit("relay port 4870 unavailable (another app using it?): ");
        }
        warning = add_note(warning, note, Ghost(notes));
        proof {
            notes = notes.push(mesh_relay_note(reason@));
        }
    }
    if let Some(reason) = &report.loopback_relay {
        let note: String = glue(
            "Another app is using port 4870 — Myco's relay couldn't start, so apps will talk to the wrong relay. Close the other app and restart Myco. (",
            reason.as_str(),
        ).concat(")");
        proof {
            reveal_strlit(")");
        }
        warning = add_note(warning, note, Ghost(notes));
        proof {
            notes = notes.push(loopback_relay_note(reason@));
        }
    }
    if let Some(reason) = &report.auth {
        let port: String = decimal_text(report.auth_port as u64);
        let note: String = glue("Another app is using port ", port.as_str()).concat(
            " — Myco can't accept pairing requests, so new peers won't be able to pair with this device. (",
        ).concat(reason.as_str()).concat(")");
        proof {
            reveal_strlit(")");
        }
        warning = add_note(warning, note, Ghost(notes));
        proof {
            notes = notes.push(auth_note(report.auth_port, reason@));
        }
    }
    if let Some(reason) = &report.blossom {
        if report.blobs_local {
            let note: String = glue("blossom port 24243 unavailable: ", reason.as_str());
            proof {
                reveal_strlit("blossom port 24243 unavailable: ");
            }
            warning = add_note(warning, note, Ghost(notes));
            proof {
                notes = notes.push(blossom_note(reason@));
            }
        }
    }
    assert(notes =~= bind_notes(*report));
    warning
}

/// Whether a service is offered: it could be bound, and has something to serve.
pub open spec fn is_served(listener: Listener, report: BindReport) -> bool {
    match listener {
        Listener::MeshRelay => report.mesh_relay is None,
        Listener::LoopbackRelay => report.loopback_relay is None,
        Listener::Auth => report.auth is None,
        Listener::Blossom => report.blossom is None && report.blobs_local,
    }
}

/// Whether to serve on a listener that was to be bound.
pub fn serves(listener: Listener, report: &BindReport) -> (yes: bool)
    ensures
        yes == is_served(listener, *report),
{
    match listener {
        Listener::MeshRelay => report.mesh_relay.is_none(),
        Listener::LoopbackRelay => report.loopback_relay.is_none(),
        Listener::Auth => report.auth.is_none(),
        Listener::Blossom => report.blossom.is_none() && report.blobs_local,
    }
}

/// What a peer wants of the blob server.
#[derive(Debug, Clone, Copy, PartialEq, Eq, Structural)]
pub enum BlobOp {
    Read,
    Write,
}

/// Whether a peer may do what it asks: reads and uploads are granted apart.
pub fn may_access_blobs(op: BlobOp, may_read: bool, may_upload: bool) -> (yes: bool)
    ensures
        yes == (match op {
            BlobOp::Read => may_read,
            BlobOp::Write => may_upload,
        }),
{
    match op {
        BlobOp::Read => may_read,
        BlobOp::Write => may_upload,
    }
}

/// A site to install, and whether its link is one.
#[derive(Debug, Clone)]
pub struct SiteLink {
    pub link: String,
    pub recognized: bool,
}

/// One step of installing the default sites.
pub enum SeedStep {
    /// List the site in the library.
    Pin { link: String },
    /// Fetch the site.
    Fetch { link: String },
    /// Write [`SEED_MARKER_CONTENTS`] to the path that [`seed_marker_in`] gives.
    WriteMarker,
}

/// The steps that install sites: each that is recognized is listed at once, so
/// that it shows before its blobs are there, and then fetched.
pub open spec fn install_steps(sites: Seq<SiteLink>) -> Seq<SeedStep>
    decreases sites.len(),
{
    if sites.len() == 0 {
        seq![]
    } else {
        let before = install_steps(sites.drop_last());
        if sites.last().recognized {
            before.push(SeedStep::Pin { link: sites.last().link }).push(
                SeedStep::Fetch { link: sites.last().link },
            )
        } else {
            before
        }
    }
}

/// The steps of the first run, and none on any other.
pub open spec fn seed_steps(marker_exists: bool, sites: Seq<SiteLink>) -> Seq<SeedStep> {
    if marker_exists {
        seq![]
    } else {
        install_steps(sites).push(SeedStep::WriteMarker)
    }
}

/// Installs the default sites, once per install. The marker keeps this from
/// happening again, so that a user who removes a default site stays rid of it.
pub fn seed_default_sites(marker_exists: bool, sites: &Vec<SiteLink>) -> (steps: Vec<SeedStep>)
    ensures
        steps@ == seed_steps(marker_exists, sites@),
{
    let mut steps: Vec<SeedStep> = Vec::new();
    if marker_exists {
        assert(steps@ =~= seq![]);
        return steps;
    }
    let mut i: usize = 0;
    assert(sites@.take(0) =~= seq![]);
    assert(steps@ =~= install_steps(sites@.take(0)));
    while i < sites.len()
        invariant
            i <= sites@.len(),
            steps@ == install_steps(sites@.take(i as int)),
        decreases sites@.len() - i,
    {
        assert(sites@.take(i + 1).drop_last() =~= sites@.take(i as int));
        if sites[i].recognized {
            steps.push(SeedStep::Pin { link: sites[i].link.clone() });
            steps.push(SeedStep::Fetch { link: sites[i].link.clone() });
        }
        i = i + 1;
    }
    assert(sites@.take(sites@.len() as int) =~= sites@);
    steps.push(SeedStep::WriteMarker);
    steps
}

/// Why the app could not start.
#[derive(Debug, Clone)]
pub enum StartupError {
    /// The data directory could not be made.
    DataDir(String),
    /// There is no task runtime.
    Runtime(String),
    /// The node could not be built.
    Build(BuildError),
    /// The content layer could not be opened.
    Content(String),
}

/// The text of a startup error.
pub open spec fn startup_error_text(e: StartupError) -> Seq<char> {
    match e {
        StartupError::DataDir(reason) => reason@,
        StartupError::Runtime(reason) => "tokio runtime: "@ + reason@,
        StartupError::Build(e) => crate::node_plan::build_error_text(e),
        StartupError::Content(reason) => reason@,
    }
}

impl StartupError {
    /// The error as text.
    pub fn message(&self) -> (text: String)
        ensures
            text@ == startup_error_text(*self),
    {
        match self {
            StartupError::DataDir(reason) => reason.clone(),
            StartupError::Runtime(reason) => glue("tokio runtime: ", reason.as_str()),
            StartupError::Build(e) => e.message(),
            StartupError::Content(reason) => reason.clone(),
        }
    }
}

/// Milliseconds since the Unix epoch, from what the clock says has passed since
/// then. A clock before the epoch counts as the epoch.
pub fn now_ms(since_epoch_ms: Option<u128>) -> (ms: u64)
    ensures
        ms as int == (match since_epoch_ms {
            Some(d) => d as int % 0x1_0000_0000_0000_0000,
            None => 0,
        }),
{
    match since_epoch_ms {
        Some(d) => (d % 0x1_0000_0000_0000_0000) as u64,
        None => 0,
    }
}

/// Where every service could be bound there is no warning, and where there is a
/// warning something could not be.
pub proof fn law_a_warning_means_a_failed_bind(report: BindReport)
    ensures
        joined(bind_notes(report)).len() == 0 <==> {
            &&& report.mesh_relay is None
            &&& report.loopback_relay is None
            &&& report.auth is None
            &&& (report.blossom is None || !report.blobs_local)
        },
{
    reveal_strlit("relay port 4870 unavailable (another app using it?): ");
    reveal_strlit("blossom port 24243 unavailable: ");
    reveal_strlit(")");
    let notes = bind_notes(report);
    assert forall|i: int| 0 <= i < notes.len() implies (#[trigger] notes[i]).len() > 0 by {
    }
    lemma_joined_len(notes);
}

proof fn lemma_joined_len(notes: Seq<Seq<char>>)
    requires
        forall|i: int| 0 <= i < notes.len() ==> (#[trigger] notes[i]).len() > 0,
    ensures
        joined(notes).len() == 0 <==> notes.len() == 0,
{
    if notes.len() > 1 {
        assert(notes.last().len() > 0);
    }
}

/// Whether a text stands somewhere in another.
pub open spec fn holds_text(text: Seq<char>, part: Seq<char>) -> bool {
    exists|at: int| #[trigger] stands_at(text, part, at)
}

/// Whether a text stands in another at this place.
pub open spec fn stands_at(text: Seq<char>, part: Seq<char>, at: int) -> bool {
    0 <= at <= at + part.len() <= text.len() && text.subrange(at, at + part.len()) == part
}

proof fn lemma_stands_within(text: Seq<char>, middle: Seq<char>, part: Seq<char>, at: int)
    requires
        stands_at(text, middle, at),
        holds_text(middle, part),
    ensures
        holds_text(text, part),
{
    let within = choose|k: int| #[trigger] stands_at(middle, part, k);
    assert(text.subrange(at + within, at + within + part.len()) =~= middle.subrange(
        within,
        within + part.len(),
    ));
    assert(stands_at(text, part, at + within));
}

proof fn lemma_joined_holds(notes: Seq<Seq<char>>, i: int, part: Seq<char>)
    requires
        0 <= i < notes.len(),
        holds_text(notes[i], part),
    ensures
        holds_text(joined(notes), part),
    decreases notes.len(),
{
    if notes.len() > 1 {
        let text = joined(notes);
        let before = joined(notes.drop_last());
        if i == notes.len() - 1 {
            let at = text.len() - notes[i].len();
            assert(text.subrange(at, at + notes[i].len()) =~= notes[i]);
            assert(stands_at(text, notes[i], at));
            lemma_stands_within(text, notes[i], part, at);
        } else {
            lemma_joined_holds(notes.drop_last(), i, part);
            assert(text.subrange(0, before.len() as int) =~= before);
            assert(stands_at(text, before, 0));
            lemma_stands_within(text, before, part, 0);
        }
    }
}

/// A relay that could not be bound, for peers or for the sites in the app, is
/// told with the words `port 4870`, whatever else is told: the UI looks for
/// them.
pub proof fn law_a_lost_relay_port_is_named(report: BindReport)
    requires
        report.mesh_relay is Some || report.loopback_relay is Some,
    ensures
        holds_text(joined(bind_notes(report)), "port 4870"@),
{
    let words = "port 4870"@;
    reveal_strlit("port 4870");
    let notes = bind_notes(report);
    if let Some(reason) = report.mesh_relay {
        reveal_strlit("relay port 4870 unavailable (another app using it?): ");
        let note = mesh_relay_note(reason@);
        assert(note.subrange(6, 15) =~= words);
        assert(stands_at(note, words, 6));
        assert(notes[0] == note);
    } else if let Some(reason) = report.loopback_relay {
        reveal_strlit(
            "Another app is using port 4870 — Myco's relay couldn't start, so apps will talk to the wrong relay. Close the other app and restart Myco. (",
        );
        let note = loopback_relay_note(reason@);
        assert(note.subrange(21, 30) =~= words);
        assert(stands_at(note, words, 21));
        assert(notes[0] == note);
    }
    lemma_joined_holds(notes, 0, words);
}

/// The default sites are installed once: where the marker of an earlier run is
/// there nothing is done, and a first run ends by writing it.
pub proof fn law_default_sites_are_installed_once(sites: Seq<SiteLink>)
    ensures
        seed_steps(true, sites) == Seq::<SeedStep>::empty(),
        seed_steps(false, sites).last() == SeedStep::WriteMarker,
{
}

/// Each service has its own address: the relay and the blob server have fixed
/// ports, and the auth plane listens on the port that was given.
pub proof fn law_each_service_has_its_address(auth_port: u16)
    ensures
        address_of(Listener::MeshRelay, auth_port) == "[::]:4870"@,
        address_of(Listener::LoopbackRelay, auth_port) == "127.0.0.1:4870"@,
        address_of(Listener::Auth, auth_port) == "[::]:"@ + crate::text::decimal(auth_port as nat),
        address_of(Listener::Blossom, auth_port) == "[::]:24243"@,
{
}

/// A warning with one note more: behind a semicolon where there was one already.
pub open spec fn with_note(warning: Seq<char>, note: Seq<char>) -> Seq<char> {
    if warning.len() == 0 {
        note
    } else {
        warning + "; "@ + note
    }
}

proof fn lemma_joined_push(notes: Seq<Seq<char>>, note: Seq<char>)
    requires
        forall|i: int| 0 <= i < notes.len() ==> (#[trigger] notes[i]).len() > 0,
    ensures
        joined(notes.push(note)) == with_note(joined(notes), note),
{
    lemma_joined_len(notes);
    assert(notes.push(note).drop_last() =~= notes);
}

/// The warning tells of each service that could not be bound, in the order mesh
/// relay, loopback relay, auth plane, blob server, each with its reason and each
/// once: one that could not be bound adds its note to the warning about those
/// before it, and one that could be adds nothing. A blob server is told of only
/// where it has blobs to serve.
pub proof fn law_each_lost_service_is_told_in_turn(report: BindReport)
    ensures
        ({
            let none = joined(
                bind_notes(
                    BindReport {
                        mesh_relay: None,
                        loopback_relay: None,
                        auth: None,
                        blossom: None,
                        ..report
                    },
                ),
            );
            let first = joined(
                bind_notes(
                    BindReport { loopback_relay: None, auth: None, blossom: None, ..report },
                ),
            );
            let second = joined(bind_notes(BindReport { auth: None, blossom: None, ..report }));
            let third = joined(bind_notes(BindReport { blossom: None, ..report }));
            let all = joined(bind_notes(report));
            &&& none.len() == 0
            &&& match report.mesh_relay {
                Some(e) => first == "relay port 4870 unavailable (another app using it?): "@ + e@,
                None => first.len() == 0,
            }
            &&& match report.loopback_relay {
                Some(e) => second == with_note(
                    first,
                    "Another app is using port 4870 — Myco's relay couldn't start, so apps will talk to the wrong relay. Close the other app and restart Myco. ("@
                        + e@ + ")"@,
                ),
                None => second == first,
            }
            &&& match report.auth {
                Some(e) => third == with_note(
                    second,
                    "Another app is using port "@ + crate::text::decimal(report.auth_port as nat)
                        + " — Myco can't accept pairing requests, so new peers won't be able to pair with this device. ("@
                        + e@ + ")"@,
                ),
                None => third == second,
            }
            &&& match report.blossom {
                Some(e) => all == (if report.blobs_local {
                    with_note(third, "blossom port 24243 unavailable: "@ + e@)
                } else {
                    third
                }),
                None => all == third,
            }
        }),
{
    reveal_strlit("relay port 4870 unavailable (another app using it?): ");
    reveal_strlit("blossom port 24243 unavailable: ");
    reveal_strlit(")");
    let none = bind_notes(
        BindReport { mesh_relay: None, loopback_relay: None, auth: None, blossom: None, ..report },
    );
    let first = bind_notes(
        BindReport { loopback_relay: None, auth: None, blossom: None, ..report },
    );
    let second = bind_notes(BindReport { auth: None, blossom: None, ..report });
    let third = bind_notes(BindReport { blossom: None, ..report });
    let all = bind_notes(report);
    assert(none =~= seq![]);
    match report.mesh_relay {
        Some(e) => {
            assert(first =~= seq![mesh_relay_note(e@)]);
        },
        None => {
            assert(first =~= seq![]);
        },
    }
    match report.loopback_relay {
        Some(e) => {
            assert(second =~= first.push(loopback_relay_note(e@)));
            lemma_joined_push(first, loopback_relay_note(e@));
        },
        None => {
            assert(second =~= first);
        },
    }
    match report.auth {
        Some(e) => {
            assert(third =~= second.push(auth_note(report.auth_port, e@)));
            lemma_joined_push(second, auth_note(report.auth_port, e@));
        },
        None => {
            assert(third =~= second);
        },
    }
    match report.blossom {
        Some(e) => {
            if report.blobs_local {
                assert(all =~= third.push(blossom_note(e@)));
                lemma_joined_push(third, blossom_note(e@));
            } else {
                assert(all =~= third);
            }
        },
        None => {
            assert(all =~= third);
        },
    }
}

/// A service is offered exactly where it was bound; the blob server only where
/// it also has blobs to serve.
pub proof fn law_what_was_bound_is_served(report: &BindReport, yes: bool)
    ensures
        call_ensures(serves, (Listener::MeshRelay, report), yes) ==> yes
            == report.mesh_relay is None,
        call_ensures(serves, (Listener::LoopbackRelay, report), yes) ==> yes
            == report.loopback_relay is None,
        call_ensures(serves, (Listener::Auth, report), yes) ==> yes == report.auth is None,
        call_ensures(serves, (Listener::Blossom, report), yes) ==> yes == (report.blossom is None
            && report.blobs_local),
{
}

/// Who may read may read, and who may upload may upload: neither says anything
/// of the other.
pub proof fn law_reading_and_uploading_are_granted_apart(granted: bool, other: bool, yes: bool)
    ensures
        call_ensures(may_access_blobs, (BlobOp::Read, granted, other), yes) ==> yes == granted,
        call_ensures(may_access_blobs, (BlobOp::Write, other, granted), yes) ==> yes == granted,
{
}

/// One site more to install is listed and then fetched, after the others, where
/// its link is one, and is passed over otherwise. A first run installs the sites
/// and then writes the marker; a later one does nothing.
pub proof fn law_a_site_is_listed_and_then_fetched(sites: Seq<SiteLink>, site: SiteLink)
    ensures
        install_steps(seq![]) == Seq::<SeedStep>::empty(),
        site.recognized ==> install_steps(sites.push(site)) == install_steps(sites) + seq![
            SeedStep::Pin { link: site.link },
            SeedStep::Fetch { link: site.link },
        ],
        !site.recognized ==> install_steps(sites.push(site)) == install_steps(sites),
        seed_steps(false, sites) == install_steps(sites) + seq![SeedStep::WriteMarker],
        seed_steps(true, sites).len() == 0,
{
    assert(sites.push(site).drop_last() =~= sites);
    if site.recognized {
        assert(install_steps(sites.push(site)) =~= install_steps(sites) + seq![
            SeedStep::Pin { link: site.link },
            SeedStep::Fetch { link: site.link },
        ]);
    }
    assert(seed_steps(false, sites) =~= install_steps(sites) + seq![SeedStep::WriteMarker]);
}

/// A start builds the node with the pool that the settings report, then opens
/// the content layer on the servers that are configured, then readies it, in
/// this order on every platform. On Android it goes on to serve the mesh.
pub proof fn law_a_start_goes_in_order(settings: Settings)
    ensures
        ({
            let host = steps_of_a_start(settings, false);
            let phone = steps_of_a_start(settings, true);
            &&& host.len() == 6
            &&& phone.len() == 9
            &&& phone.take(6) == host
            &&& host[0] == StartupStepModel::BuildNode {
                wifi_aware: false,
                aware_slots: crate::lanes::slots_for(settings.aware_data_paths),
            }
            &&& host[1] == StartupStepModel::OpenContent {
                relay: crate::settings_store::url_of(
                    crate::settings_store::text_of(settings.custom_relay_url),
                ),
                blobs: crate::settings_store::url_of(
                    crate::settings_store::text_of(settings.custom_blossom_url),
                ),
            }
            &&& host[2] == StartupStepModel::SetDeviceKeys
            &&& host[3] == StartupStepModel::SetSource
            &&& host[4] == StartupStepModel::RefreshLibrary
            &&& host[5] == StartupStepModel::SeedDefaultSites
            &&& phone[6] == StartupStepModel::BindServices
            &&& phone[7] == StartupStepModel::DrainPlatformPeers
            &&& phone[8] == StartupStepModel::TickPeers
        }),
{
    assert(steps_of_a_start(settings, true).take(6) =~= steps_of_a_start(settings, false));
}

/// A start that failed says the reason that was given, and that it was the task
/// runtime or the node where it was.
pub proof fn law_a_startup_error_says_its_reason(reason: String)
    ensures
        startup_error_text(StartupError::DataDir(reason)) == reason@,
        startup_error_text(StartupError::Runtime(reason)) == "tokio runtime: "@ + reason@,
        startup_error_text(StartupError::Content(reason)) == reason@,
        startup_error_text(StartupError::Build(BuildError::Identity(reason))) == reason@,
        startup_error_text(StartupError::Build(BuildError::Node(reason)))
            == "fips Node::new failed: "@ + reason@,
{
}

/// The clock counts milliseconds since the epoch as far as they fit, and a clock
/// before the epoch stands at it.
pub proof fn law_the_clock_counts_from_the_epoch(d: u128, ms: u64)
    ensures
        call_ensures(now_ms, (None::<u128>,), ms) ==> ms == 0,
        call_ensures(now_ms, (Some(d),), ms) && d <= u64::MAX ==> ms == d,
        call_ensures(now_ms, (Some(d),), ms) ==> ms as int == d as int % 0x1_0000_0000_0000_0000,
{
}

} // verus!
