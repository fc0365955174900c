//! What the UI asks for, and what the runtime asks of the world in turn.

use vstd::prelude::*;

use crate::settings_store::SettingChange;

verus! {

/// An action of the UI.
#[derive(Debug, Clone)]
pub enum NativeAppAction {
    GetState,
    Tick,
    StartNode,
    StopNode,
    SetBleEnabled { enabled: bool },
    SetWifiAwareEnabled { enabled: bool },
    OpenNsite { link: String, holder: Option<String> },
    ImportNsite { dir: String },
    AddToLibrary { link: String },
    RemoveFromLibrary { link: String },
    ForgetNsite { link: String },
    CheckNsiteUpdates,
    SearchNsites { query: String },
    WipeStores,
    WipeCache,
    AddToCircle { npub: String, name: String },
    RemoveFromCircle { npub: String },
    SendPairRequest { npub: String, name: String, secret: String },
    CancelPairInvite { npub: String },
    AcceptPairRequest { npub: String, name: String },
    DeclinePairRequest { npub: String },
    SetOfflineOnly { enabled: bool },
    SetCustomRelay { url: String },
    SetCustomBlossom { url: String },
    SetAwareDataPaths { count: u8 },
    SetDeviceName { name: String },
    SpeedtestPeer { npub: String },
    ShareFile { path: String, name: String, mime: String, peer_npub: String },
    AcceptFileTransfer { transfer_id: String },
    DeclineFileTransfer { transfer_id: String },
    CancelFileTransfer { transfer_id: String },
    ForgetFileTransfer { transfer_id: String },
}

/// What is seen of the world when an action comes in.
#[derive(Debug, Clone, Copy, PartialEq, Eq, Structural)]
pub struct Seen {
    /// The loop task at hand has finished.
    pub loop_finished: bool,
    /// The link that the action holds, if it holds one, is a site's.
    pub link_recognized: bool,
}

/// What to wipe.
#[derive(Debug, Clone, Copy, PartialEq, Eq, Structural)]
pub enum Wipe {
    /// All local content.
    Stores,
    /// Cached content; pinned sites stay.
    Cache,
}

/// Work outside the runtime, to be done in the order in which it is given.
#[derive(Debug, Clone)]
pub enum Command {
    /// Read the settings, change one, write them back, and report with
    /// `settings_saved`.
    UpdateSettings { change: SettingChange },
    /// Build a node, and report with `node_built`.
    BuildNode { wifi_aware: bool },
    /// Move the node at hand into a new loop task.
    SpawnLoop,
    /// Give up the node at hand.
    DropNode,
    /// Give up a loop task that finished on its own, and its signal.
    ForgetLoop,
    /// Tell the loop task to drain.
    SignalShutdown,
    /// Wait for the loop task to finish, aside, and report with
    /// `node_drained`.
    WatchDrain,
    /// Take the DNS responder's address back.
    RetractResponder,
    /// Measure the link to a peer with this payload, aside, and report with
    /// `speedtest_run`.
    MeasureLink { npub: String, bytes: u64 },
    /// Wipe content, wait for it, and report with `wiped`.
    Wipe { what: Wipe },
    /// Sync a site, aside.
    OpenSite { link: String, holder: Option<String> },
    /// Side-load a bundle, aside.
    ImportDir { dir: String },
    AddToLibrary { link: String },
    RemoveFromLibrary { link: String },
    ForgetSite { link: String },
    /// Look for newer versions of sites, aside.
    CheckUpdates,
    /// Look for sites of Circle peers, aside.
    DiscoverFromCircle,
    AddToCircle { npub: String, name: String },
    RemoveFromCircle { npub: String },
    /// Tell a peer that it has been removed, aside.
    SendUnpair { npub: String },
    /// Ask a peer to pair, aside.
    SendPairRequest { npub: String, name: String, secret: String },
    ForgetOutboundPair { npub: String },
    /// Accept a peer's request, aside.
    AcceptPairRequest { npub: String, name: String },
    DeclinePairRequest { npub: String },
    SetOfflineOnly { enabled: bool },
    SetDeviceName { name: String },
    /// Offer a file to a peer, aside.
    ShareFile { path: String, name: String, mime: String, peer_npub: String },
    /// Answer a file offer, aside.
    RespondFileTransfer { transfer_id: String, accept: bool },
    /// Cancel a file transfer, aside.
    CancelFileTransfer { transfer_id: String },
    ForgetFileTransfer { transfer_id: String },
}

/// Work that follows a snapshot or a look at the peers.
#[derive(Debug, Clone)]
pub enum FollowUp {
    /// Write the attempt history to disk, aside.
    FlushAttempts,
    /// Tell the content layer which peers are connected.
    SetConnected { npubs: Vec<String> },
    /// Try again to fetch the sites that are not ready, aside.
    RetryLibrary,
    /// Keep the relay links to the Circle warm.
    Keepwarm,
}

/// What a [`FollowUp`] asks for.
pub enum FollowUpModel {
    FlushAttempts,
    SetConnected { npubs: Seq<String> },
    RetryLibrary,
    Keepwarm,
}

impl View for FollowUp {
    type V = FollowUpModel;

    open spec fn view(&self) -> FollowUpModel {
        match self {
            FollowUp::FlushAttempts => FollowUpModel::FlushAttempts,
            FollowUp::SetConnected { npubs } => FollowUpModel::SetConnected { npubs: npubs@ },
            FollowUp::RetryLibrary => FollowUpModel::RetryLibrary,
            FollowUp::Keepwarm => FollowUpModel::Keepwarm,
        }
    }
}

/// A list of what follows, as it asks for it.
pub open spec fn asked(follow_ups: Seq<FollowUp>) -> Seq<FollowUpModel> {
    follow_ups.map_values(|f: FollowUp| f@)
}

} // verus!
