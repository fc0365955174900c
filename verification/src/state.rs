//! The snapshot that the UI reads.

use vstd::prelude::*;

use crate::peer_feed::BlePeer;
use crate::speedtest::SpeedtestView;

verus! {

/// The device's identity.
#[derive(Debug, Clone)]
pub struct IdentityView {
    pub own_npub: String,
    pub own_pubkey_hex: String,
    pub fips_addr: String,
    /// The mesh's effective IPv6 MTU.
    pub fips_mtu: u16,
}

/// What an [`IdentityView`] holds.
pub struct IdentityModel {
    pub own_npub: Seq<char>,
    pub own_pubkey_hex: Seq<char>,
    pub fips_addr: Seq<char>,
    pub fips_mtu: u16,
}

impl View for IdentityView {
    type V = IdentityModel;

    open spec fn view(&self) -> IdentityModel {
        IdentityModel {
            own_npub: self.own_npub@,
            own_pubkey_hex: self.own_pubkey_hex@,
            fips_addr: self.fips_addr@,
            fips_mtu: self.fips_mtu,
        }
    }
}

impl IdentityModel {
    /// No identity.
    pub open spec fn none() -> IdentityModel {
        IdentityModel { own_npub: seq![], own_pubkey_hex: seq![], fips_addr: seq![], fips_mtu: 0 }
    }
}

impl Default for IdentityView {
    fn default() -> (identity: IdentityView)
        ensures
            identity@ == IdentityModel::none(),
    {
        IdentityView {
            own_npub: String::new(),
            own_pubkey_hex: String::new(),
            fips_addr: String::new(),
            fips_mtu: 0,
        }
    }
}

impl IdentityView {
    /// The same identity once more.
    pub fn copied(&self) -> (copy: IdentityView)
        ensures
            copy == *self,
    {
        IdentityView {
            own_npub: self.own_npub.clone(),
            own_pubkey_hex: self.own_pubkey_hex.clone(),
            fips_addr: self.fips_addr.clone(),
            fips_mtu: self.fips_mtu,
        }
    }
}

/// How the node is doing.
#[derive(Debug, Clone)]
pub struct NodeStatus {
    pub running: bool,
    pub status_text: String,
}

/// How the BLE radio is doing. What is not known is shown as unknown, not as
/// off.
#[derive(Debug, Clone)]
pub struct BleStatus {
    pub enabled: bool,
    pub role: String,
    pub scanning: bool,
    pub scanning_known: bool,
    pub advertising: bool,
    pub advertising_known: bool,
    pub adapter_name: String,
}

/// A scan advert seen by the BLE radio.
#[derive(Debug, Clone)]
pub struct BleAdvert {
    pub address: String,
    pub psm: u16,
    pub rssi: Option<i16>,
}

/// How the Wi-Fi Aware lane is doing.
#[derive(Debug, Clone, Copy, PartialEq, Eq, Structural)]
pub struct WifiAwareStatus {
    pub enabled: bool,
    pub port: u16,
    /// How many slots the node has bound.
    pub slots: u8,
    pub scanning: bool,
    pub scanning_known: bool,
}

/// What the radios last said of themselves; `None` where they have not said
/// anything, or where there is no such radio.
#[derive(Debug, Clone, Copy, PartialEq, Eq, Structural)]
pub struct RadioFlags {
    pub ble_scanning: Option<bool>,
    pub ble_advertising: Option<bool>,
    pub aware_discovering: Option<bool>,
}

/// What the content layer reports: whether it is kept off the internet, and the
/// snapshots it hands on to the UI.
#[derive(Debug, Clone)]
pub struct ContentReport<C> {
    pub offline_only: bool,
    pub snapshots: C,
}

/// The snapshot that the UI reads. `C` are the content layer's own snapshots
/// and `P` the merged peer rows; both are handed on as they are.
pub struct AppState<C, P> {
    pub rev: u64,
    pub error: String,
    pub app_version: String,
    pub identity: IdentityView,
    pub node: NodeStatus,
    pub ble: BleStatus,
    pub ble_peers: Vec<BlePeer>,
    pub ble_adverts: Vec<BleAdvert>,
    pub wifi_aware: WifiAwareStatus,
    pub offline_only: bool,
    pub pending_relay_url: String,
    pub pending_blossom_url: String,
    pub speedtest: SpeedtestView,
    pub content: C,
    pub peers: P,
}

/// A flag and whether it is known: what is not known counts as off.
pub open spec fn flag_of(said: Option<bool>) -> (bool, bool) {
    match said {
        Some(v) => (v, true),
        None => (false, false),
    }
}

fn flag(said: Option<bool>) -> (r: (bool, bool))
    ensures
        r == flag_of(said),
{
    match said {
        Some(v) => (v, true),
        None => (false, false),
    }
}

impl RadioFlags {
    /// What the BLE radio said: scanning and whether that is known, advertising
    /// and whether that is known.
    pub fn ble_radio_state(&self) -> (r: (bool, bool, bool, bool))
        ensures
            (r.0, r.1) == flag_of(self.ble_scanning),
            (r.2, r.3) == flag_of(self.ble_advertising),
    {
        let (scanning, scanning_known) = flag(self.ble_scanning);
        let (advertising, advertising_known) = flag(self.ble_advertising);
        (scanning, scanning_known, advertising, advertising_known)
    }

    /// What the Wi-Fi Aware radio said: discovering, and whether that is known.
    pub fn aware_radio_state(&self) -> (r: (bool, bool))
        ensures
            r == flag_of(self.aware_discovering),
    {
        flag(self.aware_discovering)
    }
}

/// What a radio said is shown as known, and as it was said; what it has not said
/// is shown as off and unknown.
pub proof fn law_a_radio_is_shown_as_it_said(
    radios: &RadioFlags,
    ble: (bool, bool, bool, bool),
    aware: (bool, bool),
)
    requires
        call_ensures(RadioFlags::ble_radio_state, (radios,), ble),
        call_ensures(RadioFlags::aware_radio_state, (radios,), aware),
    ensures
        ble.1 == radios.ble_scanning is Some,
        ble.0 == (radios.ble_scanning == Some(true)),
        ble.3 == radios.ble_advertising is Some,
        ble.2 == (radios.ble_advertising == Some(true)),
        aware.1 == radios.aware_discovering is Some,
        aware.0 == (radios.aware_discovering == Some(true)),
{
}

} // verus!
