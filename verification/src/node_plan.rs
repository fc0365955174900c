//! How the embedded mesh node is configured.

use vstd::prelude::*;

use crate::lanes::{
    AWARE_UDP_BASE_PORT, AWARE_UDP_INSTANCES, AWARE_UDP_INSTANCE_COUNT, LAN_UDP_INSTANCE,
    LAN_UDP_PORT,
};
use crate::text::{decimal_text, glue};

verus! {

/// One UDP transport instance.
#[derive(Debug, Clone)]
pub struct UdpInstance {
    pub name: String,
    pub port: u16,
    /// Where it binds: the port on every address.
    pub bind_addr: String,
}

/// The configuration of a node.
#[derive(Debug, Clone)]
pub struct NodePlan {
    /// The identity is kept across restarts.
    pub identity_persistent: bool,
    /// The node runs its own TUN.
    pub tun_enabled: bool,
    /// The node answers `.fips` queries itself.
    pub dns_enabled: bool,
    pub dns_port: Option<u16>,
    /// The node serves a control socket.
    pub control_enabled: bool,
    pub control_socket_path: String,
    /// There is a BLE transport, and whether it connects by itself.
    pub ble_auto_connect: Option<bool>,
    /// The UDP transports, where there are any.
    pub udp: Option<Vec<UdpInstance>>,
}

/// What a [`UdpInstance`] holds.
pub struct UdpInstanceModel {
    pub name: Seq<char>,
    pub port: nat,
    pub bind_addr: Seq<char>,
}

/// What a [`NodePlan`] holds.
pub struct NodePlanModel {
    pub identity_persistent: bool,
    pub tun_enabled: bool,
    pub dns_enabled: bool,
    pub dns_port: Option<u16>,
    pub control_enabled: bool,
    pub control_socket_path: Seq<char>,
    pub ble_auto_connect: Option<bool>,
    pub udp: Option<Seq<UdpInstanceModel>>,
}

impl View for UdpInstance {
    type V = UdpInstanceModel;

    open spec fn view(&self) -> UdpInstanceModel {
        UdpInstanceModel {
            name: self.name@,
            port: self.port as nat,
            bind_addr: self.bind_addr@,
        }
    }
}

impl View for NodePlan {
    type V = NodePlanModel;

    open spec fn view(&self) -> NodePlanModel {
        NodePlanModel {
            identity_persistent: self.identity_persistent,
            tun_enabled: self.tun_enabled,
            dns_enabled: self.dns_enabled,
            dns_port: self.dns_port,
            control_enabled: self.control_enabled,
            control_socket_path: self.control_socket_path@,
            ble_auto_connect: self.ble_auto_connect,
            udp: match self.udp {
                Some(udp) => Some(udp@.map_values(|u: UdpInstance| u@)),
                None => None,
            },
        }
    }
}

/// An instance of this name that listens on this port of every address.
pub open spec fn instance(name: Seq<char>, port: nat) -> UdpInstanceModel {
    UdpInstanceModel { name, port, bind_addr: "[::]:"@ + crate::text::decimal(port) }
}

/// How many of `slots` slots there are names for.
pub open spec fn bound_slots(slots: u8) -> nat {
    if slots <= AWARE_UDP_INSTANCE_COUNT {
        slots as nat
    } else {
        AWARE_UDP_INSTANCE_COUNT as nat
    }
}

/// The UDP transports of a node with a pool of this size: the LAN/AP lane's,
/// then the pool's, slot by slot.
pub open spec fn udp_instances(slots: u8) -> Seq<UdpInstanceModel> {
    Seq::new(
        1 + bound_slots(slots),
        |i: int|
            if i == 0 {
                instance(LAN_UDP_INSTANCE@, LAN_UDP_PORT as nat)
            } else {
                instance(
                    crate::lanes::aware_instance((i - 1) as nat),
                    crate::lanes::port_of_slot((i - 1) as nat),
                )
            },
    )
}

/// The configuration of a node. The TUN is the app's own, so the node has none;
/// the DNS responder and the control socket are the node's, and the app depends
/// on both.
pub open spec fn planned(
    control_socket_path: Seq<char>,
    wifi_aware: bool,
    android: bool,
    aware_slots: u8,
) -> NodePlanModel {
    NodePlanModel {
        identity_persistent: true,
        tun_enabled: false,
        dns_enabled: true,
        dns_port: Some(0),
        control_enabled: true,
        control_socket_path,
        ble_auto_connect: if android {
            Some(true)
        } else {
            None
        },
        udp: if wifi_aware || android {
            Some(udp_instances(aware_slots))
        } else {
            None
        },
    }
}

fn udp_instance(name: &str, port: u16) -> (u: UdpInstance)
    ensures
        u@ == instance(name@, port as nat),
{
    let digits: String = decimal_text(port as u64);
    UdpInstance { name: name.to_owned(), port, bind_addr: glue("[::]:", digits.as_str()) }
}

/// Plans a node.
///
/// On Android the BLE and UDP transports are configured whether Wi-Fi Aware is
/// on or not, so that the toggle never touches the node. Elsewhere `wifi_aware`
/// adds the UDP transports, as the lane's stand-in on a plain LAN. DNS port 0
/// lets the system pick one: the address is read back off the bound socket.
pub fn build_node(
    control_socket_path: &str,
    wifi_aware: bool,
    android: bool,
    aware_slots: u8,
) -> (plan: NodePlan)
    ensures
        plan@ == planned(control_socket_path@, wifi_aware, android, aware_slots),
{
    let mut udp: Option<Vec<UdpInstance>> = None;
    if wifi_aware || android {
        let mut instances: Vec<UdpInstance> = Vec::new();
        instances.push(udp_instance(LAN_UDP_INSTANCE, LAN_UDP_PORT));
        let mut slot: u8 = 0;
        proof {
            crate::lanes::lemma_instance_table();
        }
        while slot < aware_slots && slot < AWARE_UDP_INSTANCE_COUNT
            invariant
                slot <= bound_slots(aware_slots),
                instances@.len() == 1 + slot,
                forall|s: nat|
                    s < AWARE_UDP_INSTANCE_COUNT ==> AWARE_UDP_INSTANCES@[s as int]@
                        == #[trigger] crate::lanes::aware_instance(s),
                forall|i: int|
                    0 <= i < instances@.len() ==> #[trigger] instances@[i]@ == udp_instances(
                        aware_slots,
                    )[i],
            decreases AWARE_UDP_INSTANCE_COUNT - slot,
        {
            let name: &'static str = AWARE_UDP_INSTANCES[slot as usize];
            assert(name@ == crate::lanes::aware_instance(slot as nat));
            instances.push(udp_instance(name, AWARE_UDP_BASE_PORT + slot as u16));
            slot = slot + 1;
        }
        assert(instances@.map_values(|u: UdpInstance| u@) =~= udp_instances(aware_slots));
        udp = Some(instances);
    }
    NodePlan {
        identity_persistent: true,
        tun_enabled: false,
        dns_enabled: true,
        dns_port: Some(0),
        control_enabled: true,
        control_socket_path: control_socket_path.to_owned(),
        ble_auto_connect: if android {
            Some(true)
        } else {
            None
        },
        udp,
    }
}

/// Why a node could not be built.
#[derive(Debug, Clone)]
pub enum BuildError {
    /// The identity could not be read or made.
    Identity(String),
    /// The node refused its configuration.
    Node(String),
}

/// The text of a build error.
pub open spec fn build_error_text(e: BuildError) -> Seq<char> {
    match e {
        BuildError::Identity(reason) => reason@,
        BuildError::Node(reason) => "fips Node::new failed: "@ + reason@,
    }
}

impl BuildError {
    /// The error as text.
    pub fn message(&self) -> (text: String)
        ensures
            text@ == build_error_text(*self),
    {
        match self {
            BuildError::Identity(reason) => reason.clone(),
            BuildError::Node(reason) => glue("fips Node::new failed: ", reason.as_str()),
        }
    }
}

/// The largest TCP segment that fits the mesh: its IPv6 MTU without the IPv6
/// and TCP headers.
pub fn max_mss(effective_ipv6_mtu: u16) -> (mss: u16)
    ensures
        mss == (if effective_ipv6_mtu >= 60 {
            effective_ipv6_mtu - 60
        } else {
            0
        }),
{
    if effective_ipv6_mtu >= 60 {
        effective_ipv6_mtu - 60
    } else {
        0
    }
}

/// No two transports of a plan share a name or a port.
pub proof fn law_transports_do_not_collide(slots: u8, i: int, j: int)
    requires
        0 <= i < j < udp_instances(slots).len(),
    ensures
        udp_instances(slots)[i].name != udp_instances(slots)[j].name,
        udp_instances(slots)[i].port != udp_instances(slots)[j].port,
{
    crate::lanes::law_instances_are_distinct((j - 1) as nat, (j - 1) as nat);
    if i > 0 {
        crate::lanes::law_instances_are_distinct((i - 1) as nat, (j - 1) as nat);
    }
}

/// A node that is planned with a pool sized by a report binds exactly that
/// many slots: each slot's lane is routed to a transport that the plan has, on
/// the slot's own port, and any label that names no slot to the LAN/AP one.
pub proof fn law_every_bound_slot_can_be_dialled(reported: Option<u8>, slot: nat)
    requires
        slot < crate::lanes::slots_for(reported),
    ensures
        ({
            let slots = crate::lanes::slots_for(reported);
            let lane = crate::lanes::aware_instance(slot);
            let transports = udp_instances(slots);
            &&& transports.len() == 1 + slots
            &&& transports[1 + slot as int].name == crate::lanes::instance_for_lane(lane)
            &&& transports[1 + slot as int].port == crate::lanes::port_of_slot(slot)
            &&& transports[0].name == LAN_UDP_INSTANCE@
            &&& crate::lanes::instance_for_lane(LAN_UDP_INSTANCE@) == LAN_UDP_INSTANCE@
        }),
{
    crate::lanes::law_every_slot_rides_its_own_instance(reported, slot);
    crate::lanes::law_routing_stays_in_the_table(LAN_UDP_INSTANCE@);
    reveal_strlit("lan");
    reveal_strlit("aware");
}

/// On Android the Wi-Fi Aware toggle does not change how a node is configured,
/// so flipping it cannot call for a restart.
pub proof fn law_the_aware_toggle_leaves_the_node_alone(path: Seq<char>, slots: u8)
    ensures
        planned(path, true, true, slots) == planned(path, false, true, slots),
{
}

/// Whatever the path, the toggle, the platform and the pool are: the control
/// socket is served at the path that was given, the node answers `.fips` queries
/// on a port that the system picks, it has no TUN of its own, and its identity
/// is kept. The platform and the toggle decide on the radio transports alone.
pub proof fn law_every_node_has_its_subsystems(
    path: &str,
    wifi_aware: bool,
    android: bool,
    slots: u8,
    plan: NodePlan,
    i: int,
)
    requires
        call_ensures(build_node, (path, wifi_aware, android, slots), plan),
    ensures
        plan.control_enabled,
        plan.control_socket_path@ == path@,
        plan.dns_enabled,
        plan.dns_port == Some(0u16),
        !plan.tun_enabled,
        plan.identity_persistent,
        android ==> plan.ble_auto_connect == Some(true),
        !android ==> plan.ble_auto_connect is None,
        plan.udp is Some <==> wifi_aware || android,
        plan.udp matches Some(udp) ==> {
            &&& udp@.len() == udp_instances(slots).len()
            &&& 0 <= i < udp@.len() ==> {
                &&& udp@[i].name@ == udp_instances(slots)[i].name
                &&& udp@[i].port == udp_instances(slots)[i].port
                &&& udp@[i].bind_addr@ == "[::]:"@ + crate::text::decimal(udp@[i].port as nat)
            }
        },
{
    if let Some(udp) = plan.udp {
        let shown = udp@.map_values(|u: UdpInstance| u@);
        assert(shown == udp_instances(slots));
        if 0 <= i < udp@.len() {
            assert(shown[i] == udp@[i]@);
            law_the_transports_are_the_lanes(slots, i);
        }
    }
}

/// The subsystems of a plan do not depend on the toggle, the platform or the
/// pool.
pub proof fn law_subsystems_do_not_depend_on_the_platform(
    path: Seq<char>,
    wifi_aware: bool,
    android: bool,
    slots: u8,
)
    ensures
        ({
            let plan = planned(path, wifi_aware, android, slots);
            &&& plan.control_enabled
            &&& plan.control_socket_path == path
            &&& plan.dns_enabled
            &&& plan.dns_port == Some(0u16)
            &&& !plan.tun_enabled
            &&& plan.identity_persistent
            &&& plan.ble_auto_connect == (if android {
                Some(true)
            } else {
                None
            })
            &&& plan.udp is Some <==> wifi_aware || android
            &&& plan.udp is Some ==> plan.udp->0 == udp_instances(slots)
        }),
{
}

/// A plan's first transport is the LAN/AP lane's, on port 4871. Behind it stands
/// one for each slot of the pool, up to eight, under the slot's own name and on
/// the slot's own port. Each listens on its port of every address.
pub proof fn law_the_transports_are_the_lanes(slots: u8, i: int)
    requires
        0 <= i < udp_instances(slots).len(),
    ensures
        ({
            let transports = udp_instances(slots);
            &&& slots <= 8 ==> transports.len() == 1 + slots
            &&& slots > 8 ==> transports.len() == 9
            &&& transports[0].name == "lan"@
            &&& transports[0].port == 4871
            &&& i > 0 ==> transports[i].name == "aware"@.push((48 + (i - 1)) as char)
            &&& i > 0 ==> transports[i].port == 4871 + i
            &&& transports[i].bind_addr == "[::]:"@ + crate::text::decimal(transports[i].port)
        }),
{
}

/// The largest segment and the headers fill the mesh's MTU, where the headers
/// fit into it.
pub proof fn law_segments_leave_room_for_headers(mtu: u16, mss: u16)
    requires
        call_ensures(max_mss, (mtu,), mss),
    ensures
        mtu >= 60 ==> mss + 60 == mtu,
        mtu < 60 ==> mss == 0,
{
}

/// A build error says its reason, and whose it is where the node refused.
pub proof fn law_a_build_error_says_its_reason(reason: String)
    ensures
        build_error_text(BuildError::Identity(reason)) == reason@,
        build_error_text(BuildError::Node(reason)) == "fips Node::new failed: "@ + reason@,
{
}

} // verus!
