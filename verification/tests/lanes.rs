use myco_core::lanes::{
    aware_udp_slots, lane_family, udp_instance_for_lane, AWARE_UDP_BASE_PORT,
    AWARE_UDP_DEFAULT_SLOTS, AWARE_UDP_INSTANCES, LAN_UDP_INSTANCE, LAN_UDP_PORT,
};
use myco_core::text::{decimal_text, glue, same_text};

/// The lane label a radio pushes and the instance the dial is routed to meet
/// only here, and a mismatch is invisible until a handshake times out.
#[test]
fn every_aware_slot_maps_to_its_own_instance() {
    for (slot, instance) in AWARE_UDP_INSTANCES.iter().enumerate() {
        assert_eq!(udp_instance_for_lane(&format!("aware{slot}")), *instance);
    }
    // Distinct instances, so distinct sockets: the whole point of the pool.
    let unique: std::collections::HashSet<_> = AWARE_UDP_INSTANCES.iter().collect();
    assert_eq!(unique.len(), AWARE_UDP_INSTANCES.len());
}

/// The pool follows the chipset, and the clamps exist because the number comes
/// from outside.
#[test]
fn the_pool_is_sized_by_the_chipset_within_bounds() {
    assert_eq!(aware_udp_slots(Some(2)), 2); // Galaxy A52s
    assert_eq!(aware_udp_slots(Some(8)), 8); // Pixel 7 Pro
    assert_eq!(aware_udp_slots(None), AWARE_UDP_DEFAULT_SLOTS);
    assert_eq!(aware_udp_slots(Some(0)), 1);
    assert_eq!(
        aware_udp_slots(Some(255)),
        AWARE_UDP_INSTANCES.len() as u8,
        "a report beyond the names we have must not configure one we cannot pin"
    );
    // Whatever the size, every slot in it has an instance to name.
    for reported in 0..=12u8 {
        let slots = aware_udp_slots(Some(reported)) as usize;
        assert!(slots >= 1 && slots <= AWARE_UDP_INSTANCES.len());
        assert_eq!(
            udp_instance_for_lane(&format!("aware{}", slots - 1)),
            AWARE_UDP_INSTANCES[slots - 1]
        );
    }
}

/// A radio from before the pool existed pushes a bare `"aware"` and listens on
/// the base port, which is slot 0's.
#[test]
fn a_bare_aware_lane_takes_slot_zero() {
    assert_eq!(udp_instance_for_lane("aware"), AWARE_UDP_INSTANCES[0]);
}

/// Everything else is the AP lane.
#[test]
fn unknown_lanes_fall_back_to_the_lan_instance() {
    for lane in ["udp", "", "aware9", "awares", "lan"] {
        assert_eq!(udp_instance_for_lane(lane), LAN_UDP_INSTANCE);
    }
}

/// The app reports which radio saw a peer, which is one fact however many
/// sockets the lane owns, so the slot digits come off.
#[test]
fn lane_family_strips_the_slot() {
    assert_eq!(lane_family("aware0"), "aware");
    assert_eq!(lane_family("aware3"), "aware");
    assert_eq!(lane_family("aware"), "aware");
    assert_eq!(lane_family("udp"), "udp");
    // All digits: nothing to strip down to, so it is left alone.
    assert_eq!(lane_family("42"), "42");
}

#[test]
fn lane_family_leaves_anything_but_an_aware_slot_unchanged() {
    assert_eq!(lane_family("aware12"), "aware");
    for lane in ["", "7", "udp4", "lan0", "a1b22", "12x34", "awares1", "Aware2", "lan\u{e9}12"] {
        assert_eq!(lane_family(lane), lane);
    }
    // An Arabic-Indic digit is no ASCII digit.
    assert_eq!(lane_family("aware\u{663}"), "aware\u{663}");
    for lane in ["aware7", "udp", "udp4", "99", "x9y9", ""] {
        assert_eq!(lane_family(lane_family(lane)), lane_family(lane));
    }
}

#[test]
fn a_slot_just_past_the_pool_rides_the_lan() {
    assert_eq!(udp_instance_for_lane("aware7"), "aware7");
    assert_eq!(udp_instance_for_lane("aware8"), "lan");
    assert_eq!(udp_instance_for_lane("aware07"), "lan");
    assert_eq!(udp_instance_for_lane("Aware0"), "lan");
    assert_eq!(udp_instance_for_lane(" aware0"), "lan");
}

#[test]
fn routing_an_instance_gives_it_back() {
    for lane in ["aware", "aware0", "aware5", "lan", "udp", "", "aware12"] {
        let once = udp_instance_for_lane(lane);
        assert_eq!(udp_instance_for_lane(once), once);
    }
}

#[test]
fn the_slots_share_a_family() {
    for slot in 0..8 {
        let lane = format!("aware{slot}");
        assert_eq!(lane_family(&lane), "aware");
        assert_eq!(udp_instance_for_lane(lane_family(&lane)), "aware0");
    }
}

#[test]
fn the_ports_are_the_documented_ones() {
    assert_eq!(LAN_UDP_PORT, 4871);
    assert_eq!(AWARE_UDP_BASE_PORT, 4872);
    assert_eq!(AWARE_UDP_DEFAULT_SLOTS, 4);
}

#[test]
fn numbers_are_written_in_decimal() {
    for n in [0u64, 7, 9, 10, 42, 4871, 24243, 65535, 100000, u64::MAX] {
        assert_eq!(decimal_text(n), format!("{n}"));
    }
}

#[test]
fn texts_are_glued_and_compared() {
    assert_eq!(glue("a", "b"), "ab");
    assert_eq!(glue("", ""), "");
    assert!(same_text("aware", "aware"));
    assert!(!same_text("aware", "aware0"));
}
