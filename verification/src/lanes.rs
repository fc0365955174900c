//! The UDP transport instances of the node and the radio lanes that ride them.
//!
//! The node runs several UDP instances: one for the LAN/AP lane, and a pool for
//! Wi-Fi Aware, one socket per concurrent peer. A socket can be pinned to one
//! network only, so neither two lanes nor two Aware peers can share one. The
//! lane label that a radio pushes is turned into an instance name here and
//! nowhere else, so the name a socket is pinned by and the name a dial is routed
//! by cannot drift apart.

use vstd::prelude::*;

use crate::text::same_text;

verus! {

/// The instance of the LAN/AP lane.
pub const LAN_UDP_INSTANCE: &'static str = "lan";

/// The names a Wi-Fi Aware pool can draw on. How many of them are bound is the
/// chipset's answer, see [`aware_udp_slots`].
pub const AWARE_UDP_INSTANCES: [&'static str; 8] = [
    "aware0", "aware1", "aware2", "aware3", "aware4", "aware5", "aware6", "aware7",
];

/// How many names there are in [`AWARE_UDP_INSTANCES`].
pub const AWARE_UDP_INSTANCE_COUNT: u8 = 8;

/// How many instances to bind when the chipset has not said otherwise.
pub const AWARE_UDP_DEFAULT_SLOTS: u8 = 4;

/// UDP port of the LAN/AP lane.
pub const LAN_UDP_PORT: u16 = 4871;

/// First UDP port of the Wi-Fi Aware pool: slot `i` binds this plus `i`.
pub const AWARE_UDP_BASE_PORT: u16 = 4872;

/// The name of pool slot `slot`: `"aware"` and the slot's digit.
pub open spec fn aware_instance(slot: nat) -> Seq<char> {
    "aware"@.push(crate::text::digit_char(slot))
}

/// Whether a text names one of the pool's slots.
pub open spec fn is_aware_instance(name: Seq<char>) -> bool {
    exists|slot: nat| slot < AWARE_UDP_INSTANCE_COUNT && name == #[trigger] aware_instance(slot)
}

/// The instance a lane label rides: a slot's own name stays as it is, a bare
/// `"aware"` is slot 0, and everything else is the LAN/AP lane.
pub open spec fn instance_for_lane(lane: Seq<char>) -> Seq<char> {
    if is_aware_instance(lane) {
        lane
    } else if lane == "aware"@ {
        aware_instance(0)
    } else {
        LAN_UDP_INSTANCE@
    }
}

/// A text without the digits at its end.
pub open spec fn without_end_digits(s: Seq<char>) -> Seq<char>
    decreases s.len(),
{
    if s.len() > 0 && crate::text::is_digit_char(s.last()) {
        without_end_digits(s.drop_last())
    } else {
        s
    }
}

/// The lane family of a label: `"aware"` for an Aware label with or without a
/// slot number, and any other label itself.
pub open spec fn family_of_lane(lane: Seq<char>) -> Seq<char> {
    if without_end_digits(lane) == "aware"@ {
        "aware"@
    } else {
        lane
    }
}

/// The pool size for a reported number of data paths.
pub open spec fn slots_for(reported: Option<u8>) -> u8 {
    match reported {
        None => AWARE_UDP_DEFAULT_SLOTS,
        Some(n) => if n < 1 {
            1
        } else if n > AWARE_UDP_INSTANCE_COUNT {
            AWARE_UDP_INSTANCE_COUNT
        } else {
            n
        },
    }
}

/// The port slot `slot` listens on.
pub open spec fn port_of_slot(slot: nat) -> nat {
    AWARE_UDP_BASE_PORT as nat + slot
}

/// The name table holds the slots' names, each at its slot.
pub proof fn lemma_instance_table()
    ensures
        forall|slot: nat|
            slot < AWARE_UDP_INSTANCE_COUNT ==> AWARE_UDP_INSTANCES@[slot as int]@
                == #[trigger] aware_instance(slot),
{
    reveal_strlit("aware");
    reveal_strlit("aware0");
    reveal_strlit("aware1");
    reveal_strlit("aware2");
    reveal_strlit("aware3");
    reveal_strlit("aware4");
    reveal_strlit("aware5");
    reveal_strlit("aware6");
    reveal_strlit("aware7");
    assert("aware0"@ =~= aware_instance(0));
    assert("aware1"@ =~= aware_instance(1));
    assert("aware2"@ =~= aware_instance(2));
    assert("aware3"@ =~= aware_instance(3));
    assert("aware4"@ =~= aware_instance(4));
    assert("aware5"@ =~= aware_instance(5));
    assert("aware6"@ =~= aware_instance(6));
    assert("aware7"@ =~= aware_instance(7));
}

/// Which UDP transport instance a radio's lane rides.
///
/// `lane` is the label the radio itself pushes. A slot number beyond the pool
/// is not an Aware instance and rides the LAN/AP lane.
pub fn udp_instance_for_lane(lane: &str) -> (instance: &'static str)
    ensures
        instance@ == instance_for_lane(lane@),
{
    proof {
        lemma_instance_table();
        reveal_strlit("aware");
    }
    if same_text(lane, "aware") {
        assert forall|slot: nat| slot < AWARE_UDP_INSTANCE_COUNT implies lane@
            != #[trigger] aware_instance(slot) by {
            assert(aware_instance(slot).len() == 6);
        }
        let first: &'static str = AWARE_UDP_INSTANCES[0];
        assert(first@ == aware_instance(0));
        return first;
    }
    let mut slot: usize = 0;
    while slot < 8
        invariant
            slot <= 8,
            lane@ != "aware"@,
            forall|s: nat|
                s < AWARE_UDP_INSTANCE_COUNT ==> AWARE_UDP_INSTANCES@[s as int]@
                    == #[trigger] aware_instance(s),
            forall|s: nat| s < slot ==> lane@ != #[trigger] aware_instance(s),
        decreases 8 - slot,
    {
        let name: &'static str = AWARE_UDP_INSTANCES[slot];
        assert(name@ == aware_instance(slot as nat));
        if same_text(name, lane) {
            return name;
        }
        slot = slot + 1;
    }
    LAN_UDP_INSTANCE
}

/// The lane family a slot-qualified label belongs to: `"aware2"` is of
/// `"aware"`, and anything else is unchanged. Only the Aware lane has slots.
pub fn lane_family(lane: &str) -> (family: &str)
    ensures
        family@ == family_of_lane(lane@),
{
    let len: usize = lane.unicode_len();
    let mut end: usize = len;
    assert(lane@.subrange(0, end as int) =~= lane@);
    while end > 0
        invariant
            end <= len,
            len == lane@.len(),
            without_end_digits(lane@) == without_end_digits(lane@.subrange(0, end as int)),
        ensures
            end <= len,
            without_end_digits(lane@) == lane@.subrange(0, end as int),
        decreases end,
    {
        let last: char = lane.get_char(end - 1);
        if !(last >= '0' && last <= '9') {
            break;
        }
        assert(lane@.subrange(0, end as int).drop_last() =~= lane@.subrange(0, end - 1));
        end = end - 1;
    }
    let head: &str = lane.substring_char(0, end);
    if same_text(head, "aware") {
        head
    } else {
        lane
    }
}

/// How many peers the Aware lane can carry at once: what the chipset says it
/// supports, within the names there are. A reported 0 would leave the lane with
/// no socket at all and is taken as one.
pub fn aware_udp_slots(reported: Option<u8>) -> (slots: u8)
    ensures
        slots == slots_for(reported),
        1 <= slots <= AWARE_UDP_INSTANCE_COUNT,
{
    let wanted: u8 = match reported {
        Some(n) => n,
        None => AWARE_UDP_DEFAULT_SLOTS,
    };
    if wanted < 1 {
        1
    } else if wanted > AWARE_UDP_INSTANCE_COUNT {
        AWARE_UDP_INSTANCE_COUNT
    } else {
        wanted
    }
}

/// The pool's names are distinct, and none of them is the LAN/AP lane's: one
/// socket per peer and per lane.
pub proof fn law_instances_are_distinct(a: nat, b: nat)
    requires
        a < AWARE_UDP_INSTANCE_COUNT,
        b < AWARE_UDP_INSTANCE_COUNT,
    ensures
        aware_instance(a) == aware_instance(b) ==> a == b,
        aware_instance(a) != LAN_UDP_INSTANCE@,
        port_of_slot(a) == port_of_slot(b) ==> a == b,
        port_of_slot(a) != LAN_UDP_PORT,
{
    reveal_strlit("aware");
    reveal_strlit("lan");
    assert(aware_instance(a).last() == crate::text::digit_char(a));
    assert(aware_instance(b).last() == crate::text::digit_char(b));
    assert(aware_instance(a).len() == 6);
}

/// Every slot of a pool, whatever size the chipset asked for, has an instance
/// of its own, and the slot's lane label is routed to it.
pub proof fn law_every_slot_rides_its_own_instance(reported: Option<u8>, slot: nat)
    requires
        slot < slots_for(reported),
    ensures
        slot < AWARE_UDP_INSTANCE_COUNT,
        AWARE_UDP_INSTANCES@[slot as int]@ == aware_instance(slot),
        instance_for_lane(aware_instance(slot)) == aware_instance(slot),
{
    lemma_instance_table();
}

/// A lane label is always routed to an instance that exists: the LAN/AP one, or
/// a name of the pool. Only `"aware"` itself and the pool's own names reach the
/// pool.
pub proof fn law_routing_stays_in_the_table(lane: Seq<char>)
    ensures
        instance_for_lane(lane) == LAN_UDP_INSTANCE@ || is_aware_instance(instance_for_lane(lane)),
        is_aware_instance(instance_for_lane(lane)) <==> (lane == "aware"@ || is_aware_instance(
            lane,
        )),
{
    reveal_strlit("aware");
    reveal_strlit("lan");
    assert(is_aware_instance(aware_instance(0)));
    assert forall|slot: nat| slot < AWARE_UDP_INSTANCE_COUNT implies LAN_UDP_INSTANCE@
        != #[trigger] aware_instance(slot) by {
        law_instances_are_distinct(slot, slot);
    }
}

/// Routing an instance name gives the name back: the name a socket is pinned by
/// and the name a dial is routed by are one name.
pub proof fn law_routing_is_idempotent(lane: Seq<char>)
    ensures
        instance_for_lane(instance_for_lane(lane)) == instance_for_lane(lane),
{
    reveal_strlit("aware");
    reveal_strlit("lan");
    law_routing_stays_in_the_table(lane);
    law_routing_stays_in_the_table(LAN_UDP_INSTANCE@);
    assert(LAN_UDP_INSTANCE@.len() == 3);
}

proof fn lemma_end_digits(s: Seq<char>)
    ensures
        without_end_digits(s).len() <= s.len(),
        without_end_digits(s).is_prefix_of(s),
        without_end_digits(s).len() > 0 ==> !crate::text::is_digit_char(
            without_end_digits(s).last(),
        ),
        forall|i: int|
            without_end_digits(s).len() <= i < s.len() ==> crate::text::is_digit_char(
                #[trigger] s[i],
            ),
    decreases s.len(),
{
    if s.len() > 0 && crate::text::is_digit_char(s.last()) {
        lemma_end_digits(s.drop_last());
        assert forall|i: int| without_end_digits(s).len() <= i < s.len() implies crate::text::is_digit_char(
            #[trigger] s[i],
        ) by {
            if i < s.len() - 1 {
                assert(s[i] == s.drop_last()[i]);
            }
        }
    }
}

/// A lane family is the label itself, or `"aware"` where only the digits of a
/// slot are missing from the label. It is empty only where the label is, and it
/// is its own family: a lane is recorded once, however many slots it has.
pub proof fn law_family_is_stable(lane: Seq<char>)
    ensures
        family_of_lane(lane) == lane || family_of_lane(lane) == "aware"@,
        family_of_lane(lane).is_prefix_of(lane),
        forall|i: int|
            family_of_lane(lane).len() <= i < lane.len() ==> crate::text::is_digit_char(
                #[trigger] lane[i],
            ),
        family_of_lane(lane).len() == 0 <==> lane.len() == 0,
        family_of_lane(family_of_lane(lane)) == family_of_lane(lane),
{
    reveal_strlit("aware");
    lemma_end_digits(lane);
    assert("aware"@.last() == 'e');
    assert(without_end_digits("aware"@) == "aware"@);
}

/// Every slot of the pool is of one family, `"aware"`, and the family's bare
/// label is routed to slot 0.
pub proof fn law_slots_share_a_family(slot: nat)
    requires
        slot < AWARE_UDP_INSTANCE_COUNT,
    ensures
        family_of_lane(aware_instance(slot)) == "aware"@,
        family_of_lane("aware"@) == "aware"@,
        instance_for_lane(family_of_lane(aware_instance(slot))) == aware_instance(0),
{
    reveal_strlit("aware");
    let name = aware_instance(slot);
    assert(name.last() == crate::text::digit_char(slot));
    assert(name.drop_last() =~= "aware"@);
    assert("aware"@.last() == 'e');
    assert(without_end_digits("aware"@) == "aware"@);
    assert(without_end_digits(name) == without_end_digits("aware"@));
    assert forall|s: nat| s < AWARE_UDP_INSTANCE_COUNT implies "aware"@ != #[trigger] aware_instance(
        s,
    ) by {
        assert(aware_instance(s).len() == 6);
    }
}

/// A slot's label rides the instance of that name, a bare `aware` rides slot
/// 0's, and every other label rides the LAN/AP instance.
pub proof fn law_a_label_is_routed_by_its_name(lane: Seq<char>)
    ensures
        ({
            let slot_label = lane == "aware0"@ || lane == "aware1"@ || lane == "aware2"@ || lane
                == "aware3"@ || lane == "aware4"@ || lane == "aware5"@ || lane == "aware6"@ || lane
                == "aware7"@;
            &&& slot_label ==> instance_for_lane(lane) == lane
            &&& lane == "aware"@ ==> instance_for_lane(lane) == "aware0"@
            &&& !slot_label && lane != "aware"@ ==> instance_for_lane(lane) == "lan"@
        }),
{
    lemma_instance_table();
    reveal_strlit("aware");
    reveal_strlit("aware0");
    assert(AWARE_UDP_INSTANCES@[0]@ == aware_instance(0));
    assert(AWARE_UDP_INSTANCES@[1]@ == aware_instance(1));
    assert(AWARE_UDP_INSTANCES@[2]@ == aware_instance(2));
    assert(AWARE_UDP_INSTANCES@[3]@ == aware_instance(3));
    assert(AWARE_UDP_INSTANCES@[4]@ == aware_instance(4));
    assert(AWARE_UDP_INSTANCES@[5]@ == aware_instance(5));
    assert(AWARE_UDP_INSTANCES@[6]@ == aware_instance(6));
    assert(AWARE_UDP_INSTANCES@[7]@ == aware_instance(7));
    assert forall|s: nat| s < 8 implies "aware"@ != #[trigger] aware_instance(s) by {
        assert(aware_instance(s).len() == 6);
    }
}

/// Whether a label is `aware` followed by nothing but digits.
pub open spec fn is_aware_label(lane: Seq<char>) -> bool {
    &&& "aware"@.is_prefix_of(lane)
    &&& forall|i: int| 5 <= i < lane.len() ==> '0' <= #[trigger] lane[i] <= '9'
}

/// Every label of `aware` and digits is of the family `aware`, and every other
/// label is a family of its own.
pub proof fn law_only_aware_labels_have_a_family(lane: Seq<char>)
    ensures
        is_aware_label(lane) ==> family_of_lane(lane) == "aware"@,
        !is_aware_label(lane) ==> family_of_lane(lane) == lane,
{
    reveal_strlit("aware");
    lemma_end_digits(lane);
    let head = without_end_digits(lane);
    if is_aware_label(lane) {
        assert(lane.subrange(0, 5) =~= "aware"@);
        assert(lane[4] == lane.subrange(0, 5)[4]);
        assert(lane[4] == 'e');
        assert(head =~= lane.subrange(0, head.len() as int));
        assert(head.len() >= 5);
        if head.len() > 5 {
            assert(head.last() == lane[head.len() - 1]);
        }
        assert(head =~= "aware"@);
    } else if head == "aware"@ {
        assert(is_aware_label(lane));
    }
}

/// The pool has as many slots as the chipset reports, at least one and at most
/// eight, and four where nothing was reported. Slot `i` listens on port 4872
/// plus `i`.
pub proof fn law_the_pool_follows_the_report(n: u8, slot: nat)
    ensures
        1 <= n <= 8 ==> slots_for(Some(n)) == n,
        n == 0 ==> slots_for(Some(n)) == 1,
        n > 8 ==> slots_for(Some(n)) == 8,
        slots_for(None) == 4,
        port_of_slot(slot) == 4872 + slot,
        LAN_UDP_PORT == 4871,
{
}

} // verus!
