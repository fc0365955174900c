//! The node's peers as last seen, and whether asking for them works at all.
//!
//! Peers are pulled off the node's control socket every few seconds and cached,
//! because a state snapshot must never wait for the socket. A feed that keeps
//! failing looks exactly like a room with nobody in it, so sustained failure is
//! reported in the error banner.

use vstd::prelude::*;

use crate::text::{decimal_text, glue};

verus! {

/// How often the node is asked for its peers, in seconds.
pub const PEER_TICK_SECS: u64 = 8;

/// Consecutive failed queries before the feed is reported as broken. The socket
/// is bound only once the node's packet loop is up, so a failure right after a
/// start is normal.
pub const PEER_FEED_FAILURES_BEFORE_ERROR: u32 = 3;

/// A peer as the node reports it.
#[derive(Debug, Clone)]
pub struct PeerView {
    pub node_addr_hex: String,
    pub npub: String,
    pub connected: bool,
}

/// A peer as the app shows it.
#[derive(Debug, Clone)]
pub struct BlePeer {
    pub node_addr_hex: String,
    pub npub: String,
    pub connected: bool,
    /// Not surfaced by the node: always 0.
    pub psm: u16,
    /// Not surfaced by the node: always absent.
    pub rssi: Option<i16>,
}

/// How asking for peers is doing.
#[derive(Debug, Clone)]
pub struct PeerFeedHealth {
    /// Failed queries since the last success.
    pub consecutive_failures: u32,
    /// The most recent failure's reason.
    pub last_error: String,
}

/// The peers as last seen, and the health of the feed.
#[derive(Debug, Clone)]
pub struct PeerFeed {
    pub peers: Vec<PeerView>,
    pub health: PeerFeedHealth,
}

/// What a [`PeerFeed`] holds.
pub struct PeerFeedModel {
    pub peers: Seq<PeerView>,
    pub consecutive_failures: u32,
    pub last_error: Seq<char>,
}

impl View for PeerFeed {
    type V = PeerFeedModel;

    open spec fn view(&self) -> PeerFeedModel {
        PeerFeedModel {
            peers: self.peers@,
            consecutive_failures: self.health.consecutive_failures,
            last_error: self.health.last_error@,
        }
    }
}

/// Whether a peer is connected and known by name.
pub open spec fn is_connected_by_name(peer: PeerView) -> bool {
    peer.connected && peer.npub@.len() > 0
}

/// The names of the connected peers, in the order in which they were reported.
pub open spec fn connected_names(peers: Seq<PeerView>) -> Seq<String> {
    peers.filter(|peer: PeerView| is_connected_by_name(peer)).map_values(
        |peer: PeerView| peer.npub,
    )
}

/// A peer as it is shown.
pub open spec fn shown(peer: PeerView) -> BlePeer {
    BlePeer {
        node_addr_hex: peer.node_addr_hex,
        npub: peer.npub,
        connected: peer.connected,
        psm: 0,
        rssi: None,
    }
}

/// The note on a broken feed.
pub open spec fn feed_note(failures: nat, reason: Seq<char>) -> Seq<char> {
    "peer state unavailable ("@ + crate::text::decimal(failures) + " failed queries): "@ + reason
}

impl PeerFeedModel {
    /// No peers seen, nothing failed.
    pub open spec fn fresh() -> PeerFeedModel {
        PeerFeedModel { peers: seq![], consecutive_failures: 0, last_error: seq![] }
    }

    /// A query gave these peers.
    pub open spec fn after_report(self, peers: Seq<PeerView>) -> PeerFeedModel {
        PeerFeedModel { peers, consecutive_failures: 0, last_error: seq![] }
    }

    /// A query failed. The peers last seen are kept: stale rows and a visible
    /// error say more than an empty list.
    pub open spec fn after_failure(self, reason: Seq<char>) -> PeerFeedModel {
        PeerFeedModel {
            peers: self.peers,
            consecutive_failures: if self.consecutive_failures < u32::MAX {
                (self.consecutive_failures + 1) as u32
            } else {
                u32::MAX
            },
            last_error: reason,
        }
    }

    /// A number of queries failed, one after the other.
    pub open spec fn after_failures(self, reasons: Seq<Seq<char>>) -> PeerFeedModel
        decreases reasons.len(),
    {
        if reasons.len() == 0 {
            self
        } else {
            self.after_failures(reasons.drop_last()).after_failure(reasons.last())
        }
    }

    /// Whether the feed is reported as broken.
    pub open spec fn is_broken(self) -> bool {
        self.consecutive_failures >= PEER_FEED_FAILURES_BEFORE_ERROR
    }

    /// The error banner: the given error, and a note where the feed is broken.
    pub open spec fn banner(self, error: Seq<char>) -> Seq<char> {
        let note = feed_note(self.consecutive_failures as nat, self.last_error);
        if !self.is_broken() {
            error
        } else if error.len() == 0 {
            note
        } else {
            error + "; "@ + note
        }
    }
}

impl PeerFeed {
    /// No peers seen, nothing failed.
    pub fn new() -> (feed: PeerFeed)
        ensures
            feed@ == PeerFeedModel::fresh(),
    {
        let feed = PeerFeed {
            peers: Vec::new(),
            health: PeerFeedHealth { consecutive_failures: 0, last_error: String::new() },
        };
        assert(feed@.peers =~= seq![]);
        feed
    }

    /// A query gave these peers.
    pub fn report(&mut self, peers: Vec<PeerView>)
        ensures
            final(self)@ == old(self)@.after_report(peers@),
    {
        self.peers = peers;
        self.health.consecutive_failures = 0;
        self.health.last_error = String::new();
    }

    /// A query failed for this reason.
    pub fn fail(&mut self, reason: String)
        ensures
            final(self)@ == old(self)@.after_failure(reason@),
    {
        self.health.consecutive_failures = self.health.consecutive_failures.saturating_add(1);
        self.health.last_error = reason;
    }

    /// Forgets the peers and the failures.
    pub fn reset(&mut self)
        ensures
            final(self)@ == PeerFeedModel::fresh(),
    {
        self.peers = Vec::new();
        self.health.consecutive_failures = 0;
        self.health.last_error = String::new();
        assert(self@.peers =~= seq![]);
    }

    /// The names of the connected peers.
    pub fn connected_npubs(&self) -> (names: Vec<String>)
        ensures
            names@ == connected_names(self@.peers),
    {
        let ghost named = |peer: PeerView| is_connected_by_name(peer);
        let ghost name = |peer: PeerView| peer.npub;
        let mut names: Vec<String> = Vec::new();
        let mut i: usize = 0;
        proof {
            reveal(Seq::filter);
            assert(names@ =~= self.peers@.take(0).filter(named).map_values(name));
        }
        while i < self.peers.len()
            invariant
                i <= self.peers@.len(),
                named == (|peer: PeerView| is_connected_by_name(peer)),
                name == (|peer: PeerView| peer.npub),
                names@ == self.peers@.take(i as int).filter(named).map_values(name),
            decreases self.peers@.len() - i,
        {
            proof {
                reveal(Seq::filter);
                assert(self.peers@.take(i + 1).drop_last() =~= self.peers@.take(i as int));
            }
            if self.peers[i].connected && !self.peers[i].npub.as_str().is_empty() {
                names.push(self.peers[i].npub.clone());
                assert(names@ =~= self.peers@.take(i + 1).filter(named).map_values(name));
            }
            i = i + 1;
        }
        assert(self.peers@.take(self.peers@.len() as int) =~= self.peers@);
        names
    }

    /// The peers as they are shown.
    pub fn ble_peers(&self) -> (rows: Vec<BlePeer>)
        ensures
            rows@ == self@.peers.map_values(|peer: PeerView| shown(peer)),
    {
        let mut rows: Vec<BlePeer> = Vec::new();
        let mut i: usize = 0;
        while i < self.peers.len()
            invariant
                i <= self.peers@.len(),
                rows@.len() == i,
                forall|j: int| 0 <= j < i ==> #[trigger] rows@[j] == shown(self.peers@[j]),
            decreases self.peers@.len() - i,
        {
            let peer: &PeerView = &self.peers[i];
            rows.push(
                BlePeer {
                    node_addr_hex: peer.node_addr_hex.clone(),
                    npub: peer.npub.clone(),
                    connected: peer.connected,
                    psm: 0,
                    rssi: None,
                },
            );
            i = i + 1;
        }
        assert(rows@ =~= self@.peers.map_values(|peer: PeerView| shown(peer)));
        rows
    }

    /// The error banner for a given error: once the feed has failed
    /// [`PEER_FEED_FAILURES_BEFORE_ERROR`] times running, a note says so.
    pub fn error_with_feed_health(&self, error: &str) -> (banner: String)
        ensures
            banner@ == self@.banner(error@),
    {
        if self.health.consecutive_failures < PEER_FEED_FAILURES_BEFORE_ERROR {
            return error.to_owned();
        }
        let count: String = decimal_text(self.health.consecutive_failures as u64);
        let note: String = glue("peer state unavailable (", count.as_str()).concat(
            " failed queries): ",
        ).concat(self.health.last_error.as_str());
        if error.is_empty() {
            note
        } else {
            glue(error, "; ").concat(note.as_str())
        }
    }
}

/// From a success on, the failures are counted one by one. The banner stays as
/// it was below the threshold, and from it on says that the feed is broken and
/// why, after whatever it said before.
pub proof fn law_sustained_failure_reaches_the_banner(
    feed: PeerFeedModel,
    peers: Seq<PeerView>,
    reasons: Seq<Seq<char>>,
    error: Seq<char>,
)
    requires
        reasons.len() <= u32::MAX,
    ensures
        ({
            let after = feed.after_report(peers).after_failures(reasons);
            &&& after.consecutive_failures == reasons.len()
            &&& after.peers == peers
            &&& reasons.len() < PEER_FEED_FAILURES_BEFORE_ERROR ==> after.banner(error) == error
            &&& reasons.len() >= PEER_FEED_FAILURES_BEFORE_ERROR ==> {
                &&& error.is_prefix_of(after.banner(error))
                &&& feed_note(reasons.len(), reasons.last()).is_suffix_of(after.banner(error))
                &&& reasons.last().is_suffix_of(after.banner(error))
            }
        }),
{
    lemma_failures_count(feed.after_report(peers), reasons);
    let after = feed.after_report(peers).after_failures(reasons);
    if reasons.len() >= PEER_FEED_FAILURES_BEFORE_ERROR {
        let reason = reasons.last();
        let note = feed_note(reasons.len(), reason);
        let banner = after.banner(error);
        assert(after.last_error == reason);
        assert(note.subrange(note.len() - reason.len(), note.len() as int) =~= reason);
        assert(banner.subrange(banner.len() - note.len(), banner.len() as int) =~= note);
        assert(banner.subrange(banner.len() - reason.len(), banner.len() as int) =~= reason);
        assert(banner.subrange(0, error.len() as int) =~= error);
    }
}

proof fn lemma_failures_count(feed: PeerFeedModel, reasons: Seq<Seq<char>>)
    requires
        feed.consecutive_failures == 0,
        reasons.len() <= u32::MAX,
    ensures
        feed.after_failures(reasons).consecutive_failures == reasons.len(),
        feed.after_failures(reasons).peers == feed.peers,
    decreases reasons.len(),
{
    if reasons.len() > 0 {
        lemma_failures_count(feed, reasons.drop_last());
    }
}

/// A peer counts as connected for the content layer exactly where it was
/// reported as connected under a name.
pub proof fn law_connected_names_are_the_named_connected(peers: Seq<PeerView>, npub: String)
    ensures
        connected_names(peers).contains(npub) <==> exists|i: int|
            0 <= i < peers.len() && is_connected_by_name(#[trigger] peers[i]) && peers[i].npub
                == npub,
{
    let named = |peer: PeerView| is_connected_by_name(peer);
    let kept = peers.filter(named);
    if connected_names(peers).contains(npub) {
        let k = choose|k: int| 0 <= k < kept.len() && connected_names(peers)[k] == npub;
        assert(kept.contains(kept[k]));
        peers.lemma_filter_pred(named, k);
        peers.lemma_filter_contains_rev(named, kept[k]);
        assert(peers.contains(kept[k]));
    }
    if exists|i: int|
        0 <= i < peers.len() && is_connected_by_name(#[trigger] peers[i]) && peers[i].npub == npub {
        let i = choose|i: int|
            0 <= i < peers.len() && is_connected_by_name(#[trigger] peers[i]) && peers[i].npub
                == npub;
        peers.lemma_filter_contains(named, i);
        let k = choose|k: int| 0 <= k < kept.len() && kept[k] == peers[i];
        assert(connected_names(peers)[k] == npub);
    }
}

/// The rows that are shown are the peers last reported, one for one and in their
/// order, each with the address, the name and the connected flag of its peer.
pub proof fn law_a_row_shows_its_peer(feed: &PeerFeed, rows: Vec<BlePeer>, i: int)
    requires
        call_ensures(PeerFeed::ble_peers, (feed,), rows),
    ensures
        rows@.len() == feed.peers@.len(),
        0 <= i < rows@.len() ==> {
            &&& rows@[i].connected <==> feed.peers@[i].connected
            &&& rows@[i].npub@ == feed.peers@[i].npub@
            &&& rows@[i].node_addr_hex@ == feed.peers@[i].node_addr_hex@
            &&& rows@[i].psm == 0
            &&& rows@[i].rssi is None
        },
{
}

/// The same of the rows of any report: what is shown of a peer is what the node
/// said of it.
pub proof fn law_a_report_is_shown_as_it_came(peers: Seq<PeerView>, i: int)
    requires
        0 <= i < peers.len(),
    ensures
        ({
            let rows = peers.map_values(|peer: PeerView| shown(peer));
            &&& rows.len() == peers.len()
            &&& rows[i].connected <==> peers[i].connected
            &&& rows[i].npub == peers[i].npub
            &&& rows[i].node_addr_hex == peers[i].node_addr_hex
            &&& rows[i].psm == 0
            &&& rows[i].rssi is None
        }),
{
}

/// The connected names keep the order of the report and leave no peer out: one
/// more peer adds its name at the end where it is connected and has one, and
/// nothing otherwise.
pub proof fn law_connected_names_grow_with_the_report(peers: Seq<PeerView>, peer: PeerView)
    ensures
        connected_names(seq![]) == Seq::<String>::empty(),
        peer.connected && peer.npub@.len() > 0 ==> connected_names(peers.push(peer))
            == connected_names(peers).push(peer.npub),
        !(peer.connected && peer.npub@.len() > 0) ==> connected_names(peers.push(peer))
            == connected_names(peers),
{
    reveal(Seq::filter);
    let named = |p: PeerView| is_connected_by_name(p);
    let longer = peers.push(peer);
    assert(longer.drop_last() =~= peers);
    assert(connected_names(seq![]) =~= Seq::<String>::empty());
    if is_connected_by_name(peer) {
        assert(connected_names(longer) =~= connected_names(peers).push(peer.npub));
    }
}

/// A report replaces the peers and forgets the failures; a failure keeps the
/// peers, is counted and gives its reason. A fresh feed has neither.
pub proof fn law_what_a_query_leaves(
    feed: PeerFeedModel,
    peers: Seq<PeerView>,
    reason: Seq<char>,
)
    ensures
        feed.after_report(peers) == (PeerFeedModel {
            peers,
            consecutive_failures: 0,
            last_error: seq![],
        }),
        feed.after_failure(reason).peers == feed.peers,
        feed.after_failure(reason).last_error == reason,
        feed.consecutive_failures < u32::MAX ==> feed.after_failure(reason).consecutive_failures
            == feed.consecutive_failures + 1,
        feed.consecutive_failures == u32::MAX ==> feed.after_failure(reason).consecutive_failures
            == u32::MAX,
        PeerFeedModel::fresh().peers.len() == 0,
        PeerFeedModel::fresh().consecutive_failures == 0,
        PeerFeedModel::fresh().last_error.len() == 0,
{
}

/// The banner is the error alone below three failures in a row. From three on it
/// also says how many queries failed and why the last one did, after the error
/// and a semicolon where there is one.
pub proof fn law_the_banner_says_how_many_and_why(feed: PeerFeedModel, error: Seq<char>)
    ensures
        ({
            let note = "peer state unavailable ("@ + crate::text::decimal(
                feed.consecutive_failures as nat,
            ) + " failed queries): "@ + feed.last_error;
            &&& feed.consecutive_failures < 3 ==> feed.banner(error) == error
            &&& feed.consecutive_failures >= 3 && error.len() == 0 ==> feed.banner(error) == note
            &&& feed.consecutive_failures >= 3 && error.len() > 0 ==> feed.banner(error) == error
                + "; "@ + note
        }),
{
}

} // verus!
