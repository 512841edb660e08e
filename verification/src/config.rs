//! What the worker is set up with, and what it sets its tasks up with.
use crate::net::SocketAddr;
use crate::outside;
use crate::payload::Payloads;
use crate::sdn::{ClusterNodeInfo, NodeMetrics};
use atm0s_sdn::NodeAddr;
use std::collections::HashMap;
use std::sync::Arc;
use vstd::prelude::*;

verus! {

/// How the media side of the worker is set up.
pub struct MediaConfig<ES> {
    pub ice_lite: bool,
    pub webrtc_addrs: Vec<SocketAddr>,
    pub secure: Arc<ES>,
    /// The sessions that the node may run, by the number of the service kind.
    pub max_live: HashMap<u8, u32>,
}

/// The services that run on the network.
#[derive(Debug, Clone, Copy, PartialEq, Eq, Structural)]
pub enum Service {
    Visualization,
    Discovery,
    Gateway,
    Connector,
}

/// How the controller of the node is set up.
pub struct ControllerSetup {
    pub session: u64,
    /// The key by which the nodes of the network know each other.
    pub secret: String,
    pub services: Vec<Service>,
}

/// How the data plane of the worker is set up.
pub struct DataSetup {
    pub worker_id: u16,
    pub services: Vec<Service>,
}

/// How the network worker is set up.
pub struct SdnSetup<T: Payloads> {
    pub node_id: u32,
    /// In milliseconds.
    pub tick_ms: u64,
    /// Only one worker of a node runs the controller.
    pub controller: Option<ControllerSetup>,
    pub data: DataSetup,
    /// How the console shows the node at first.
    pub node_info: ClusterNodeInfo<T>,
    /// Whether the node collects what the console shows.
    pub collector: bool,
    /// The address by which other nodes find this one.
    pub node_addr: NodeAddr,
    /// The tags under which other nodes find this one.
    pub own_tags: Vec<String>,
    /// The zones whose gateways the node seeks.
    pub sought_zones: Vec<u32>,
    /// The limits the gateway is told of.
    pub max_live: HashMap<u8, u32>,
}

/// How the task that runs the WebRTC sessions is set up.
pub struct WebrtcSetup<T: Payloads> {
    pub addrs: Vec<SocketAddr>,
    pub ice_lite: bool,
    pub secure: Arc<T::Secure>,
}

/// How the tasks of the worker are set up.
pub struct WorkerSetup<T: Payloads> {
    pub sdn: SdnSetup<T>,
    pub webrtc: WebrtcSetup<T>,
}

/// How often the network worker is to look after itself, in milliseconds.
pub const SDN_TICK_MS: u64 = 1000;

/// How the network worker of a new media worker is set up. The connector runs only beside the
/// controller. The node shows as idle. It goes by no tag, and it seeks the gateways of its own
/// zone and no others.
pub open spec fn sdn_set_up<T: Payloads>(
    setup: SdnSetup<T>,
    node_id: u32,
    session: u64,
    secret: Seq<char>,
    controller: bool,
    node_addr: NodeAddr,
    sdn_zone: u32,
    max_live: HashMap<u8, u32>,
) -> bool {
    &&& setup.node_id == node_id
    &&& setup.tick_ms == SDN_TICK_MS
    &&& match setup.controller {
        Some(plane) => {
            &&& controller
            &&& plane.session == session
            &&& plane.secret@ == secret
            &&& plane.services@ == seq![
                Service::Visualization,
                Service::Discovery,
                Service::Gateway,
                Service::Connector,
            ]
        },
        None => !controller,
    }
    &&& setup.data.worker_id == 0
    &&& setup.data.services@ == seq![
        Service::Visualization,
        Service::Discovery,
        Service::Gateway,
    ]
    &&& setup.node_info.shows(
        outside::node_addr_text(node_addr),
        NodeMetrics { cpu: 0, memory: 0, disk: 0 },
        0,
        total_live(max_live@) as u32,
    )
    &&& !setup.collector
    &&& setup.node_addr == node_addr
    &&& setup.own_tags@ == Seq::<String>::empty()
    &&& setup.sought_zones@ == seq![sdn_zone]
    &&& setup.max_live == max_live
}

/// How the WebRTC sessions of a new media worker are set up.
pub open spec fn webrtc_set_up<T: Payloads>(
    setup: WebrtcSetup<T>,
    media: MediaConfig<T::Secure>,
) -> bool {
    &&& setup.addrs == media.webrtc_addrs
    &&& setup.ice_lite == media.ice_lite
    &&& setup.secure == media.secure
}

/// The sum of all limits.
pub open spec fn total_live(limits: Map<u8, u32>) -> nat
    decreases limits.dom().len(),
    when limits.dom().finite()
{
    if limits.dom().len() == 0 {
        0
    } else {
        let kind = limits.dom().choose();
        limits[kind] as nat + total_live(limits.remove(kind))
    }
}

/// A sum of limits can be taken in any order.
pub proof fn lemma_total_live_remove(limits: Map<u8, u32>, kind: u8)
    requires
        limits.dom().finite(),
        limits.contains_key(kind),
    ensures
        total_live(limits) == limits[kind] + total_live(limits.remove(kind)),
    decreases limits.dom().len(),
{
    let first = limits.dom().choose();
    assert(limits.dom().contains(first));
    if first != kind {
        let rest = limits.remove(first);
        assert(rest.contains_key(kind));
        lemma_total_live_remove(rest, kind);
        let other = limits.remove(kind);
        assert(other.contains_key(first));
        lemma_total_live_remove(other, first);
        assert(rest.remove(kind) =~= other.remove(first));
    }
}

/// The sum of the values of some pairs.
pub open spec fn sum_values(pairs: Seq<(u8, u32)>) -> nat
    decreases pairs.len(),
{
    if pairs.len() == 0 {
        0
    } else {
        sum_values(pairs.drop_last()) + pairs.last().1 as nat
    }
}

/// Pairs of a map, each at most once and in whatever order, sum up to no more than the sum of
/// all limits, and to just that where none is missing.
proof fn lemma_sum_pairs(limits: Map<u8, u32>, pairs: Seq<(u8, u32)>)
    requires
        limits.dom().finite(),
        pairs.no_duplicates(),
        forall|i: int|
            0 <= i < pairs.len() ==> #[trigger] limits.contains_pair(pairs[i].0, pairs[i].1),
    ensures
        pairs.len() <= limits.dom().len(),
        sum_values(pairs) <= total_live(limits),
        pairs.len() == limits.dom().len() ==> sum_values(pairs) == total_live(limits),
    decreases pairs.len(),
{
    if pairs.len() > 0 {
        let (kind, limit) = pairs.last();
        let rest = limits.remove(kind);
        let init = pairs.drop_last();
        assert(limits.contains_pair(pairs[pairs.len() - 1].0, pairs[pairs.len() - 1].1));
        assert forall|i: int| 0 <= i < init.len() implies #[trigger] rest.contains_pair(
            init[i].0,
            init[i].1,
        ) by {
            assert(limits.contains_pair(pairs[i].0, pairs[i].1));
        }
        lemma_sum_pairs(rest, init);
        lemma_total_live_remove(limits, kind);
    }
}

/// Adds up all limits.
pub fn sum_max_live(limits: &HashMap<u8, u32>) -> (total: u32)
    requires
        total_live(limits@) <= u32::MAX,
    ensures
        total == total_live(limits@),
{
    broadcast use vstd::std_specs::hash::group_hash_axioms;

    let mut total: u32 = 0;
    let ghost mut seen: Seq<(u8, u32)> = seq![];
    for entry in it: limits.iter()
        invariant
            limits@.dom().finite(),
            total_live(limits@) <= u32::MAX,
            it.seq().len() == limits@.dom().len(),
            it.seq().no_duplicates(),
            forall|i: int|
                0 <= i < it.seq().len() ==> #[trigger] limits@.contains_pair(
                    *it.seq()[i].0,
                    *it.seq()[i].1,
                ),
            seen =~= it.seq().unref().take(it.index()),
            total == sum_values(seen),
    {
        proof {
            let next = seen.push((*entry.0, *entry.1));
            assert forall|i: int| 0 <= i < next.len() implies #[trigger] limits@.contains_pair(
                next[i].0,
                next[i].1,
            ) by {
                assert(limits@.contains_pair(*it.seq()[i].0, *it.seq()[i].1));
            }
            assert forall|i: int, j: int| 0 <= i < next.len() && 0 <= j < next.len() && i != j implies next[i] != next[j] by {
                assert(it.seq()[i] != it.seq()[j]);
            }
            lemma_sum_pairs(limits@, next);
            assert(next.drop_last() =~= seen);
            seen = next;
        }
        total = total + *entry.1;
    }
    proof {
        assert(seen.no_duplicates());
        lemma_sum_pairs(limits@, seen);
    }
    total
}

} // verus!
