//! Which step each call on the worker is, and when a call may be made.
//!
//! A call that reads the clock is the step at the time of day that the worker's pivot gives to the
//! instant.
use crate::action::{Action, Input, Output, Queued, Step, TaskType};
use crate::cluster::ClusterOutput;
use crate::config::{self, MediaConfig, WorkerSetup};
use crate::laws::{self, Move};
use crate::model;
use crate::net::{BackendOutgoing, NetOutput, Owner, SocketAddr};
use crate::outcomes;
use crate::outside;
use crate::payload::Payloads;
use crate::rpc::{ConnectResponse, RpcReq, RpcResult, Variant, WhepReq};
use crate::sdn::{ClusterNodeInfo, NodeMetrics, SdnWorkerOutput};
use crate::text;
use crate::webrtc::{GroupOutput, Spawned};
use crate::worker::MediaServerWorker;
use atm0s_sdn::{NodeAddr, TimePivot};
use std::collections::HashMap;
use std::time::Instant;
use vstd::prelude::*;

verus! {

/// A tick.
pub proof fn law_on_tick<T: Payloads>(
    w: &mut MediaServerWorker<T>,
    now: Instant,
    actions: Vec<Action<T>>,
)
    requires
        call_ensures(MediaServerWorker::<T>::on_tick, (w, now), actions),
    ensures
        final(w).wf(),
        model::ticked(old(w)@, now, outside::timestamp_of(old(w)@.timer, now), final(w)@, actions@),
        laws::moved(
            old(w)@,
            (Move::Tick { now, now_ms: outside::timestamp_of(old(w)@.timer, now), actions: actions@ }),
            final(w)@,
        ),
{
}

/// A tick, at a known time.
pub proof fn law_tick_at<T: Payloads>(
    w: &mut MediaServerWorker<T>,
    now: Instant,
    now_ms: u64,
    actions: Vec<Action<T>>,
)
    requires
        call_ensures(MediaServerWorker::<T>::tick_at, (w, now, now_ms), actions),
    ensures
        final(w).wf(),
        model::ticked(old(w)@, now, now_ms, final(w)@, actions@),
        laws::moved(old(w)@, (Move::Tick { now, now_ms, actions: actions@ }), final(w)@),
{
}

/// A count of the sessions.
pub proof fn law_on_webrtc_count<T: Payloads>(
    w: &mut MediaServerWorker<T>,
    now_ms: u64,
    webrtc_tasks: usize,
    action: Action<T>,
)
    requires
        call_ensures(MediaServerWorker::<T>::on_webrtc_count, (w, now_ms, webrtc_tasks), action),
    ensures
        final(w).wf(),
        model::usage_reported(old(w)@, now_ms, webrtc_tasks, final(w)@, action),
        laws::moved(old(w)@, (Move::Count { now_ms, webrtc_tasks, action }), final(w)@),
{
}

/// An input. The peer of a new WHEP session is named by a number drawn by chance.
pub proof fn law_on_event<T: Payloads>(
    w: &mut MediaServerWorker<T>,
    now: Instant,
    input: Input<T>,
    webrtc_tasks: usize,
    actions: Vec<Action<T>>,
)
    requires
        call_ensures(MediaServerWorker::<T>::on_event, (w, now, input, webrtc_tasks), actions),
    ensures
        final(w).wf(),
        exists|salt: u64| #[trigger] model::input_taken(
            old(w)@,
            now,
            outside::timestamp_of(old(w)@.timer, now),
            salt,
            input,
            webrtc_tasks,
            final(w)@,
            actions@,
        )
            && (input matches Input::ExtRpc(_, RpcReq::Whep(WhepReq::Connect(_)))
                ==> outside::drawn(salt)),
{
}

/// An input, at a known time and with a known number.
pub proof fn law_event_at<T: Payloads>(
    w: &mut MediaServerWorker<T>,
    now: Instant,
    now_ms: u64,
    salt: u64,
    input: Input<T>,
    webrtc_tasks: usize,
    actions: Vec<Action<T>>,
)
    requires
        call_ensures(
            MediaServerWorker::<T>::event_at,
            (w, now, now_ms, salt, input, webrtc_tasks),
            actions,
        ),
    ensures
        final(w).wf(),
        model::input_taken(old(w)@, now, now_ms, salt, input, webrtc_tasks, final(w)@, actions@),
        input.accepted() ==> laws::moved(
            old(w)@,
            (Move::Take { now, now_ms, salt, input, webrtc_tasks, actions: actions@ }),
            final(w)@,
        ),
{
}

/// A request. The peer of a new WHEP session is named by a number drawn by chance.
pub proof fn law_process_rpc<T: Payloads>(
    w: &mut MediaServerWorker<T>,
    now: Instant,
    req_id: u64,
    req: RpcReq<T>,
    actions: Vec<Action<T>>,
)
    requires
        call_ensures(MediaServerWorker::<T>::process_rpc, (w, now, req_id, req), actions),
    ensures
        final(w).wf(),
        exists|salt: u64| #[trigger] model::rpc_processed(
            old(w)@,
            now,
            salt,
            req_id,
            req,
            final(w)@,
            actions@,
        )
            && (req matches RpcReq::Whep(WhepReq::Connect(_)) ==> outside::drawn(salt)),
{
}

/// A request, with a known number.
pub proof fn law_process_rpc_with<T: Payloads>(
    w: &mut MediaServerWorker<T>,
    now: Instant,
    req_id: u64,
    req: RpcReq<T>,
    salt: u64,
    actions: Vec<Action<T>>,
)
    requires
        call_ensures(
            MediaServerWorker::<T>::process_rpc_with,
            (w, now, req_id, req, salt),
            actions,
        ),
    ensures
        final(w).wf(),
        model::rpc_processed(old(w)@, now, salt, req_id, req, final(w)@, actions@),
{
}

/// How an attempt to start a session came out.
pub proof fn law_on_spawned<T: Payloads>(
    w: &mut MediaServerWorker<T>,
    req_id: u64,
    variant: Variant,
    result: RpcResult<Spawned>,
    nothing: (),
)
    requires
        call_ensures(MediaServerWorker::<T>::on_spawned, (w, req_id, variant, result), nothing),
    ensures
        final(w).wf(),
        model::spawn_answered(old(w)@, req_id, variant, result, final(w)@),
        laws::moved(old(w)@, (Move::Spawned { req_id, variant, result }), final(w)@),
{
}

/// The search for an output.
pub proof fn law_pop_output<T: Payloads>(
    w: &mut MediaServerWorker<T>,
    now: Instant,
    step: Step<T>,
)
    requires
        call_ensures(MediaServerWorker::<T>::pop_output, (w, now), step),
    ensures
        final(w).wf(),
        model::popped(old(w)@, now, outside::timestamp_of(old(w)@.timer, now), final(w)@, step),
        laws::moved(
            old(w)@,
            (Move::Pop { now, now_ms: outside::timestamp_of(old(w)@.timer, now), step }),
            final(w)@,
        ),
{
}

/// The search for an output, at a known time.
pub proof fn law_pop_output_at<T: Payloads>(
    w: &mut MediaServerWorker<T>,
    now: Instant,
    now_ms: u64,
    step: Step<T>,
)
    requires
        call_ensures(MediaServerWorker::<T>::pop_output_at, (w, now, now_ms), step),
    ensures
        final(w).wf(),
        model::popped(old(w)@, now, now_ms, final(w)@, step),
        laws::moved(old(w)@, (Move::Pop { now, now_ms, step }), final(w)@),
{
}

/// The search goes on.
pub proof fn law_on_polled_empty<T: Payloads>(
    w: &mut MediaServerWorker<T>,
    task: TaskType,
    now: Instant,
    step: Step<T>,
)
    requires
        call_ensures(MediaServerWorker::<T>::on_polled_empty, (w, task, now), step),
    ensures
        final(w).wf(),
        model::polled_empty(
            old(w)@,
            task,
            now,
            outside::timestamp_of(old(w)@.timer, now),
            final(w)@,
            step,
        ),
        laws::moved(
            old(w)@,
            (Move::PolledEmpty { task, now, now_ms: outside::timestamp_of(old(w)@.timer, now), step }),
            final(w)@,
        ),
{
}

/// The search goes on, at a known time.
pub proof fn law_polled_empty_at<T: Payloads>(
    w: &mut MediaServerWorker<T>,
    task: TaskType,
    now: Instant,
    now_ms: u64,
    step: Step<T>,
)
    requires
        call_ensures(MediaServerWorker::<T>::polled_empty_at, (w, task, now, now_ms), step),
    ensures
        final(w).wf(),
        model::polled_empty(old(w)@, task, now, now_ms, final(w)@, step),
        laws::moved(old(w)@, (Move::PolledEmpty { task, now, now_ms, step }), final(w)@),
{
}

/// An output of the network worker.
pub proof fn law_output_sdn<T: Payloads>(
    w: &mut MediaServerWorker<T>,
    now: Instant,
    out: SdnWorkerOutput<T>,
    res: (Output<T>, Vec<Action<T>>),
)
    requires
        call_ensures(MediaServerWorker::<T>::output_sdn, (w, now, out), res),
    ensures
        final(w).wf(),
        model::sdn_routed(old(w)@, now, out, final(w)@, res.0, res.1@),
        laws::moved(old(w)@, (Move::Sdn { now, out, output: res.0, actions: res.1@ }), final(w)@),
{
}

/// An output of the media cluster.
pub proof fn law_output_cluster<T: Payloads>(
    w: &mut MediaServerWorker<T>,
    now: Instant,
    out: ClusterOutput<T>,
    res: (Output<T>, Vec<Action<T>>),
)
    requires
        call_ensures(MediaServerWorker::<T>::output_cluster, (w, now, out), res),
    ensures
        final(w).wf(),
        model::cluster_routed(
            old(w)@,
            now,
            outside::timestamp_of(old(w)@.timer, now),
            out,
            final(w)@,
            res.0,
            res.1@,
        ),
        laws::moved(
            old(w)@,
            (Move::Cluster {
                now,
                now_ms: outside::timestamp_of(old(w)@.timer, now),
                out,
                output: res.0,
                actions: res.1@,
            }),
            final(w)@,
        ),
{
}

/// An output of the media cluster, at a known time.
pub proof fn law_output_cluster_at<T: Payloads>(
    w: &mut MediaServerWorker<T>,
    now: Instant,
    now_ms: u64,
    out: ClusterOutput<T>,
    res: (Output<T>, Vec<Action<T>>),
)
    requires
        call_ensures(MediaServerWorker::<T>::output_cluster_at, (w, now, now_ms, out), res),
    ensures
        final(w).wf(),
        model::cluster_routed(old(w)@, now, now_ms, out, final(w)@, res.0, res.1@),
        laws::moved(
            old(w)@,
            (Move::Cluster { now, now_ms, out, output: res.0, actions: res.1@ }),
            final(w)@,
        ),
{
}

/// An output of the sessions. What happened to a peer is dated by its own instant.
pub proof fn law_output_webrtc<T: Payloads>(
    w: &mut MediaServerWorker<T>,
    now: Instant,
    out: GroupOutput<T>,
    res: (Output<T>, Vec<Action<T>>),
)
    requires
        call_ensures(MediaServerWorker::<T>::output_webrtc, (w, now, out), res),
    ensures
        final(w).wf(),
        exists|event_ms: u64| #[trigger] model::webrtc_routed(
            old(w)@,
            now,
            outside::timestamp_of(old(w)@.timer, now),
            event_ms,
            out,
            final(w)@,
            res.0,
            res.1@,
        )
            && (out matches GroupOutput::PeerEvent(_, ts, _)
                ==> event_ms == outside::timestamp_of(old(w)@.timer, ts)),
{
}

/// An output of the sessions, at known times.
pub proof fn law_output_webrtc_at<T: Payloads>(
    w: &mut MediaServerWorker<T>,
    now: Instant,
    now_ms: u64,
    event_ms: u64,
    out: GroupOutput<T>,
    res: (Output<T>, Vec<Action<T>>),
)
    requires
        call_ensures(
            MediaServerWorker::<T>::output_webrtc_at,
            (w, now, now_ms, event_ms, out),
            res,
        ),
    ensures
        final(w).wf(),
        model::webrtc_routed(old(w)@, now, now_ms, event_ms, out, final(w)@, res.0, res.1@),
        laws::moved(
            old(w)@,
            (Move::Webrtc { now, now_ms, event_ms, out, output: res.0, actions: res.1@ }),
            final(w)@,
        ),
{
}

/// The order to stop.
pub proof fn law_shutdown<T: Payloads>(
    w: &mut MediaServerWorker<T>,
    now: Instant,
    actions: Vec<Action<T>>,
)
    requires
        call_ensures(MediaServerWorker::<T>::shutdown, (w, now), actions),
    ensures
        final(w).wf(),
        model::shut_down(
            old(w)@,
            now,
            outside::timestamp_of(old(w)@.timer, now),
            final(w)@,
            actions@,
        ),
        laws::moved(
            old(w)@,
            (Move::Shutdown { now, now_ms: outside::timestamp_of(old(w)@.timer, now), actions: actions@ }),
            final(w)@,
        ),
{
}

/// The order to stop, at a known time.
pub proof fn law_shutdown_at<T: Payloads>(
    w: &mut MediaServerWorker<T>,
    now: Instant,
    now_ms: u64,
    actions: Vec<Action<T>>,
)
    requires
        call_ensures(MediaServerWorker::<T>::shutdown_at, (w, now, now_ms), actions),
    ensures
        final(w).wf(),
        model::shut_down(old(w)@, now, now_ms, final(w)@, actions@),
        laws::moved(
            old(w)@,
            (Move::Shutdown { now, now_ms, actions: actions@ }),
            final(w)@,
        ),
{
}

/// A new worker is fresh, and its tasks are set up for the node it was made for.
pub proof fn law_new<T: Payloads>(
    worker: u16,
    node_id: u32,
    session: u64,
    secret: &str,
    controller: bool,
    sdn_udp: u16,
    node_addr: NodeAddr,
    sdn_zone: u32,
    media: MediaConfig<T::Secure>,
    res: (MediaServerWorker<T>, WorkerSetup<T>),
)
    requires
        call_ensures(
            MediaServerWorker::<T>::new,
            (worker, node_id, session, secret, controller, sdn_udp, node_addr, sdn_zone, media),
            res,
        ),
    ensures
        res.0.wf(),
        res.0@ == model::started::<T>(worker, sdn_udp, node_addr, media, res.0@.timer),
        config::sdn_set_up(
            res.1.sdn,
            node_id,
            session,
            secret@,
            controller,
            node_addr,
            sdn_zone,
            media.max_live,
        ),
        config::webrtc_set_up(res.1.webrtc, media),
{
}

/// A worker that is made with a known pivot reads the clock through it.
pub proof fn law_with_timer<T: Payloads>(
    worker: u16,
    node_id: u32,
    session: u64,
    secret: &str,
    controller: bool,
    sdn_udp: u16,
    node_addr: NodeAddr,
    sdn_zone: u32,
    media: MediaConfig<T::Secure>,
    timer: TimePivot,
    res: (MediaServerWorker<T>, WorkerSetup<T>),
)
    requires
        call_ensures(
            MediaServerWorker::<T>::with_timer,
            (worker, node_id, session, secret, controller, sdn_udp, node_addr, sdn_zone, media, timer),
            res,
        ),
    ensures
        res.0.wf(),
        res.0@ == model::started::<T>(worker, sdn_udp, node_addr, media, timer),
        config::sdn_set_up(
            res.1.sdn,
            node_id,
            session,
            secret@,
            controller,
            node_addr,
            sdn_zone,
            media.max_live,
        ),
        config::webrtc_set_up(res.1.webrtc, media),
{
}

/// A sound worker takes every call, at any time and with anything it is not known to refuse: it
/// refuses only a failed listen of the network worker and a request to delete a connection of the
/// WebRTC protocol.
pub proof fn law_every_call_may_be_made<T: Payloads>(
    w: &mut MediaServerWorker<T>,
    now: Instant,
    now_ms: u64,
    event_ms: u64,
    salt: u64,
    input: Input<T>,
    webrtc_tasks: usize,
    req_id: u64,
    req: RpcReq<T>,
    variant: Variant,
    result: RpcResult<Spawned>,
    task: TaskType,
    sdn: SdnWorkerOutput<T>,
    cluster: ClusterOutput<T>,
    group: GroupOutput<T>,
)
    requires
        old(w).wf(),
    ensures
        call_requires(MediaServerWorker::<T>::on_tick, (w, now)),
        call_requires(MediaServerWorker::<T>::tick_at, (w, now, now_ms)),
        call_requires(MediaServerWorker::<T>::on_webrtc_count, (w, now_ms, webrtc_tasks)),
        input.accepted() ==> call_requires(
            MediaServerWorker::<T>::on_event,
            (w, now, input, webrtc_tasks),
        ),
        input.accepted() ==> call_requires(
            MediaServerWorker::<T>::event_at,
            (w, now, now_ms, salt, input, webrtc_tasks),
        ),
        Input::ExtRpc(req_id, req).accepted() ==> call_requires(
            MediaServerWorker::<T>::process_rpc,
            (w, now, req_id, req),
        ),
        Input::ExtRpc(req_id, req).accepted() ==> call_requires(
            MediaServerWorker::<T>::process_rpc_with,
            (w, now, req_id, req, salt),
        ),
        call_requires(MediaServerWorker::<T>::on_spawned, (w, req_id, variant, result)),
        call_requires(MediaServerWorker::<T>::pop_output, (w, now)),
        call_requires(MediaServerWorker::<T>::pop_output_at, (w, now, now_ms)),
        call_requires(MediaServerWorker::<T>::on_polled_empty, (w, task, now)),
        call_requires(MediaServerWorker::<T>::polled_empty_at, (w, task, now, now_ms)),
        call_requires(MediaServerWorker::<T>::output_sdn, (w, now, sdn)),
        call_requires(MediaServerWorker::<T>::output_cluster, (w, now, cluster)),
        call_requires(MediaServerWorker::<T>::output_cluster_at, (w, now, now_ms, cluster)),
        call_requires(MediaServerWorker::<T>::output_webrtc, (w, now, group)),
        call_requires(MediaServerWorker::<T>::output_webrtc_at, (w, now, now_ms, event_ms, group)),
        call_requires(MediaServerWorker::<T>::shutdown, (w, now)),
        call_requires(MediaServerWorker::<T>::shutdown_at, (w, now, now_ms)),
{
}

/// A worker can be made whenever its limits add up to something that 32 bits hold.
pub proof fn law_worker_may_be_made<T: Payloads>(
    worker: u16,
    node_id: u32,
    session: u64,
    secret: &str,
    controller: bool,
    sdn_udp: u16,
    node_addr: NodeAddr,
    sdn_zone: u32,
    media: MediaConfig<T::Secure>,
    timer: TimePivot,
)
    requires
        config::total_live(media.max_live@) <= u32::MAX,
    ensures
        call_requires(
            MediaServerWorker::<T>::new,
            (worker, node_id, session, secret, controller, sdn_udp, node_addr, sdn_zone, media),
        ),
        call_requires(
            MediaServerWorker::<T>::with_timer,
            (
                worker,
                node_id,
                session,
                secret,
                controller,
                sdn_udp,
                node_addr,
                sdn_zone,
                media,
                timer,
            ),
        ),
{
}

/// Each task of the network worker counts twice, and nothing else counts.
pub proof fn law_tasks_count_twice<T: Payloads>(
    w: MediaServerWorker<T>,
    sdn_tasks: usize,
    tasks: usize,
)
    requires
        call_ensures(MediaServerWorker::<T>::tasks, (&w, sdn_tasks), tasks),
    ensures
        tasks == sdn_tasks + sdn_tasks,
{
}

/// Adding up all limits gives their sum.
pub proof fn law_sum_max_live(limits: HashMap<u8, u32>, total: u32)
    requires
        call_ensures(config::sum_max_live, (&limits,), total),
    ensures
        total == config::total_live(limits@),
{
}

/// What a number is written as reads back as that number.
pub proof fn law_decimal_text(n: u64, digits: String)
    requires
        call_ensures(text::decimal_text, (n,), digits),
    ensures
        outcomes::reads_as(digits@, n as nat),
{
    outcomes::law_decimal_reads_back(n as nat);
}

/// A task is found again at its place, and nothing is found elsewhere.
pub proof fn law_tasks_are_found_at_their_place(
    task: TaskType,
    place: usize,
    other: usize,
    found: Option<TaskType>,
)
    requires
        call_ensures(TaskType::index, (task,), place),
        call_ensures(TaskType::from_index, (other,), found),
    ensures
        place == other <==> found == Some(task),
        found is Some <==> other < 3,
        task is Sdn <==> place == 0,
        task is MediaCluster <==> place == 1,
        task is MediaWebrtc <==> place == 2,
{
}

/// What was queued comes out as it was put in.
pub proof fn law_queued_comes_out<T: Payloads>(item: Queued, out: Output<T>)
    requires
        call_ensures(Queued::into_output::<T>, (item,), out),
    ensures
        match item {
            Queued::ExtRpc(req_id, res) => out == Output::<T>::ExtRpc(req_id, res),
            Queued::SdnListen(addr, reuse) => out == Output::<T>::Net(
                Owner::Sdn,
                (BackendOutgoing::UdpListen { addr, reuse }),
            ),
        },
{
}

/// A packet leaves from the slot it is sent from, otherwise as it was.
pub proof fn law_packets_leave_from_the_slot(net: NetOutput, slot: usize, out: BackendOutgoing)
    requires
        call_ensures(NetOutput::from_slot, (net, slot), out),
    ensures
        match net {
            NetOutput::UdpPacket(
                to,
                data,
            ) => out == (BackendOutgoing::UdpPacket { slot, to, data }),
            NetOutput::UdpPackets(
                to,
                data,
            ) => out == (BackendOutgoing::UdpPackets { slot, to, data }),
        },
{
}

/// Every interface is meant by the address of zeros.
pub proof fn law_any_v4(port: u16, addr: SocketAddr)
    requires
        call_ensures(SocketAddr::any_v4, (port,), addr),
    ensures
        addr == (SocketAddr::V4 { ip: 0, port }),
{
}

/// A media node shows as what it is said to be.
pub proof fn law_media_node_shows<T: Payloads>(
    addr: String,
    metrics: NodeMetrics,
    live: u32,
    max: u32,
    info: ClusterNodeInfo<T>,
)
    requires
        call_ensures(ClusterNodeInfo::<T>::media, (addr, metrics, live, max), info),
    ensures
        info matches ClusterNodeInfo::Media(generic, media) && {
            &&& generic.addr@ == addr@
            &&& generic.cpu == metrics.cpu
            &&& generic.memory == metrics.memory
            &&& generic.disk == metrics.disk
            &&& media.live == live
            &&& media.max == max
        },
{
}

/// A response that leaves the name of its connection open holds the rest as it was given.
pub proof fn law_unnamed_response(sdp: String, ice_lite: bool, res: ConnectResponse)
    requires
        call_ensures(ConnectResponse::unnamed, (sdp, ice_lite), res),
    ensures
        res.conn_id@.len() == 0,
        res.sdp == sdp,
        res.ice_lite == ice_lite,
{
}

} // verus!
