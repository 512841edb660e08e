//! What comes of each step, told from what goes in and what comes out alone.
//!
//! Tasks are told apart by their place: 0 is the network worker, 1 the media cluster, 2 the WebRTC
//! sessions.
use crate::action::{Action, Input, Output, Queued, Step, TaskType};
use crate::cluster::{ClusterOutput, MediaClusterEndpoint};
use crate::config::{self, MediaConfig, SdnSetup, Service, WebrtcSetup};
use crate::model::{self, WorkerView};
use crate::net::{BackendIncoming, BackendOutgoing, IpAddr, NetInput, NetOutput, Owner, SocketAddr};
use crate::outside;
use crate::payload::Payloads;
use crate::rpc::{
    ConnectRequest, RpcReq, RpcRes, RpcResult, Variant, WebrtcReq, WebrtcRes, WhepConnectReq,
    WhepReq, WhepRes, WhipConnectReq, WhipReq, WhipRes,
};
use crate::sdn::{
    ClusterNodeInfo, ConnectorControl, ConnectorRequest, GatewayControl, NodeMetrics, SdnExtIn,
    SdnExtOut, SdnWorkerInput, SdnWorkerOutput, ServiceId, ServiceKind, UserData, VisualControl, SC,
};
use crate::text;
use crate::webrtc::{ExtIn, ExtOut, GroupInput, GroupOutput, Spawned, VariantParams, WebrtcSession};
use atm0s_sdn::features::{FeaturesControl, FeaturesEvent};
use atm0s_sdn::{NodeAddr, TimePivot};
use sans_io_runtime::Buffer;
use std::collections::HashMap;
use std::time::Instant;
use vstd::prelude::*;

verus! {

// ---- The time of day ----

/// The worker reads every instant through the pivot it was made with, and what a session tells of
/// its peer is dated by when it happened, not by when it is told.
pub proof fn law_times_are_read_through_the_pivot<T: Payloads>(
    pre: WorkerView<T>,
    now: Instant,
    session_id: u64,
    ts: Instant,
    event: T::PeerEvent,
)
    ensures
        pre.ms(now) == outside::timestamp_of(pre.timer, now),
        model::event_ms(pre, GroupOutput::<T>::PeerEvent(session_id, ts, event))
            == outside::timestamp_of(pre.timer, ts),
{
}

// ---- A new worker ----

/// The limits of nothing add up to nothing, and one more limit adds just what it is.
pub proof fn law_limits_add_up(limits: Map<u8, u32>, kind: u8, limit: u32)
    requires
        limits.dom().finite(),
        !limits.contains_key(kind),
    ensures
        config::total_live(Map::<u8, u32>::empty()) == 0,
        config::total_live(limits.insert(kind, limit)) == config::total_live(limits) + limit,
{
    let more = limits.insert(kind, limit);
    config::lemma_total_live_remove(more, kind);
    assert(more.remove(kind) =~= limits);
}

/// A new worker knows its number, its address, its limit and its keys. It has nothing to give out
/// but the request for a socket on every interface, at the port it was told and shared with other
/// workers, and no task has anything either. It has never reported.
pub proof fn law_starts_fresh<T: Payloads>(
    worker: u16,
    sdn_udp: u16,
    node_addr: NodeAddr,
    media: MediaConfig<T::Secure>,
    timer: TimePivot,
    new: WorkerView<T>,
)
    requires
        config::total_live(media.max_live@) <= u32::MAX,
        new == model::started::<T>(worker, sdn_udp, node_addr, media, timer),
    ensures
        new.worker == worker,
        new.sdn_addr == node_addr,
        new.sdn_slot == 1,
        new.media_max_live == config::total_live(media.max_live@),
        forall|place: usize| !#[trigger] new.flagged.contains(place),
        new.queue == seq![Queued::SdnListen(SocketAddr::V4 { ip: 0, port: sdn_udp }, true)],
        new.timer == timer,
        new.last_feedback == 0,
        new.secure == media.secure,
{
}

/// The network worker gets the node's number, a tick of one second, and the address, the limits
/// and the zone of the node. Only beside a controller does the connector run; the controller gets
/// the session and the secret. The node is shown as an idle media node with its full limit, it
/// collects nothing, it goes by no tag and seeks the gateways of its own zone alone.
pub proof fn law_network_worker_is_set_up<T: Payloads>(
    setup: SdnSetup<T>,
    node_id: u32,
    session: u64,
    secret: Seq<char>,
    controller: bool,
    node_addr: NodeAddr,
    sdn_zone: u32,
    max_live: HashMap<u8, u32>,
)
    requires
        config::total_live(max_live@) <= u32::MAX,
        config::sdn_set_up(
            setup,
            node_id,
            session,
            secret,
            controller,
            node_addr,
            sdn_zone,
            max_live,
        ),
    ensures
        setup.node_id == node_id,
        setup.tick_ms == 1000,
        setup.controller is Some <==> controller,
        setup.controller matches Some(plane) ==> {
            &&& plane.session == session
            &&& plane.secret@ == secret
            &&& plane.services@ == seq![
                Service::Visualization,
                Service::Discovery,
                Service::Gateway,
                Service::Connector,
            ]
            // The data plane runs what the controller runs, but for the connector.
            &&& plane.services@ == setup.data.services@.push(Service::Connector)
        },
        setup.data.worker_id == 0,
        setup.data.services@ == seq![
            Service::Visualization,
            Service::Discovery,
            Service::Gateway,
        ],
        setup.node_info matches ClusterNodeInfo::Media(generic, media) && {
            &&& generic.addr@ == outside::node_addr_text(node_addr)
            &&& generic.cpu == 0
            &&& generic.memory == 0
            &&& generic.disk == 0
            &&& media.live == 0
            &&& media.max == config::total_live(max_live@)
        },
        !setup.collector,
        setup.node_addr == node_addr,
        setup.own_tags@.len() == 0,
        setup.sought_zones@ == seq![sdn_zone],
        setup.max_live == max_live,
{
    assert(seq![
        Service::Visualization,
        Service::Discovery,
        Service::Gateway,
        Service::Connector,
    ] =~= seq![Service::Visualization, Service::Discovery, Service::Gateway].push(
        Service::Connector,
    ));
}

/// The WebRTC sessions get the addresses, the ICE mode and the keys of the configuration.
pub proof fn law_sessions_are_set_up<T: Payloads>(
    setup: WebrtcSetup<T>,
    media: MediaConfig<T::Secure>,
)
    requires
        config::webrtc_set_up(setup, media),
    ensures
        setup.addrs == media.webrtc_addrs,
        setup.ice_lite == media.ice_lite,
        setup.secure == media.secure,
{
}

// ---- Ticks and reports ----

/// Every tick reaches each of the three tasks exactly once, each with the time it goes by, and
/// leaves each of them to be polled. The sessions are counted, at most once and after all were
/// ticked, if and only if a second has passed since the last report.
pub proof fn law_tick_reaches_each_task_once<T: Payloads>(
    pre: WorkerView<T>,
    now: Instant,
    now_ms: u64,
    post: WorkerView<T>,
    actions: Seq<Action<T>>,
)
    requires
        model::ticked(pre, now, now_ms, post, actions),
    ensures
        actions.len() == if pre.last_feedback + 1000 <= now_ms { 4int } else { 3int },
        forall|i: int|
            0 <= i < actions.len() ==> {
                &&& (#[trigger] actions[i] == Action::<T>::SdnTick(now_ms)) <==> i == 0
                &&& (actions[i] == Action::<T>::ClusterTick(now)) <==> i == 1
                &&& (actions[i] == Action::<T>::WebrtcTick(now)) <==> i == 2
                &&& (actions[i] == Action::<T>::WebrtcCount(now_ms)) <==> i == 3
            },
        post.last_feedback == if pre.last_feedback + 1000 <= now_ms {
            now_ms
        } else {
            pre.last_feedback
        },
        post == (WorkerView::<T> {
            flagged: pre.flagged.insert(0).insert(1).insert(2),
            last_feedback: post.last_feedback,
            ..pre
        }),
{
    assert(post.flagged =~= pre.flagged.insert(0).insert(1).insert(2));
}

/// A count of the sessions goes to the gateway's agent, in the worker's own name and under its
/// number, as it is, or cut to 32 bits where it has more.
pub proof fn law_report_tells_the_count<T: Payloads>(
    pre: WorkerView<T>,
    now_ms: u64,
    webrtc_tasks: usize,
    post: WorkerView<T>,
    action: Action<T>,
)
    requires
        model::usage_reported(pre, now_ms, webrtc_tasks, post, action),
    ensures
        action matches Action::SdnEvent(
            at,
            SdnWorkerInput::Ext(
                SdnExtIn::ServicesControl(
                    ServiceId::GatewayAgent,
                    UserData::Cluster,
                    SC::Gateway(GatewayControl::WorkerUsage(ServiceKind::Webrtc, worker, live)),
                ),
            ),
        ) && {
            &&& at == now_ms
            &&& worker == pre.worker
            &&& live as int == webrtc_tasks as int % 0x1_0000_0000
            &&& webrtc_tasks <= u32::MAX ==> live == webrtc_tasks
        },
        post == (WorkerView::<T> { flagged: pre.flagged.insert(0), ..pre }),
{
}

// ---- Inputs ----

/// The worker takes everything but a failed listen of the network worker and a request to delete
/// a connection of the WebRTC protocol.
pub proof fn law_what_is_accepted<T: Payloads>(input: Input<T>)
    ensures
        !input.accepted() <==> {
            ||| input matches Input::ExtRpc(_, RpcReq::Webrtc(WebrtcReq::Delete(_)))
            ||| input matches Input::Net(
                Owner::Sdn,
                BackendIncoming::UdpListenResult { bind: _, result: Err(_) },
            )
        },
{
}

/// The console and the gateway's agent both hear how busy the node is, in this order, at the same
/// time and in the worker's own name. The console also hears where the node is, how many sessions
/// run and how many may.
pub proof fn law_node_stats_are_told_twice<T: Payloads>(
    pre: WorkerView<T>,
    now: Instant,
    now_ms: u64,
    salt: u64,
    metrics: NodeMetrics,
    webrtc_tasks: usize,
    post: WorkerView<T>,
    actions: Seq<Action<T>>,
)
    requires
        model::input_taken(
            pre,
            now,
            now_ms,
            salt,
            Input::NodeStats(metrics),
            webrtc_tasks,
            post,
            actions,
        ),
    ensures
        actions.len() == 2,
        actions[0] matches Action::SdnEvent(
            at,
            SdnWorkerInput::Ext(
                SdnExtIn::ServicesControl(
                    ServiceId::Visualization,
                    UserData::Cluster,
                    SC::Visual(VisualControl::UpdateInfo(ClusterNodeInfo::Media(generic, media))),
                ),
            ),
        ) && {
            &&& at == now_ms
            &&& generic.addr@ == outside::node_addr_text(pre.sdn_addr)
            &&& generic.cpu == metrics.cpu
            &&& generic.memory == metrics.memory
            &&& generic.disk == metrics.disk
            &&& media.live as int == webrtc_tasks as int % 0x1_0000_0000
            &&& media.max == pre.media_max_live
        },
        actions[1] == Action::<T>::SdnEvent(
            now_ms,
            SdnWorkerInput::Ext(
                SdnExtIn::ServicesControl(
                    ServiceId::GatewayAgent,
                    UserData::Cluster,
                    SC::Gateway(GatewayControl::NodeStats(metrics)),
                ),
            ),
        ),
        post == (WorkerView::<T> { flagged: pre.flagged.insert(0), ..pre }),
{
}

/// What is asked of the network from outside, and what other workers tell, goes to the network
/// worker as it is: one call, on its own channel.
pub proof fn law_network_inputs_go_to_the_network_worker<T: Payloads>(
    pre: WorkerView<T>,
    now: Instant,
    now_ms: u64,
    salt: u64,
    input: Input<T>,
    webrtc_tasks: usize,
    post: WorkerView<T>,
    actions: Seq<Action<T>>,
)
    requires
        input is ExtSdn || input is Bus,
        model::input_taken(pre, now, now_ms, salt, input, webrtc_tasks, post, actions),
    ensures
        actions.len() == 1,
        actions[0] matches Action::SdnEvent(at, told) && at == now_ms && match input {
            Input::ExtSdn(ext) => told == SdnWorkerInput::<T>::Ext(ext),
            Input::Bus(event) => told == SdnWorkerInput::<T>::Bus(event),
            _ => false,
        },
        post == (WorkerView::<T> { flagged: pre.flagged.insert(0), ..pre }),
{
}

/// What comes from a socket goes to the task that owns it. The sessions get everything, as it is.
/// The network worker gets the sender and the bytes of each packet; that its socket is bound, and
/// in which slot, is for the worker itself.
pub proof fn law_sockets_speak_to_their_owner<T: Payloads>(
    pre: WorkerView<T>,
    now: Instant,
    now_ms: u64,
    salt: u64,
    owner: Owner,
    event: BackendIncoming,
    webrtc_tasks: usize,
    post: WorkerView<T>,
    actions: Seq<Action<T>>,
)
    requires
        Input::<T>::Net(owner, event).accepted(),
        model::input_taken(
            pre,
            now,
            now_ms,
            salt,
            Input::Net(owner, event),
            webrtc_tasks,
            post,
            actions,
        ),
    ensures
        owner is MediaWebrtc ==> {
            &&& actions.len() == 1
            &&& actions[0] == Action::<T>::WebrtcEvent(now, GroupInput::Net(event))
            &&& post == (WorkerView::<T> { flagged: pre.flagged.insert(2), ..pre })
        },
        owner is Sdn ==> match event {
            BackendIncoming::UdpPacket { slot: _, from, data } => {
                &&& actions.len() == 1
                &&& actions[0] == Action::<T>::SdnEvent(
                    now_ms,
                    SdnWorkerInput::Net(NetInput::UdpPacket(from, data)),
                )
                &&& post == (WorkerView::<T> { flagged: pre.flagged.insert(0), ..pre })
            },
            BackendIncoming::UdpListenResult { bind: _, result } => {
                &&& actions.len() == 0
                &&& result matches Ok((_, slot)) && post == (WorkerView::<T> {
                    sdn_slot: slot,
                    ..pre
                })
            },
        },
{
}

// ---- Requests ----

/// The request `req` comes in under the number `req_id`, by itself or as an input.
pub open spec fn request_taken<T: Payloads>(
    pre: WorkerView<T>,
    now: Instant,
    now_ms: u64,
    salt: u64,
    req_id: u64,
    req: RpcReq<T>,
    webrtc_tasks: usize,
    post: WorkerView<T>,
    actions: Seq<Action<T>>,
) -> bool {
    ||| model::rpc_processed(pre, now, salt, req_id, req, post, actions)
    ||| model::input_taken(
        pre,
        now,
        now_ms,
        salt,
        Input::ExtRpc(req_id, req),
        webrtc_tasks,
        post,
        actions,
    )
}

/// Whatever a request leads to bears the number of the request: the session that is to be
/// started, what a session is asked, and the answer that is queued.
pub proof fn law_requests_keep_their_number<T: Payloads>(
    pre: WorkerView<T>,
    now: Instant,
    now_ms: u64,
    salt: u64,
    req_id: u64,
    req: RpcReq<T>,
    webrtc_tasks: usize,
    post: WorkerView<T>,
    actions: Seq<Action<T>>,
    i: int,
)
    requires
        request_taken(pre, now, now_ms, salt, req_id, req, webrtc_tasks, post, actions),
        0 <= i < actions.len(),
    ensures
        match actions[i] {
            Action::WebrtcSpawn(spawn) => spawn.req_id == req_id,
            Action::WebrtcEvent(_, GroupInput::Ext(_, ExtIn::RemoteIce(id, _, _))) => id == req_id,
            Action::WebrtcEvent(_, GroupInput::Ext(_, ExtIn::RestartIce(id, _, _, _, _))) => id
                == req_id,
            Action::WebrtcEvent(_, GroupInput::Close(_)) => true,
            _ => false,
        },
        post.queue == pre.queue || {
            &&& post.queue.len() == pre.queue.len() + 1
            &&& post.queue.take(pre.queue.len() as int) == pre.queue
            &&& post.queue.last() matches Queued::ExtRpc(id, _) && id == req_id
        },
        actions[i] matches Action::WebrtcEvent(at, _) ==> at == now,
{
    assert(post.queue == pre.queue || post.queue.take(pre.queue.len() as int) =~= pre.queue);
}

/// A WHIP client that connects gets a session for its room and peer, at its address and with its
/// description. Nothing is answered yet.
pub proof fn law_whip_connects<T: Payloads>(
    pre: WorkerView<T>,
    now: Instant,
    now_ms: u64,
    salt: u64,
    req_id: u64,
    req: WhipConnectReq,
    webrtc_tasks: usize,
    post: WorkerView<T>,
    actions: Seq<Action<T>>,
)
    requires
        request_taken(
            pre,
            now,
            now_ms,
            salt,
            req_id,
            RpcReq::Whip(WhipReq::Connect(req)),
            webrtc_tasks,
            post,
            actions,
        ),
    ensures
        actions.len() == 1,
        actions[0] matches Action::WebrtcSpawn(spawn) && {
            &&& spawn.req_id == req_id
            &&& spawn.ip == req.ip
            &&& spawn.session_id == req.session_id
            &&& spawn.sdp == req.sdp
            &&& spawn.params == VariantParams::<T>::Whip(req.room, req.peer)
        },
        post == (WorkerView::<T> { flagged: pre.flagged.insert(2), ..pre }),
{
}

/// A WHEP client that connects gets a session for its room, at its address and with its
/// description, and a peer whose name is made from the number drawn. Nothing is answered yet.
pub proof fn law_whep_connects<T: Payloads>(
    pre: WorkerView<T>,
    now: Instant,
    now_ms: u64,
    salt: u64,
    req_id: u64,
    req: WhepConnectReq,
    webrtc_tasks: usize,
    post: WorkerView<T>,
    actions: Seq<Action<T>>,
)
    requires
        request_taken(
            pre,
            now,
            now_ms,
            salt,
            req_id,
            RpcReq::Whep(WhepReq::Connect(req)),
            webrtc_tasks,
            post,
            actions,
        ),
    ensures
        actions.len() == 1,
        actions[0] matches Action::WebrtcSpawn(spawn) && {
            &&& spawn.req_id == req_id
            &&& spawn.ip == req.ip
            &&& spawn.session_id == req.session_id
            &&& spawn.sdp == req.sdp
            &&& spawn.params matches VariantParams::Whep(room, peer) && {
                &&& room == req.room
                &&& peer.0@.take(5) == seq!['w', 'h', 'e', 'p', '-']
                &&& reads_as(peer.0@.skip(5), salt as nat)
            }
        },
        post == (WorkerView::<T> { flagged: pre.flagged.insert(2), ..pre }),
{
    law_whep_peer_reads_back(salt);
}

/// A native client that connects gets a session with all it sent, at its address, with its
/// description and with the keys of the worker. Nothing is answered yet.
pub proof fn law_webrtc_connects<T: Payloads>(
    pre: WorkerView<T>,
    now: Instant,
    now_ms: u64,
    salt: u64,
    req_id: u64,
    session_id: u64,
    ip: IpAddr,
    user_agent: String,
    req: ConnectRequest<T>,
    webrtc_tasks: usize,
    post: WorkerView<T>,
    actions: Seq<Action<T>>,
)
    requires
        request_taken(
            pre,
            now,
            now_ms,
            salt,
            req_id,
            RpcReq::Webrtc(WebrtcReq::Connect(session_id, ip, user_agent, req)),
            webrtc_tasks,
            post,
            actions,
        ),
    ensures
        actions.len() == 1,
        actions[0] matches Action::WebrtcSpawn(spawn) && {
            &&& spawn.req_id == req_id
            &&& spawn.ip == ip
            &&& spawn.session_id == session_id
            &&& spawn.sdp == req.sdp
            &&& spawn.params == VariantParams::<T>::Webrtc(user_agent, req, pre.secure)
        },
        post == (WorkerView::<T> { flagged: pre.flagged.insert(2), ..pre }),
{
}

/// The candidates of a client reach the session of its connection, all of them and in order, with
/// the protocol they came in. Nothing is answered yet.
pub proof fn law_candidates_reach_the_session<T: Payloads>(
    pre: WorkerView<T>,
    now: Instant,
    now_ms: u64,
    salt: u64,
    req_id: u64,
    req: RpcReq<T>,
    webrtc_tasks: usize,
    post: WorkerView<T>,
    actions: Seq<Action<T>>,
)
    requires
        request_taken(pre, now, now_ms, salt, req_id, req, webrtc_tasks, post, actions),
        (match req {
            RpcReq::Whip(ask) => ask is RemoteIce,
            RpcReq::Whep(ask) => ask is RemoteIce,
            RpcReq::Webrtc(ask) => ask is RemoteIce,
        }),
    ensures
        actions.len() == 1,
        actions[0] matches Action::WebrtcEvent(
            at,
            GroupInput::Ext(session, ExtIn::RemoteIce(id, protocol, candidates)),
        ) && at == now && id == req_id && match req {
            RpcReq::Whip(WhipReq::RemoteIce(ice)) => {
                &&& session.0 == ice.conn_id
                &&& protocol == Variant::Whip
                &&& candidates@ == seq![ice.ice]
            },
            RpcReq::Whep(WhepReq::RemoteIce(ice)) => {
                &&& session.0 == ice.conn_id
                &&& protocol == Variant::Whep
                &&& candidates@ == seq![ice.ice]
            },
            RpcReq::Webrtc(WebrtcReq::RemoteIce(conn, ice)) => {
                &&& session.0 == conn
                &&& protocol == Variant::Webrtc
                &&& candidates@ == ice.candidates@
            },
            _ => false,
        },
        post == (WorkerView::<T> { flagged: pre.flagged.insert(2), ..pre }),
{
}

/// A request to restart reaches the session of its connection, with all the client sent. Nothing
/// is answered yet.
pub proof fn law_restart_reaches_the_session<T: Payloads>(
    pre: WorkerView<T>,
    now: Instant,
    now_ms: u64,
    salt: u64,
    req_id: u64,
    conn: usize,
    ip: IpAddr,
    user_agent: String,
    req: ConnectRequest<T>,
    webrtc_tasks: usize,
    post: WorkerView<T>,
    actions: Seq<Action<T>>,
)
    requires
        request_taken(
            pre,
            now,
            now_ms,
            salt,
            req_id,
            RpcReq::Webrtc(WebrtcReq::RestartIce(conn, ip, user_agent, req)),
            webrtc_tasks,
            post,
            actions,
        ),
    ensures
        actions.len() == 1,
        actions[0] == Action::<T>::WebrtcEvent(
            now,
            GroupInput::Ext(
                WebrtcSession(conn),
                ExtIn::RestartIce(req_id, Variant::Webrtc, ip, user_agent, req),
            ),
        ),
        post == (WorkerView::<T> { flagged: pre.flagged.insert(2), ..pre }),
{
}

/// A request to delete closes the session of its connection and is told that all is well, at the
/// end of what the worker has to give out.
pub proof fn law_delete_closes_the_session<T: Payloads>(
    pre: WorkerView<T>,
    now: Instant,
    now_ms: u64,
    salt: u64,
    req_id: u64,
    req: RpcReq<T>,
    webrtc_tasks: usize,
    post: WorkerView<T>,
    actions: Seq<Action<T>>,
)
    requires
        request_taken(pre, now, now_ms, salt, req_id, req, webrtc_tasks, post, actions),
        (match req {
            RpcReq::Whip(ask) => ask is Delete,
            RpcReq::Whep(ask) => ask is Delete,
            RpcReq::Webrtc(_) => false,
        }),
    ensures
        actions.len() == 1,
        actions[0] matches Action::WebrtcEvent(at, GroupInput::Close(session)) && at == now
            && match req {
            RpcReq::Whip(WhipReq::Delete(end)) => session.0 == end.conn_id,
            RpcReq::Whep(WhepReq::Delete(end)) => session.0 == end.conn_id,
            _ => false,
        },
        post.queue.len() == pre.queue.len() + 1,
        post.queue.last() matches Queued::ExtRpc(id, res) && id == req_id && match req {
            RpcReq::Whip(_) => res matches RpcRes::Whip(WhipRes::Delete(Ok(_))),
            RpcReq::Whep(_) => res matches RpcRes::Whep(WhepRes::Delete(Ok(_))),
            RpcReq::Webrtc(_) => false,
        },
        post == (WorkerView::<T> {
            flagged: pre.flagged.insert(2),
            queue: pre.queue.push(post.queue.last()),
            ..pre
        }),
{
}

/// How an attempt to start a session came out is told last of all, under the number of the
/// request and in its protocol: the error as it is, or the connection and the description of the
/// new session. Only the native protocol is told of ICE lite, and gets an empty name.
pub proof fn law_outcome_is_told<T: Payloads>(
    pre: WorkerView<T>,
    req_id: u64,
    variant: Variant,
    result: RpcResult<Spawned>,
    post: WorkerView<T>,
)
    requires
        model::spawn_answered(pre, req_id, variant, result, post),
    ensures
        post.queue.len() == pre.queue.len() + 1,
        post == (WorkerView::<T> { queue: pre.queue.push(post.queue.last()), ..pre }),
        post.queue.last() matches Queued::ExtRpc(id, res) && id == req_id && match variant {
            Variant::Whip => res matches RpcRes::Whip(WhipRes::Connect(told)) && match result {
                Ok((_, sdp, conn)) => told matches Ok(new) && new.conn_id == conn && new.sdp == sdp,
                Err(error) => told matches Err(why) && why == error,
            },
            Variant::Whep => res matches RpcRes::Whep(WhepRes::Connect(told)) && match result {
                Ok((_, sdp, conn)) => told matches Ok(new) && new.conn_id == conn && new.sdp == sdp,
                Err(error) => told matches Err(why) && why == error,
            },
            Variant::Webrtc => res matches RpcRes::Webrtc(WebrtcRes::Connect(told)) && match result {
                Ok((ice_lite, sdp, conn)) => told matches Ok((at, new)) && {
                    &&& at == conn
                    &&& new.conn_id@.len() == 0
                    &&& new.sdp == sdp
                    &&& new.ice_lite == ice_lite
                },
                Err(error) => told matches Err(why) && why == error,
            },
        },
{
}

// ---- The search for an output ----

/// While the worker has something of its own, the oldest of it comes out as it was put in, and
/// the tasks wait.
pub proof fn law_own_outputs_come_first<T: Payloads>(
    pre: WorkerView<T>,
    now: Instant,
    now_ms: u64,
    post: WorkerView<T>,
    step: Step<T>,
)
    requires
        pre.queue.len() > 0,
        model::popped(pre, now, now_ms, post, step),
    ensures
        step matches Step::Ready(out) && match pre.queue[0] {
            Queued::ExtRpc(req_id, res) => out == Output::<T>::ExtRpc(req_id, res),
            Queued::SdnListen(addr, reuse) => out == Output::<T>::Net(
                Owner::Sdn,
                BackendOutgoing::UdpListen { addr, reuse },
            ),
        },
        pre.queue == seq![pre.queue[0]] + post.queue,
        post == (WorkerView::<T> { queue: post.queue, ..pre }),
{
    assert(pre.queue =~= seq![pre.queue[0]] + post.queue);
}

/// `step` polls the task that comes first among those in `flagged`, at the time it goes by.
pub open spec fn polls_the_first<T: Payloads>(
    flagged: Set<usize>,
    now: Instant,
    now_ms: u64,
    step: Step<T>,
) -> bool {
    match step {
        Step::Ready(_) => false,
        Step::PollSdn(at) => at == now_ms && flagged.contains(0),
        Step::PollCluster => !flagged.contains(0) && flagged.contains(1),
        Step::PollWebrtc(at) => at == now && !flagged.contains(0) && !flagged.contains(1)
            && flagged.contains(2),
        Step::Idle => !flagged.contains(0) && !flagged.contains(1) && !flagged.contains(2),
    }
}

/// When the worker has nothing of its own, the tasks are polled: the network worker before the
/// media cluster, and that before the sessions. Looking changes nothing.
pub proof fn law_tasks_are_polled_in_order<T: Payloads>(
    pre: WorkerView<T>,
    now: Instant,
    now_ms: u64,
    post: WorkerView<T>,
    step: Step<T>,
)
    requires
        pre.queue.len() == 0,
        model::popped(pre, now, now_ms, post, step),
    ensures
        polls_the_first(pre.flagged, now, now_ms, step),
        post == pre,
{
}

/// A task that had nothing is out, and it alone, and the next is polled.
pub proof fn law_empty_task_makes_room<T: Payloads>(
    pre: WorkerView<T>,
    task: TaskType,
    now: Instant,
    now_ms: u64,
    post: WorkerView<T>,
    step: Step<T>,
)
    requires
        model::polled_empty(pre, task, now, now_ms, post, step),
    ensures
        post == (WorkerView::<T> {
            flagged: pre.flagged.remove(
                match task {
                    TaskType::Sdn => 0,
                    TaskType::MediaCluster => 1,
                    TaskType::MediaWebrtc => 2,
                },
            ),
            ..pre
        }),
        polls_the_first(post.flagged, now, now_ms, step),
{
}

// ---- What the tasks put out ----

/// What the network worker says goes out as it is: its events, what it tells other workers, and
/// its packets, to the same addresses and with the same bytes, from the slot of its socket. What
/// is for a room goes to the media cluster. The rest is dropped.
pub proof fn law_network_outputs_go_their_way<T: Payloads>(
    pre: WorkerView<T>,
    now: Instant,
    out: SdnWorkerOutput<T>,
    post: WorkerView<T>,
    output: Output<T>,
    actions: Seq<Action<T>>,
)
    requires
        model::sdn_routed(pre, now, out, post, output, actions),
    ensures
        match out {
            SdnWorkerOutput::Ext(ext) => output == Output::<T>::ExtSdn(ext),
            SdnWorkerOutput::Bus(event) => output == Output::<T>::Bus(event),
            SdnWorkerOutput::Net(NetOutput::UdpPacket(to, data)) => output == Output::<T>::Net(
                Owner::Sdn,
                BackendOutgoing::UdpPacket { slot: pre.sdn_slot, to, data },
            ),
            SdnWorkerOutput::Net(NetOutput::UdpPackets(to, data)) => output == Output::<T>::Net(
                Owner::Sdn,
                BackendOutgoing::UdpPackets { slot: pre.sdn_slot, to, data },
            ),
            SdnWorkerOutput::ExtWorker(_) => output is Continue,
            SdnWorkerOutput::ShutdownResponse => output is Continue,
            SdnWorkerOutput::Continue => output is Continue,
        },
        match out {
            SdnWorkerOutput::ExtWorker(SdnExtOut::FeaturesEvent(UserData::Room(room), event)) => {
                &&& actions.len() == 1
                &&& actions[0] == Action::<T>::ClusterSdnEvent(now, room, event)
                &&& post == (WorkerView::<T> { flagged: pre.flagged.insert(1), ..pre })
            },
            _ => actions.len() == 0 && post == pre,
        },
{
}

/// What a room asks of the network goes to the network worker, for this worker alone and in the
/// room's name.
pub proof fn law_rooms_ask_the_network<T: Payloads>(
    pre: WorkerView<T>,
    now: Instant,
    now_ms: u64,
    room: T::Room,
    control: FeaturesControl,
    post: WorkerView<T>,
    output: Output<T>,
    actions: Seq<Action<T>>,
)
    requires
        model::cluster_routed(
            pre,
            now,
            now_ms,
            ClusterOutput::Sdn(room, control),
            post,
            output,
            actions,
        ),
    ensures
        output is Continue,
        actions.len() == 1,
        actions[0] == Action::<T>::SdnEvent(
            now_ms,
            SdnWorkerInput::ExtWorker(SdnExtIn::FeaturesControl(UserData::Room(room), control)),
        ),
        post == (WorkerView::<T> { flagged: pre.flagged.insert(0), ..pre }),
{
}

/// What the media cluster tells endpoints reaches each of them once and in order, and nobody
/// else. The sessions are polled afterwards if any of them was told anything.
pub proof fn law_each_endpoint_is_told_once<T: Payloads>(
    pre: WorkerView<T>,
    now: Instant,
    now_ms: u64,
    endpoints: Vec<MediaClusterEndpoint>,
    event: T::EndpointEvent,
    post: WorkerView<T>,
    output: Output<T>,
    actions: Seq<Action<T>>,
)
    requires
        model::cluster_routed(
            pre,
            now,
            now_ms,
            ClusterOutput::Endpoint(endpoints, event),
            post,
            output,
            actions,
        ),
    ensures
        output is Continue,
        actions.len() == endpoints@.len(),
        forall|i: int|
            0 <= i < endpoints@.len() ==> (#[trigger] actions[i] matches Action::WebrtcEvent(
                at,
                GroupInput::Cluster(session, told),
            ) && {
                &&& at == now
                &&& endpoints@[i] == MediaClusterEndpoint::Webrtc(session)
                &&& cloned(event, told)
            }),
        post == (WorkerView::<T> {
            flagged: if endpoints@.len() == 0 {
                pre.flagged
            } else {
                pre.flagged.insert(2)
            },
            ..pre
        }),
{
    assert forall|i: int| 0 <= i < endpoints@.len() implies (#[trigger] actions[i] matches
        Action::WebrtcEvent(at, GroupInput::Cluster(session, told)) && {
        &&& at == now
        &&& endpoints@[i] == MediaClusterEndpoint::Webrtc(session)
        &&& cloned(event, told)
    }) by {
        assert(model::endpoint_told(actions[i], now, endpoints@[i], event));
    }
}

/// When the media cluster has nothing to say, nothing happens.
pub proof fn law_quiet_cluster_changes_nothing<T: Payloads>(
    pre: WorkerView<T>,
    now: Instant,
    now_ms: u64,
    post: WorkerView<T>,
    output: Output<T>,
    actions: Seq<Action<T>>,
)
    requires
        model::cluster_routed(pre, now, now_ms, ClusterOutput::Continue, post, output, actions),
    ensures
        output is Continue,
        actions.len() == 0,
        post == pre,
{
}

/// What a session asks of a room goes to the media cluster, in the session's name. What happened
/// to its peer is recorded by the connector's agent, for the session it happened to and at the
/// time it happened. Its packets go out as they are, as its own. The rest but the answers is
/// dropped.
pub proof fn law_session_outputs_go_their_way<T: Payloads>(
    pre: WorkerView<T>,
    now: Instant,
    now_ms: u64,
    event_ms: u64,
    out: GroupOutput<T>,
    post: WorkerView<T>,
    output: Output<T>,
    actions: Seq<Action<T>>,
)
    requires
        !(out is Ext),
        model::webrtc_routed(pre, now, now_ms, event_ms, out, post, output, actions),
    ensures
        match out {
            GroupOutput::Net(net) => output == Output::<T>::Net(Owner::MediaWebrtc, net),
            _ => output is Continue,
        },
        match out {
            GroupOutput::Cluster(session, room, control) => {
                &&& actions.len() == 1
                &&& actions[0] == Action::<T>::ClusterEndpointControl(
                    now,
                    MediaClusterEndpoint::Webrtc(session),
                    room,
                    control,
                )
                &&& post == (WorkerView::<T> { flagged: pre.flagged.insert(1), ..pre })
            },
            GroupOutput::PeerEvent(session_id, _, event) => {
                &&& actions.len() == 1
                &&& actions[0] matches Action::SdnEvent(
                    at,
                    SdnWorkerInput::Ext(
                        SdnExtIn::ServicesControl(
                            ServiceId::ConnectorAgent,
                            UserData::Cluster,
                            SC::Connector(ConnectorControl::Fire(ts, ConnectorRequest::Peer(peer))),
                        ),
                    ),
                ) && {
                    &&& at == now_ms
                    &&& ts == event_ms
                    &&& peer.session_id == session_id
                    &&& peer.event == Some(event)
                }
                &&& post == (WorkerView::<T> { flagged: pre.flagged.insert(0), ..pre })
            },
            _ => actions.len() == 0 && post == pre,
        },
{
}

/// What a session says to a request goes out at once under the number of the request: the error
/// as it is, or, for candidates, that they were taken, in the words of the protocol, and to the
/// native one also how many; for a restart, the connection of the session, its new description,
/// an empty name, and ICE lite just where the session speaks it.
pub proof fn law_session_answers_are_told<T: Payloads>(
    pre: WorkerView<T>,
    now: Instant,
    now_ms: u64,
    event_ms: u64,
    session: WebrtcSession,
    reply: ExtOut,
    post: WorkerView<T>,
    output: Output<T>,
    actions: Seq<Action<T>>,
)
    requires
        model::webrtc_routed(
            pre,
            now,
            now_ms,
            event_ms,
            GroupOutput::Ext(session, reply),
            post,
            output,
            actions,
        ),
    ensures
        actions.len() == 0,
        post == pre,
        output matches Output::ExtRpc(id, res) && match reply {
            ExtOut::RemoteIce(req_id, Variant::Whip, said) => id == req_id && (res matches
                RpcRes::Whip(WhipRes::RemoteIce(told)) && match said {
                Ok(_) => told is Ok,
                Err(error) => told matches Err(why) && why == error,
            }),
            ExtOut::RemoteIce(req_id, Variant::Whep, said) => id == req_id && (res matches
                RpcRes::Whep(WhepRes::RemoteIce(told)) && match said {
                Ok(_) => told is Ok,
                Err(error) => told matches Err(why) && why == error,
            }),
            ExtOut::RemoteIce(req_id, Variant::Webrtc, said) => id == req_id && (res matches
                RpcRes::Webrtc(WebrtcRes::RemoteIce(told)) && match said {
                Ok(added) => told matches Ok(taken) && taken.added == added,
                Err(error) => told matches Err(why) && why == error,
            }),
            ExtOut::RestartIce(req_id, _, said) => id == req_id && (res matches RpcRes::Webrtc(
                WebrtcRes::RestartIce(told),
            ) && match said {
                Ok((ice_lite, sdp)) => told matches Ok((conn, new)) && {
                    &&& conn == session.0
                    &&& new.conn_id@.len() == 0
                    &&& new.sdp == sdp
                    &&& new.ice_lite == ice_lite
                },
                Err(error) => told matches Err(why) && why == error,
            }),
        },
{
}

// ---- The end ----

/// The order to stop reaches each of the three tasks exactly once, and leaves each of them to be
/// polled.
pub proof fn law_shutdown_reaches_each_task_once<T: Payloads>(
    pre: WorkerView<T>,
    now: Instant,
    now_ms: u64,
    post: WorkerView<T>,
    actions: Seq<Action<T>>,
)
    requires
        model::shut_down(pre, now, now_ms, post, actions),
    ensures
        actions.len() == 3,
        forall|i: int|
            0 <= i < 3 ==> {
                &&& (#[trigger] actions[i] == Action::<T>::SdnEvent(
                    now_ms,
                    SdnWorkerInput::ShutdownRequest,
                )) <==> i == 0
                &&& (actions[i] == Action::<T>::ClusterShutdown(now)) <==> i == 1
                &&& (actions[i] == Action::<T>::WebrtcShutdown(now)) <==> i == 2
            },
        post == (WorkerView::<T> { flagged: pre.flagged.insert(0).insert(1).insert(2), ..pre }),
{
}

// ---- Small parts ----

/// A packet leaves from the slot it is sent from, to the addresses and with the bytes it came
/// with, to one or to many as it was.
pub proof fn law_packets_are_sent_as_they_are(
    to: SocketAddr,
    all: Vec<SocketAddr>,
    data: Buffer,
    slot: usize,
)
    ensures
        NetOutput::UdpPacket(to, data).spec_from_slot(slot) == (BackendOutgoing::UdpPacket {
            slot,
            to,
            data,
        }),
        NetOutput::UdpPackets(all, data).spec_from_slot(slot) == (BackendOutgoing::UdpPackets {
            slot,
            to: all,
            data,
        }),
{
}

/// The address of every interface is all zeros, with the port.
pub proof fn law_any_address_is_zero(port: u16)
    ensures
        SocketAddr::spec_any_v4(port) == (SocketAddr::V4 { ip: 0, port }),
{
}

/// The places of the tasks are those named above.
pub proof fn law_places_are_in_order()
    ensures
        TaskType::spec_from_index(0) == Some(TaskType::Sdn),
        TaskType::spec_from_index(1) == Some(TaskType::MediaCluster),
        TaskType::spec_from_index(2) == Some(TaskType::MediaWebrtc),
        TaskType::Sdn.spec_index() < TaskType::MediaCluster.spec_index()
            < TaskType::MediaWebrtc.spec_index() < 3,
{
}

/// The number that a digit stands for.
pub open spec fn digit_value(c: char) -> int {
    c as int - '0' as int
}

/// `digits` are the decimal digits of `n`, the first of them not zero unless it is alone.
pub open spec fn reads_as(digits: Seq<char>, n: nat) -> bool
    decreases digits.len(),
{
    if digits.len() == 0 {
        false
    } else if digits.len() == 1 {
        0 <= digit_value(digits[0]) <= 9 && n == digit_value(digits[0])
    } else {
        &&& 0 <= digit_value(digits.last()) <= 9
        &&& n >= 10
        &&& n % 10 == digit_value(digits.last())
        &&& reads_as(digits.drop_last(), n / 10)
    }
}

/// What a number is written as reads back as that number.
pub proof fn law_decimal_reads_back(n: nat)
    ensures
        reads_as(text::decimal(n), n),
    decreases n,
{
    if n >= 10 {
        law_decimal_reads_back(n / 10);
        let digits = text::decimal(n);
        assert(digits.drop_last() =~= text::decimal(n / 10));
        assert(digits.len() > 1);
    }
}

/// The name of a WHEP peer says what it is, and the rest of it reads back as the number drawn.
pub proof fn law_whep_peer_reads_back(salt: u64)
    ensures
        model::whep_peer(salt).take(5) == seq!['w', 'h', 'e', 'p', '-'],
        reads_as(model::whep_peer(salt).skip(5), salt as nat),
{
    reveal_strlit("whep-");
    let name = model::whep_peer(salt);
    law_decimal_reads_back(salt as nat);
    assert(name.take(5) =~= seq!['w', 'h', 'e', 'p', '-']);
    assert(name.skip(5) =~= text::decimal(salt as nat));
}

} // verus!
