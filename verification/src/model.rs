//! The worker as a mathematical value, and what each of its steps does to that value.
use crate::action::{Action, Input, Output, Queued, Step, TaskType};
use crate::cluster::{ClusterOutput, MediaClusterEndpoint};
use crate::config::{self, MediaConfig};
use crate::net::{BackendIncoming, NetInput, Owner, SocketAddr};
use crate::outside;
use crate::payload::Payloads;
use crate::rpc::{
    RemoteIceResponse, RpcReq, RpcRes, RpcResult, Variant, WebrtcReq, WebrtcRes, WhepConnectRes,
    WhepDeleteRes, WhepRemoteIceRes, WhepReq, WhepRes, WhipConnectRes, WhipDeleteRes,
    WhipRemoteIceRes, WhipReq, WhipRes,
};
use crate::sdn::{
    self, ConnectorControl, ConnectorRequest, GatewayControl, PeerEvent, SdnExtIn,
    SdnExtOut, SdnWorkerInput, SdnWorkerOutput, ServiceId, ServiceKind, UserData, VisualControl,
    SC,
};
use crate::text;
use crate::webrtc::{
    ExtIn, ExtOut, GroupInput, GroupOutput, SpawnRequest, Spawned, VariantParams, WebrtcSession,
};
use atm0s_sdn::{NodeAddr, TimePivot};
use std::sync::Arc;
use std::time::Instant;
use vstd::prelude::*;

verus! {

/// The least time between two reports of the running sessions to the gateway, in milliseconds.
pub const FEEDBACK_GATEWAY_AGENT_INTERVAL: u64 = 1000;

/// The number of tasks of the worker.
pub const TASKS: usize = 3;

/// The worker as a mathematical value.
#[verifier::ext_equal]
pub struct WorkerView<T: Payloads> {
    /// The number of the worker within the node.
    pub worker: u16,
    pub sdn_addr: NodeAddr,
    /// The slot of the socket that the network worker sends from.
    pub sdn_slot: usize,
    /// The sessions that the node may run.
    pub media_max_live: u32,
    /// The tasks that may have an output, by their place in the polling order.
    pub flagged: Set<usize>,
    /// What the worker has to give out on its own account, the oldest first.
    pub queue: Seq<Queued>,
    pub timer: TimePivot,
    /// When the gateway was last told of the running sessions, in milliseconds.
    pub last_feedback: u64,
    pub secure: Arc<T::Secure>,
}

impl<T: Payloads> WorkerView<T> {
    /// Only tasks of the worker are flagged.
    pub open spec fn wf(self) -> bool {
        forall|index: usize| #[trigger] self.flagged.contains(index) ==> index < TASKS
    }

    /// Whether a task may have an output.
    pub open spec fn has_flagged(self, task: TaskType) -> bool {
        self.flagged.contains(task.spec_index())
    }

    /// The worker, with a task that may have an output.
    pub open spec fn flag(self, task: TaskType) -> Self {
        WorkerView { flagged: self.flagged.insert(task.spec_index()), ..self }
    }

    /// The worker, with a task that has no output.
    pub open spec fn unflag(self, task: TaskType) -> Self {
        WorkerView { flagged: self.flagged.remove(task.spec_index()), ..self }
    }

    /// The worker, with one more thing to give out.
    pub open spec fn push(self, item: Queued) -> Self {
        WorkerView { queue: self.queue.push(item), ..self }
    }

    /// The task whose turn it is.
    pub open spec fn turn(self) -> Option<TaskType> {
        if self.has_flagged(TaskType::Sdn) {
            Some(TaskType::Sdn)
        } else if self.has_flagged(TaskType::MediaCluster) {
            Some(TaskType::MediaCluster)
        } else if self.has_flagged(TaskType::MediaWebrtc) {
            Some(TaskType::MediaWebrtc)
        } else {
            None
        }
    }

    /// The time of day at an instant, in milliseconds.
    pub open spec fn ms(self, now: Instant) -> u64 {
        outside::timestamp_of(self.timer, now)
    }
}

/// A worker that has done nothing yet: no task has an output, and the socket of the network
/// worker is to be asked for.
pub open spec fn started<T: Payloads>(
    worker: u16,
    sdn_udp: u16,
    node_addr: NodeAddr,
    media: MediaConfig<T::Secure>,
    timer: TimePivot,
) -> WorkerView<T> {
    WorkerView {
        worker,
        sdn_addr: node_addr,
        sdn_slot: 1,
        media_max_live: config::total_live(media.max_live@) as u32,
        flagged: Set::empty(),
        queue: seq![Queued::SdnListen(SocketAddr::spec_any_v4(sdn_udp), true)],
        timer,
        last_feedback: 0,
        secure: media.secure,
    }
}

/// A count of sessions as it is reported: its low 32 bits.
pub open spec fn live_count(tasks: usize) -> u32 {
    (tasks as int % 0x1_0000_0000) as u32
}

/// The name of the peer that a WHEP session stands for.
pub open spec fn whep_peer(salt: u64) -> Seq<char> {
    "whep-"@ + text::decimal(salt as nat)
}

/// A tick reaches every task. The sessions are counted when the last report is long enough ago.
pub open spec fn ticked<T: Payloads>(
    pre: WorkerView<T>,
    now: Instant,
    now_ms: u64,
    post: WorkerView<T>,
    actions: Seq<Action<T>>,
) -> bool {
    let all = pre.flag(TaskType::Sdn).flag(TaskType::MediaCluster).flag(TaskType::MediaWebrtc);
    let ticks = seq![
        Action::<T>::SdnTick(now_ms),
        Action::<T>::ClusterTick(now),
        Action::<T>::WebrtcTick(now),
    ];
    if pre.last_feedback + FEEDBACK_GATEWAY_AGENT_INTERVAL <= now_ms {
        &&& post == WorkerView { last_feedback: now_ms, ..all }
        &&& actions == ticks.push(Action::<T>::WebrtcCount(now_ms))
    } else {
        &&& post == all
        &&& actions == ticks
    }
}

/// The gateway is told how many sessions the worker runs.
pub open spec fn usage_reported<T: Payloads>(
    pre: WorkerView<T>,
    now_ms: u64,
    webrtc_tasks: usize,
    post: WorkerView<T>,
    action: Action<T>,
) -> bool {
    &&& post == pre.flag(TaskType::Sdn)
    &&& action == Action::<T>::SdnEvent(
        now_ms,
        sdn::service_request(
            ServiceId::GatewayAgent,
            SC::Gateway(
                GatewayControl::WorkerUsage(
                    ServiceKind::Webrtc,
                    pre.worker,
                    live_count(webrtc_tasks),
                ),
            ),
        ),
    )
}

/// What one input does, where `salt` names the peer of a new WHEP session.
pub open spec fn input_taken<T: Payloads>(
    pre: WorkerView<T>,
    now: Instant,
    now_ms: u64,
    salt: u64,
    input: Input<T>,
    webrtc_tasks: usize,
    post: WorkerView<T>,
    actions: Seq<Action<T>>,
) -> bool {
    match input {
        // The console learns how busy the node is, then the gateway does.
        Input::NodeStats(metrics) => {
            &&& post == pre.flag(TaskType::Sdn)
            &&& actions.len() == 2
            &&& actions[0] matches Action::SdnEvent(
                at,
                SdnWorkerInput::Ext(
                    SdnExtIn::ServicesControl(
                        ServiceId::Visualization,
                        UserData::Cluster,
                        SC::Visual(VisualControl::UpdateInfo(info)),
                    ),
                ),
            ) && at == now_ms && info.shows(
                outside::node_addr_text(pre.sdn_addr),
                metrics,
                live_count(webrtc_tasks),
                pre.media_max_live,
            )
            &&& actions[1] == Action::<T>::SdnEvent(
                now_ms,
                sdn::service_request(
                    ServiceId::GatewayAgent,
                    SC::Gateway(GatewayControl::NodeStats(metrics)),
                ),
            )
        },
        Input::ExtRpc(req_id, req) => rpc_processed(pre, now, salt, req_id, req, post, actions),
        Input::ExtSdn(ext) => {
            &&& post == pre.flag(TaskType::Sdn)
            &&& actions == seq![Action::<T>::SdnEvent(now_ms, SdnWorkerInput::Ext(ext))]
        },
        Input::Net(Owner::Sdn, BackendIncoming::UdpPacket { slot: _, from, data }) => {
            &&& post == pre.flag(TaskType::Sdn)
            &&& actions == seq![
                Action::<T>::SdnEvent(now_ms, SdnWorkerInput::Net(NetInput::UdpPacket(from, data))),
            ]
        },
        Input::Net(Owner::Sdn, BackendIncoming::UdpListenResult { bind: _, result }) => {
            &&& result matches Ok((_, slot)) && post == (WorkerView { sdn_slot: slot, ..pre })
            &&& actions == Seq::<Action<T>>::empty()
        },
        Input::Net(Owner::MediaWebrtc, event) => {
            &&& post == pre.flag(TaskType::MediaWebrtc)
            &&& actions == seq![Action::<T>::WebrtcEvent(now, GroupInput::Net(event))]
        },
        Input::Bus(event) => {
            &&& post == pre.flag(TaskType::Sdn)
            &&& actions == seq![Action::<T>::SdnEvent(now_ms, SdnWorkerInput::Bus(event))]
        },
    }
}

/// What a request does, where `salt` names the peer of a new WHEP session.
pub open spec fn rpc_processed<T: Payloads>(
    pre: WorkerView<T>,
    now: Instant,
    salt: u64,
    req_id: u64,
    req: RpcReq<T>,
    post: WorkerView<T>,
    actions: Seq<Action<T>>,
) -> bool {
    let sent = pre.flag(TaskType::MediaWebrtc);
    match req {
        RpcReq::Whip(WhipReq::Connect(req)) => {
            &&& post == sent
            &&& actions == seq![
                Action::<T>::WebrtcSpawn(
                    SpawnRequest {
                        req_id,
                        ip: req.ip,
                        session_id: req.session_id,
                        params: VariantParams::Whip(req.room, req.peer),
                        sdp: req.sdp,
                    },
                ),
            ]
        },
        RpcReq::Whip(WhipReq::RemoteIce(req)) => {
            &&& post == sent
            &&& actions.len() == 1
            &&& ice_forwarded(actions[0], now, req.conn_id, req_id, Variant::Whip, seq![req.ice])
        },
        RpcReq::Whip(WhipReq::Delete(req)) => {
            &&& post == sent.push(
                Queued::ExtRpc(req_id, RpcRes::Whip(WhipRes::Delete(Ok(WhipDeleteRes {  })))),
            )
            &&& actions == seq![
                Action::<T>::WebrtcEvent(now, GroupInput::Close(WebrtcSession(req.conn_id))),
            ]
        },
        RpcReq::Whep(WhepReq::Connect(req)) => {
            &&& post == sent
            &&& actions.len() == 1
            &&& actions[0] matches Action::WebrtcSpawn(spawn) && {
                &&& spawn.req_id == req_id
                &&& spawn.ip == req.ip
                &&& spawn.session_id == req.session_id
                &&& spawn.params matches VariantParams::Whep(room, peer) && room == req.room
                    && peer.0@ == whep_peer(salt)
                &&& spawn.sdp == req.sdp
            }
        },
        RpcReq::Whep(WhepReq::RemoteIce(req)) => {
            &&& post == sent
            &&& actions.len() == 1
            &&& ice_forwarded(actions[0], now, req.conn_id, req_id, Variant::Whep, seq![req.ice])
        },
        RpcReq::Whep(WhepReq::Delete(req)) => {
            &&& post == sent.push(
                Queued::ExtRpc(req_id, RpcRes::Whep(WhepRes::Delete(Ok(WhepDeleteRes {  })))),
            )
            &&& actions == seq![
                Action::<T>::WebrtcEvent(now, GroupInput::Close(WebrtcSession(req.conn_id))),
            ]
        },
        RpcReq::Webrtc(WebrtcReq::Connect(session_id, ip, user_agent, req)) => {
            &&& post == sent
            &&& actions == seq![
                Action::<T>::WebrtcSpawn(
                    SpawnRequest {
                        req_id,
                        ip,
                        session_id,
                        params: VariantParams::Webrtc(user_agent, req, pre.secure),
                        sdp: req.sdp,
                    },
                ),
            ]
        },
        RpcReq::Webrtc(WebrtcReq::RemoteIce(conn, ice)) => {
            &&& post == sent
            &&& actions.len() == 1
            &&& ice_forwarded(actions[0], now, conn, req_id, Variant::Webrtc, ice.candidates@)
        },
        RpcReq::Webrtc(WebrtcReq::RestartIce(conn, ip, user_agent, req)) => {
            &&& post == sent
            &&& actions == seq![
                Action::<T>::WebrtcEvent(
                    now,
                    GroupInput::Ext(
                        WebrtcSession(conn),
                        ExtIn::RestartIce(req_id, Variant::Webrtc, ip, user_agent, req),
                    ),
                ),
            ]
        },
        RpcReq::Webrtc(WebrtcReq::Delete(_)) => false,
    }
}

/// The session behind a connection gets the candidates, for the request `req_id`.
pub open spec fn ice_forwarded<T: Payloads>(
    action: Action<T>,
    now: Instant,
    conn: usize,
    req_id: u64,
    variant: Variant,
    candidates: Seq<String>,
) -> bool {
    action matches Action::WebrtcEvent(
        at,
        GroupInput::Ext(session, ExtIn::RemoteIce(id, protocol, forwarded)),
    ) && {
        &&& at == now
        &&& session == WebrtcSession(conn)
        &&& id == req_id
        &&& protocol == variant
        &&& forwarded@ == candidates
    }
}

/// `item` answers the request `req_id` for a new session of the protocol `variant`, which came
/// out as `result` says.
pub open spec fn spawn_answer(
    item: Queued,
    req_id: u64,
    variant: Variant,
    result: RpcResult<Spawned>,
) -> bool {
    match (variant, result) {
        (Variant::Whip, Ok((_, sdp, conn_id))) => item == Queued::ExtRpc(
            req_id,
            RpcRes::Whip(WhipRes::Connect(Ok(WhipConnectRes { conn_id, sdp }))),
        ),
        (Variant::Whip, Err(error)) => item == Queued::ExtRpc(
            req_id,
            RpcRes::Whip(WhipRes::Connect(Err(error))),
        ),
        (Variant::Whep, Ok((_, sdp, conn_id))) => item == Queued::ExtRpc(
            req_id,
            RpcRes::Whep(WhepRes::Connect(Ok(WhepConnectRes { conn_id, sdp }))),
        ),
        (Variant::Whep, Err(error)) => item == Queued::ExtRpc(
            req_id,
            RpcRes::Whep(WhepRes::Connect(Err(error))),
        ),
        (Variant::Webrtc, Ok((ice_lite, sdp, conn_id))) => item matches Queued::ExtRpc(
            id,
            RpcRes::Webrtc(WebrtcRes::Connect(Ok((conn, response)))),
        ) && id == req_id && conn == conn_id && response.describes(sdp, ice_lite),
        (Variant::Webrtc, Err(error)) => item == Queued::ExtRpc(
            req_id,
            RpcRes::Webrtc(WebrtcRes::Connect(Err(error))),
        ),
    }
}

/// The outcome of a request for a new session is the last thing the worker has to give out.
pub open spec fn spawn_answered<T: Payloads>(
    pre: WorkerView<T>,
    req_id: u64,
    variant: Variant,
    result: RpcResult<Spawned>,
    post: WorkerView<T>,
) -> bool {
    &&& post.queue.len() == pre.queue.len() + 1
    &&& post == pre.push(post.queue.last())
    &&& spawn_answer(post.queue.last(), req_id, variant, result)
}

/// The way to go on after nothing came from elsewhere.
pub open spec fn poll_step<T: Payloads>(
    turn: Option<TaskType>,
    now: Instant,
    now_ms: u64,
) -> Step<T> {
    match turn {
        Some(TaskType::Sdn) => Step::PollSdn(now_ms),
        Some(TaskType::MediaCluster) => Step::PollCluster,
        Some(TaskType::MediaWebrtc) => Step::PollWebrtc(now),
        None => Step::Idle,
    }
}

/// What the worker has on its own account comes first, the oldest first. After that it is the
/// turn of the tasks.
pub open spec fn popped<T: Payloads>(
    pre: WorkerView<T>,
    now: Instant,
    now_ms: u64,
    post: WorkerView<T>,
    step: Step<T>,
) -> bool {
    if pre.queue.len() > 0 {
        &&& post == WorkerView { queue: pre.queue.drop_first(), ..pre }
        &&& step == Step::<T>::Ready(pre.queue[0].spec_into_output())
    } else {
        &&& post == pre
        &&& step == poll_step::<T>(pre.turn(), now, now_ms)
    }
}

/// A task that had no output is out of turn until it is called again.
pub open spec fn polled_empty<T: Payloads>(
    pre: WorkerView<T>,
    task: TaskType,
    now: Instant,
    now_ms: u64,
    post: WorkerView<T>,
    step: Step<T>,
) -> bool {
    &&& post == pre.unflag(task)
    &&& step == poll_step::<T>(post.turn(), now, now_ms)
}

/// What an output of the network worker does.
pub open spec fn sdn_routed<T: Payloads>(
    pre: WorkerView<T>,
    now: Instant,
    out: SdnWorkerOutput<T>,
    post: WorkerView<T>,
    output: Output<T>,
    actions: Seq<Action<T>>,
) -> bool {
    match out {
        // An event for a room goes to the media cluster.
        SdnWorkerOutput::ExtWorker(SdnExtOut::FeaturesEvent(UserData::Room(room), event)) => {
            &&& post == pre.flag(TaskType::MediaCluster)
            &&& output == Output::<T>::Continue
            &&& actions == seq![Action::<T>::ClusterSdnEvent(now, room, event)]
        },
        _ => {
            &&& post == pre
            &&& actions == Seq::<Action<T>>::empty()
            &&& output == match out {
                SdnWorkerOutput::Ext(ext) => Output::<T>::ExtSdn(ext),
                SdnWorkerOutput::Net(net) => Output::<T>::Net(
                    Owner::Sdn,
                    net.spec_from_slot(pre.sdn_slot),
                ),
                SdnWorkerOutput::Bus(event) => Output::<T>::Bus(event),
                _ => Output::<T>::Continue,
            }
        },
    }
}

/// `action` hands `event` to the session behind `endpoint`.
pub open spec fn endpoint_told<T: Payloads>(
    action: Action<T>,
    now: Instant,
    endpoint: MediaClusterEndpoint,
    event: T::EndpointEvent,
) -> bool {
    action matches Action::WebrtcEvent(at, GroupInput::Cluster(session, told)) && {
        &&& at == now
        &&& session == endpoint.session()
        &&& cloned(event, told)
    }
}

/// What an output of the media cluster does.
pub open spec fn cluster_routed<T: Payloads>(
    pre: WorkerView<T>,
    now: Instant,
    now_ms: u64,
    out: ClusterOutput<T>,
    post: WorkerView<T>,
    output: Output<T>,
    actions: Seq<Action<T>>,
) -> bool {
    &&& output == Output::<T>::Continue
    &&& match out {
        ClusterOutput::Sdn(room, control) => {
            &&& post == pre.flag(TaskType::Sdn)
            &&& actions == seq![
                Action::<T>::SdnEvent(
                    now_ms,
                    SdnWorkerInput::ExtWorker(
                        SdnExtIn::FeaturesControl(UserData::Room(room), control),
                    ),
                ),
            ]
        },
        // Each endpoint gets the event, in order.
        ClusterOutput::Endpoint(endpoints, event) => {
            &&& post == if endpoints@.len() > 0 {
                pre.flag(TaskType::MediaWebrtc)
            } else {
                pre
            }
            &&& actions.len() == endpoints@.len()
            &&& forall|i: int|
                0 <= i < actions.len() ==> endpoint_told(
                    #[trigger] actions[i],
                    now,
                    endpoints@[i],
                    event,
                )
        },
        ClusterOutput::Continue => {
            &&& post == pre
            &&& actions == Seq::<Action<T>>::empty()
        },
    }
}

/// The answer to a request to add candidates, in the words of its protocol.
pub open spec fn ice_answer(variant: Variant, res: RpcResult<u32>) -> RpcRes {
    match (variant, res) {
        (Variant::Whip, Ok(_)) => RpcRes::Whip(WhipRes::RemoteIce(Ok(WhipRemoteIceRes {  }))),
        (Variant::Whip, Err(error)) => RpcRes::Whip(WhipRes::RemoteIce(Err(error))),
        (Variant::Whep, Ok(_)) => RpcRes::Whep(WhepRes::RemoteIce(Ok(WhepRemoteIceRes {  }))),
        (Variant::Whep, Err(error)) => RpcRes::Whep(WhepRes::RemoteIce(Err(error))),
        (Variant::Webrtc, Ok(added)) => RpcRes::Webrtc(
            WebrtcRes::RemoteIce(Ok(RemoteIceResponse { added })),
        ),
        (Variant::Webrtc, Err(error)) => RpcRes::Webrtc(WebrtcRes::RemoteIce(Err(error))),
    }
}

/// `output` answers the request `req_id` to restart the connection of `session`, which came out
/// as `res` says.
pub open spec fn restart_answered<T: Payloads>(
    output: Output<T>,
    session: WebrtcSession,
    req_id: u64,
    res: RpcResult<(bool, String)>,
) -> bool {
    match res {
        Ok((ice_lite, sdp)) => output matches Output::ExtRpc(
            id,
            RpcRes::Webrtc(WebrtcRes::RestartIce(Ok((conn, response)))),
        ) && id == req_id && conn == session.0 && response.describes(sdp, ice_lite),
        Err(error) => output == Output::<T>::ExtRpc(
            req_id,
            RpcRes::Webrtc(WebrtcRes::RestartIce(Err(error))),
        ),
    }
}

/// When the thing that a session tells of happened to its peer, in milliseconds. For any other
/// output the number means nothing.
pub open spec fn event_ms<T: Payloads>(pre: WorkerView<T>, out: GroupOutput<T>) -> u64 {
    match out {
        GroupOutput::PeerEvent(_, ts, _) => pre.ms(ts),
        _ => 0,
    }
}

/// What an output of the WebRTC sessions does. `event_ms` is the time of what happened to a
/// peer, in milliseconds.
pub open spec fn webrtc_routed<T: Payloads>(
    pre: WorkerView<T>,
    now: Instant,
    now_ms: u64,
    event_ms: u64,
    out: GroupOutput<T>,
    post: WorkerView<T>,
    output: Output<T>,
    actions: Seq<Action<T>>,
) -> bool {
    match out {
        GroupOutput::Net(net) => {
            &&& post == pre
            &&& output == Output::<T>::Net(Owner::MediaWebrtc, net)
            &&& actions == Seq::<Action<T>>::empty()
        },
        GroupOutput::Cluster(session, room, control) => {
            &&& post == pre.flag(TaskType::MediaCluster)
            &&& output == Output::<T>::Continue
            &&& actions == seq![
                Action::<T>::ClusterEndpointControl(
                    now,
                    MediaClusterEndpoint::Webrtc(session),
                    room,
                    control,
                ),
            ]
        },
        // The connector records it, at the time it happened.
        GroupOutput::PeerEvent(session_id, _, event) => {
            &&& post == pre.flag(TaskType::Sdn)
            &&& output == Output::<T>::Continue
            &&& actions == seq![
                Action::<T>::SdnEvent(
                    now_ms,
                    sdn::service_request(
                        ServiceId::ConnectorAgent,
                        SC::Connector(
                            ConnectorControl::Fire(
                                event_ms,
                                ConnectorRequest::Peer(
                                    PeerEvent { session_id, event: Some(event) },
                                ),
                            ),
                        ),
                    ),
                ),
            ]
        },
        GroupOutput::Ext(_, ExtOut::RemoteIce(req_id, variant, res)) => {
            &&& post == pre
            &&& output == Output::<T>::ExtRpc(req_id, ice_answer(variant, res))
            &&& actions == Seq::<Action<T>>::empty()
        },
        GroupOutput::Ext(session, ExtOut::RestartIce(req_id, _, res)) => {
            &&& post == pre
            &&& restart_answered(output, session, req_id, res)
            &&& actions == Seq::<Action<T>>::empty()
        },
        GroupOutput::Shutdown(_) | GroupOutput::Continue => {
            &&& post == pre
            &&& output == Output::<T>::Continue
            &&& actions == Seq::<Action<T>>::empty()
        },
    }
}

/// The order to stop reaches every task.
pub open spec fn shut_down<T: Payloads>(
    pre: WorkerView<T>,
    now: Instant,
    now_ms: u64,
    post: WorkerView<T>,
    actions: Seq<Action<T>>,
) -> bool {
    &&& post == pre.flag(TaskType::Sdn).flag(TaskType::MediaCluster).flag(TaskType::MediaWebrtc)
    &&& actions == seq![
        Action::<T>::SdnEvent(now_ms, SdnWorkerInput::ShutdownRequest),
        Action::<T>::ClusterShutdown(now),
        Action::<T>::WebrtcShutdown(now),
    ]
}

} // verus!
