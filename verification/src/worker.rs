//! The worker itself.
use crate::action::{Action, Input, Output, Queued, Step, TaskType};
use crate::cluster::{ClusterOutput, MediaClusterEndpoint};
use crate::config::{
    self, ControllerSetup, DataSetup, MediaConfig, SdnSetup, Service, WebrtcSetup, WorkerSetup,
};
use crate::model::{self, WorkerView, FEEDBACK_GATEWAY_AGENT_INTERVAL, TASKS};
use crate::net::{BackendIncoming, NetInput, Owner, SocketAddr};
use crate::outside;
use crate::payload::Payloads;
use crate::rpc::{
    ConnectResponse, PeerId, RemoteIceResponse, RpcReq, RpcRes, RpcResult, Variant, WebrtcReq,
    WebrtcRes, WhepConnectRes, WhepDeleteRes, WhepRemoteIceRes, WhepReq, WhepRes, WhipConnectRes,
    WhipDeleteRes, WhipRemoteIceRes, WhipReq, WhipRes,
};
use crate::sdn::{
    ClusterNodeInfo, ConnectorControl, ConnectorRequest, GatewayControl, NodeMetrics, PeerEvent,
    SdnExtIn, SdnExtOut, SdnWorkerInput, SdnWorkerOutput, ServiceId, ServiceKind, UserData,
    VisualControl, SC,
};
use crate::text;
use crate::webrtc::{
    ExtIn, ExtOut, GroupInput, GroupOutput, SpawnRequest, Spawned, VariantParams, WebrtcSession,
};
use atm0s_sdn::{NodeAddr, TimePivot};
use sans_io_runtime::collections::DynamicDeque;
use sans_io_runtime::TaskSwitcher;
use std::sync::Arc;
use std::time::Instant;
use vstd::prelude::*;
use vstd::string::StringExecFns;

verus! {

/// One worker of a media server.
///
/// It stands between three tasks: the network worker, the media cluster and the WebRTC sessions.
/// It does not run them. Each of its steps says which calls are to be made on them, and what they
/// put out is handed back to it.
pub struct MediaServerWorker<T: Payloads> {
    worker: u16,
    sdn_addr: NodeAddr,
    sdn_slot: usize,
    media_max_live: u32,
    switcher: TaskSwitcher,
    queue: DynamicDeque<Queued, 16>,
    timer: TimePivot,
    last_feedback_gateway_agent: u64,
    secure: Arc<T::Secure>,
}

impl<T: Payloads> View for MediaServerWorker<T> {
    type V = WorkerView<T>;

    closed spec fn view(&self) -> WorkerView<T> {
        WorkerView {
            worker: self.worker,
            sdn_addr: self.sdn_addr,
            sdn_slot: self.sdn_slot,
            media_max_live: self.media_max_live,
            flagged: outside::flagged_tasks(self.switcher),
            queue: outside::queue_items(self.queue),
            timer: self.timer,
            last_feedback: self.last_feedback_gateway_agent,
            secure: self.secure,
        }
    }
}

/// The low 32 bits of a count.
fn live_count(tasks: usize) -> (count: u32)
    ensures
        count == model::live_count(tasks),
{
    let wide: u64 = tasks as u64;
    assert(wide as u32 == wide % 0x1_0000_0000) by (bit_vector);
    #[verifier::truncate]
    let count: u32 = wide as u32;
    count
}

/// The answer to a request to add candidates, in the words of its protocol.
fn ice_answer(variant: Variant, res: RpcResult<u32>) -> (answer: RpcRes)
    ensures
        answer == model::ice_answer(variant, res),
{
    match variant {
        Variant::Whip => RpcRes::Whip(
            WhipRes::RemoteIce(
                match res {
                    Ok(_) => Ok(WhipRemoteIceRes {  }),
                    Err(error) => Err(error),
                },
            ),
        ),
        Variant::Whep => RpcRes::Whep(
            WhepRes::RemoteIce(
                match res {
                    Ok(_) => Ok(WhepRemoteIceRes {  }),
                    Err(error) => Err(error),
                },
            ),
        ),
        Variant::Webrtc => RpcRes::Webrtc(
            WebrtcRes::RemoteIce(
                match res {
                    Ok(added) => Ok(RemoteIceResponse { added }),
                    Err(error) => Err(error),
                },
            ),
        ),
    }
}

/// A list of one item.
fn single<A>(item: A) -> (list: Vec<A>)
    ensures
        list@ == seq![item],
{
    let list: Vec<A> = vec![item];
    assert(list@ =~= seq![item]);
    list
}

/// The name of the peer that a WHEP session stands for.
fn whep_peer(salt: u64) -> (peer: PeerId)
    ensures
        peer.0@ == model::whep_peer(salt),
{
    let digits = text::decimal_text(salt);
    PeerId("whep-".to_owned().concat(digits.as_str()))
}

impl<T: Payloads> MediaServerWorker<T> {
    /// The worker knows the three tasks, and no others.
    pub closed spec fn wf(&self) -> bool {
        &&& outside::task_count(self.switcher) == TASKS
        &&& self@.wf()
    }

    /// Only tasks of the worker are ever flagged.
    pub proof fn lemma_wf(&self)
        requires
            self.wf(),
        ensures
            self@.wf(),
    {
    }

    /// A new worker, and what its tasks are to be set up with. The first thing it gives out is
    /// the request for the socket of the network worker.
    pub fn new(
        worker: u16,
        node_id: u32,
        session: u64,
        secret: &str,
        controller: bool,
        sdn_udp: u16,
        node_addr: NodeAddr,
        sdn_zone: u32,
        media: MediaConfig<T::Secure>,
    ) -> (res: (Self, WorkerSetup<T>))
        requires
            config::total_live(media.max_live@) <= u32::MAX,
        ensures
            res.0.wf(),
            res.0@ == model::started::<T>(worker, sdn_udp, node_addr, media, res.0@.timer),
            config::sdn_set_up(
                res.1.sdn,
                node_id,
                session,
                secret@,
                controller,
                node_addr,
                sdn_zone,
                media.max_live,
            ),
            config::webrtc_set_up(res.1.webrtc, media),
    {
        Self::with_timer(
            worker,
            node_id,
            session,
            secret,
            controller,
            sdn_udp,
            node_addr,
            sdn_zone,
            media,
            outside::timer_build(),
        )
    }

    /// [`new`](Self::new), with a known relation between the clocks.
    pub fn with_timer(
        worker: u16,
        node_id: u32,
        session: u64,
        secret: &str,
        controller: bool,
        sdn_udp: u16,
        node_addr: NodeAddr,
        sdn_zone: u32,
        media: MediaConfig<T::Secure>,
        timer: TimePivot,
    ) -> (res: (Self, WorkerSetup<T>))
        requires
            config::total_live(media.max_live@) <= u32::MAX,
        ensures
            res.0.wf(),
            res.0@ == model::started::<T>(worker, sdn_udp, node_addr, media, timer),
            config::sdn_set_up(
                res.1.sdn,
                node_id,
                session,
                secret@,
                controller,
                node_addr,
                sdn_zone,
                media.max_live,
            ),
            config::webrtc_set_up(res.1.webrtc, media),
    {
        let media_max_live: u32 = config::sum_max_live(&media.max_live);
        let secure = media.secure.clone();
        let sdn: SdnSetup<T> = SdnSetup {
            node_id,
            tick_ms: config::SDN_TICK_MS,
            controller: if controller {
                Some(
                    ControllerSetup {
                        session,
                        secret: secret.to_owned(),
                        services: vec![
                            Service::Visualization,
                            Service::Discovery,
                            Service::Gateway,
                            Service::Connector,
                        ],
                    },
                )
            } else {
                None
            },
            data: DataSetup {
                worker_id: 0,
                services: vec![Service::Visualization, Service::Discovery, Service::Gateway],
            },
            node_info: ClusterNodeInfo::media(
                outside::node_addr_to_string(&node_addr),
                NodeMetrics { cpu: 0, memory: 0, disk: 0 },
                0,
                media_max_live,
            ),
            collector: false,
            node_addr: outside::node_addr_clone(&node_addr),
            own_tags: Vec::new(),
            sought_zones: single(sdn_zone),
            max_live: media.max_live,
        };
        let webrtc: WebrtcSetup<T> = WebrtcSetup {
            addrs: media.webrtc_addrs,
            ice_lite: media.ice_lite,
            secure: media.secure,
        };
        let this = MediaServerWorker {
            worker,
            sdn_addr: node_addr,
            sdn_slot: 1,
            media_max_live,
            switcher: outside::switcher_new(TASKS),
            queue: outside::queue_from(Queued::SdnListen(SocketAddr::any_v4(sdn_udp), true)),
            timer,
            last_feedback_gateway_agent: 0,
            secure,
        };
        (this, WorkerSetup { sdn, webrtc })
    }

    /// Notes that a call is to be made on a task, so that its outputs are polled again.
    fn flag(&mut self, task: TaskType)
        requires
            old(self).wf(),
        ensures
            final(self).wf(),
            final(self)@ == old(self)@.flag(task),
    {
        outside::switcher_flag_task(&mut self.switcher, task.index());
        assert(self@ =~= old(self)@.flag(task));
    }

    /// Puts something at the end of what the worker has to give out.
    fn push(&mut self, item: Queued)
        requires
            old(self).wf(),
        ensures
            final(self).wf(),
            final(self)@ == old(self)@.push(item),
    {
        outside::queue_push_back(&mut self.queue, item);
    }

    /// The time of day at an instant, in milliseconds.
    fn ms(&self, now: Instant) -> (ms: u64)
        ensures
            ms == self@.ms(now),
    {
        outside::timer_timestamp_ms(&self.timer, now)
    }

    /// Sends a tick to every task. From time to time the sessions are to be counted, for the
    /// gateway.
    pub fn on_tick(&mut self, now: Instant) -> (actions: Vec<Action<T>>)
        requires
            old(self).wf(),
        ensures
            final(self).wf(),
            model::ticked(old(self)@, now, old(self)@.ms(now), final(self)@, actions@),
    {
        let now_ms: u64 = self.ms(now);
        self.tick_at(now, now_ms)
    }

    /// [`on_tick`](Self::on_tick), at a known time of day.
    pub fn tick_at(&mut self, now: Instant, now_ms: u64) -> (actions: Vec<Action<T>>)
        requires
            old(self).wf(),
        ensures
            final(self).wf(),
            model::ticked(old(self)@, now, now_ms, final(self)@, actions@),
    {
        let mut actions: Vec<Action<T>> = Vec::new();
        self.flag(TaskType::Sdn);
        actions.push(Action::SdnTick(now_ms));
        self.flag(TaskType::MediaCluster);
        actions.push(Action::ClusterTick(now));
        self.flag(TaskType::MediaWebrtc);
        actions.push(Action::WebrtcTick(now));

        if now_ms >= FEEDBACK_GATEWAY_AGENT_INTERVAL
            && self.last_feedback_gateway_agent <= now_ms - FEEDBACK_GATEWAY_AGENT_INTERVAL {
            self.last_feedback_gateway_agent = now_ms;
            actions.push(Action::WebrtcCount(now_ms));
        }
        proof {
            let ticks = seq![
                Action::<T>::SdnTick(now_ms),
                Action::<T>::ClusterTick(now),
                Action::<T>::WebrtcTick(now),
            ];
            assert(actions@ =~= ticks || actions@ =~= ticks.push(Action::WebrtcCount(now_ms)));
        }
        actions
    }

    /// Tells the gateway how many sessions run.
    pub fn on_webrtc_count(&mut self, now_ms: u64, webrtc_tasks: usize) -> (action: Action<T>)
        requires
            old(self).wf(),
        ensures
            final(self).wf(),
            model::usage_reported(old(self)@, now_ms, webrtc_tasks, final(self)@, action),
    {
        self.flag(TaskType::Sdn);
        Action::SdnEvent(
            now_ms,
            SdnWorkerInput::Ext(
                SdnExtIn::ServicesControl(
                    ServiceId::GatewayAgent,
                    UserData::Cluster,
                    SC::Gateway(
                        GatewayControl::WorkerUsage(
                            ServiceKind::Webrtc,
                            self.worker,
                            live_count(webrtc_tasks),
                        ),
                    ),
                ),
            ),
        )
    }

    /// Takes in one input. `webrtc_tasks` is the number of sessions that run.
    pub fn on_event(&mut self, now: Instant, input: Input<T>, webrtc_tasks: usize) -> (actions: Vec<
        Action<T>,
    >)
        requires
            old(self).wf(),
            input.accepted(),
        ensures
            final(self).wf(),
            exists|salt: u64| #[trigger]
                model::input_taken(
                    old(self)@,
                    now,
                    old(self)@.ms(now),
                    salt,
                    input,
                    webrtc_tasks,
                    final(self)@,
                    actions@,
                ) && (input matches Input::ExtRpc(_, RpcReq::Whep(WhepReq::Connect(_)))
                    ==> outside::drawn(salt)),
    {
        let now_ms: u64 = self.ms(now);
        let salt: u64 = match &input {
            Input::ExtRpc(_, RpcReq::Whep(WhepReq::Connect(_))) => outside::draw(),
            _ => 0,
        };
        self.event_at(now, now_ms, salt, input, webrtc_tasks)
    }

    /// [`on_event`](Self::on_event), at a known time of day and with a known random number.
    pub fn event_at(
        &mut self,
        now: Instant,
        now_ms: u64,
        salt: u64,
        input: Input<T>,
        webrtc_tasks: usize,
    ) -> (actions: Vec<Action<T>>)
        requires
            old(self).wf(),
            input.accepted(),
        ensures
            final(self).wf(),
            model::input_taken(
                old(self)@,
                now,
                now_ms,
                salt,
                input,
                webrtc_tasks,
                final(self)@,
                actions@,
            ),
    {
        match input {
            Input::NodeStats(metrics) => {
                let info = ClusterNodeInfo::media(
                    outside::node_addr_to_string(&self.sdn_addr),
                    metrics,
                    live_count(webrtc_tasks),
                    self.media_max_live,
                );
                self.flag(TaskType::Sdn);
                self.flag(TaskType::Sdn);
                assert(self@ =~= old(self)@.flag(TaskType::Sdn));
                vec![
                    Action::SdnEvent(
                        now_ms,
                        SdnWorkerInput::Ext(
                            SdnExtIn::ServicesControl(
                                ServiceId::Visualization,
                                UserData::Cluster,
                                SC::Visual(VisualControl::UpdateInfo(info)),
                            ),
                        ),
                    ),
                    Action::SdnEvent(
                        now_ms,
                        SdnWorkerInput::Ext(
                            SdnExtIn::ServicesControl(
                                ServiceId::GatewayAgent,
                                UserData::Cluster,
                                SC::Gateway(GatewayControl::NodeStats(metrics)),
                            ),
                        ),
                    ),
                ]
            },
            Input::ExtRpc(req_id, req) => self.process_rpc_with(now, req_id, req, salt),
            Input::ExtSdn(ext) => {
                self.flag(TaskType::Sdn);
                single(Action::SdnEvent(now_ms, SdnWorkerInput::Ext(ext)))
            },
            Input::Net(Owner::Sdn, event) => match event {
                BackendIncoming::UdpPacket { slot: _, from, data } => {
                    self.flag(TaskType::Sdn);
                    single(
                        Action::SdnEvent(
                            now_ms,
                            SdnWorkerInput::Net(NetInput::UdpPacket(from, data)),
                        ),
                    )
                },
                BackendIncoming::UdpListenResult { bind: _, result } => {
                    if let Ok((_, slot)) = result {
                        self.sdn_slot = slot;
                    }
                    assert(self@.flagged == old(self)@.flagged);
                    Vec::new()
                },
            },
            Input::Net(Owner::MediaWebrtc, event) => {
                self.flag(TaskType::MediaWebrtc);
                single(Action::WebrtcEvent(now, GroupInput::Net(event)))
            },
            Input::Bus(event) => {
                self.flag(TaskType::Sdn);
                single(Action::SdnEvent(now_ms, SdnWorkerInput::Bus(event)))
            },
        }
    }

    /// Serves a request.
    pub fn process_rpc(&mut self, now: Instant, req_id: u64, req: RpcReq<T>) -> (actions: Vec<
        Action<T>,
    >)
        requires
            old(self).wf(),
            req.served(),
        ensures
            final(self).wf(),
            exists|salt: u64| #[trigger]
                model::rpc_processed(old(self)@, now, salt, req_id, req, final(self)@, actions@)
                && (req matches RpcReq::Whep(WhepReq::Connect(_)) ==> outside::drawn(salt)),
    {
        let salt: u64 = match &req {
            RpcReq::Whep(WhepReq::Connect(_)) => outside::draw(),
            _ => 0,
        };
        self.process_rpc_with(now, req_id, req, salt)
    }

    /// [`process_rpc`](Self::process_rpc), with a known random number.
    pub fn process_rpc_with(
        &mut self,
        now: Instant,
        req_id: u64,
        req: RpcReq<T>,
        salt: u64,
    ) -> (actions: Vec<Action<T>>)
        requires
            old(self).wf(),
            req.served(),
        ensures
            final(self).wf(),
            model::rpc_processed(old(self)@, now, salt, req_id, req, final(self)@, actions@),
    {
        let action: Action<T> = match req {
            RpcReq::Whip(req) => match req {
                WhipReq::Connect(req) => Action::WebrtcSpawn(
                    SpawnRequest {
                        req_id,
                        ip: req.ip,
                        session_id: req.session_id,
                        params: VariantParams::Whip(req.room, req.peer),
                        sdp: req.sdp,
                    },
                ),
                WhipReq::RemoteIce(req) => Action::WebrtcEvent(
                    now,
                    GroupInput::Ext(
                        WebrtcSession(req.conn_id),
                        ExtIn::RemoteIce(req_id, Variant::Whip, single(req.ice)),
                    ),
                ),
                WhipReq::Delete(req) => {
                    self.push(
                        Queued::ExtRpc(req_id, RpcRes::Whip(WhipRes::Delete(Ok(WhipDeleteRes {  })))),
                    );
                    Action::WebrtcEvent(now, GroupInput::Close(WebrtcSession(req.conn_id)))
                },
            },
            RpcReq::Whep(req) => match req {
                WhepReq::Connect(req) => Action::WebrtcSpawn(
                    SpawnRequest {
                        req_id,
                        ip: req.ip,
                        session_id: req.session_id,
                        params: VariantParams::Whep(req.room, whep_peer(salt)),
                        sdp: req.sdp,
                    },
                ),
                WhepReq::RemoteIce(req) => Action::WebrtcEvent(
                    now,
                    GroupInput::Ext(
                        WebrtcSession(req.conn_id),
                        ExtIn::RemoteIce(req_id, Variant::Whep, single(req.ice)),
                    ),
                ),
                WhepReq::Delete(req) => {
                    self.push(
                        Queued::ExtRpc(req_id, RpcRes::Whep(WhepRes::Delete(Ok(WhepDeleteRes {  })))),
                    );
                    Action::WebrtcEvent(now, GroupInput::Close(WebrtcSession(req.conn_id)))
                },
            },
            RpcReq::Webrtc(req) => match req {
                WebrtcReq::Connect(session_id, ip, user_agent, req) => {
                    let sdp = req.sdp.clone();
                    Action::WebrtcSpawn(
                        SpawnRequest {
                            req_id,
                            ip,
                            session_id,
                            params: VariantParams::Webrtc(user_agent, req, self.secure.clone()),
                            sdp,
                        },
                    )
                },
                WebrtcReq::RemoteIce(conn, ice) => Action::WebrtcEvent(
                    now,
                    GroupInput::Ext(
                        WebrtcSession(conn),
                        ExtIn::RemoteIce(req_id, Variant::Webrtc, ice.candidates),
                    ),
                ),
                WebrtcReq::RestartIce(conn, ip, user_agent, req) => Action::WebrtcEvent(
                    now,
                    GroupInput::Ext(
                        WebrtcSession(conn),
                        ExtIn::RestartIce(req_id, Variant::Webrtc, ip, user_agent, req),
                    ),
                ),
                WebrtcReq::Delete(_) => {
                    assert(false);
                    return Vec::new();
                },
            },
        };
        self.flag(TaskType::MediaWebrtc);
        single(action)
    }

    /// Answers the request `req_id` for a new session of the protocol `variant`, now that the
    /// outcome is known.
    pub fn on_spawned(&mut self, req_id: u64, variant: Variant, result: RpcResult<Spawned>)
        requires
            old(self).wf(),
        ensures
            final(self).wf(),
            model::spawn_answered(old(self)@, req_id, variant, result, final(self)@),
    {
        let res: RpcRes = match variant {
            Variant::Whip => RpcRes::Whip(
                WhipRes::Connect(
                    match result {
                        Ok((_, sdp, conn_id)) => Ok(WhipConnectRes { conn_id, sdp }),
                        Err(error) => Err(error),
                    },
                ),
            ),
            Variant::Whep => RpcRes::Whep(
                WhepRes::Connect(
                    match result {
                        Ok((_, sdp, conn_id)) => Ok(WhepConnectRes { conn_id, sdp }),
                        Err(error) => Err(error),
                    },
                ),
            ),
            Variant::Webrtc => RpcRes::Webrtc(
                WebrtcRes::Connect(
                    match result {
                        Ok((ice_lite, sdp, conn_id)) => Ok(
                            (conn_id, ConnectResponse::unnamed(sdp, ice_lite)),
                        ),
                        Err(error) => Err(error),
                    },
                ),
            ),
        };
        self.push(Queued::ExtRpc(req_id, res));
    }

    /// The way to go on when nothing came from elsewhere.
    fn next_poll(&mut self, now: Instant, now_ms: u64) -> (step: Step<T>)
        requires
            old(self).wf(),
        ensures
            final(self).wf(),
            final(self)@ == old(self)@,
            step == model::poll_step::<T>(old(self)@.turn(), now, now_ms),
    {
        let current = outside::switcher_current(&mut self.switcher);
        assert(self@ =~= old(self)@);
        match current {
            Some(index) => {
                assert(self@.flagged.contains(index));
                match TaskType::from_index(index) {
                    Some(TaskType::Sdn) => Step::PollSdn(now_ms),
                    Some(TaskType::MediaCluster) => Step::PollCluster,
                    Some(TaskType::MediaWebrtc) => Step::PollWebrtc(now),
                    None => Step::Idle,
                }
            },
            None => Step::Idle,
        }
    }

    /// Looks for an output. What the worker has on its own account comes first; then the tasks
    /// are to be polled, one after the other.
    pub fn pop_output(&mut self, now: Instant) -> (step: Step<T>)
        requires
            old(self).wf(),
        ensures
            final(self).wf(),
            model::popped(old(self)@, now, old(self)@.ms(now), final(self)@, step),
    {
        let now_ms: u64 = self.ms(now);
        self.pop_output_at(now, now_ms)
    }

    /// [`pop_output`](Self::pop_output), at a known time of day.
    pub fn pop_output_at(&mut self, now: Instant, now_ms: u64) -> (step: Step<T>)
        requires
            old(self).wf(),
        ensures
            final(self).wf(),
            model::popped(old(self)@, now, now_ms, final(self)@, step),
    {
        let first = outside::queue_pop_front(&mut self.queue);
        assert(self@.flagged == old(self)@.flagged);
        match first {
            Some(item) => Step::Ready(item.into_output()),
            None => self.next_poll(now, now_ms),
        }
    }

    /// Goes on after a task had no output.
    pub fn on_polled_empty(&mut self, task: TaskType, now: Instant) -> (step: Step<T>)
        requires
            old(self).wf(),
        ensures
            final(self).wf(),
            model::polled_empty(old(self)@, task, now, old(self)@.ms(now), final(self)@, step),
    {
        let now_ms: u64 = self.ms(now);
        self.polled_empty_at(task, now, now_ms)
    }

    /// [`on_polled_empty`](Self::on_polled_empty), at a known time of day.
    pub fn polled_empty_at(&mut self, task: TaskType, now: Instant, now_ms: u64) -> (step: Step<T>)
        requires
            old(self).wf(),
        ensures
            final(self).wf(),
            model::polled_empty(old(self)@, task, now, now_ms, final(self)@, step),
    {
        outside::switcher_finished(&mut self.switcher, task.index());
        assert(self@ =~= old(self)@.unflag(task));
        self.next_poll(now, now_ms)
    }

    /// Takes what the network worker put out.
    pub fn output_sdn(&mut self, now: Instant, out: SdnWorkerOutput<T>) -> (res: (
        Output<T>,
        Vec<Action<T>>,
    ))
        requires
            old(self).wf(),
        ensures
            final(self).wf(),
            model::sdn_routed(old(self)@, now, out, final(self)@, res.0, res.1@),
    {
        match out {
            SdnWorkerOutput::Ext(out) => (Output::ExtSdn(out), Vec::new()),
            SdnWorkerOutput::ExtWorker(out) => match out {
                SdnExtOut::FeaturesEvent(UserData::Cluster, _) => (Output::Continue, Vec::new()),
                SdnExtOut::FeaturesEvent(UserData::Room(room), event) => {
                    self.flag(TaskType::MediaCluster);
                    (Output::Continue, single(Action::ClusterSdnEvent(now, room, event)))
                },
                SdnExtOut::ServicesEvent(_, _, _) => (Output::Continue, Vec::new()),
            },
            SdnWorkerOutput::Net(out) => (
                Output::Net(Owner::Sdn, out.from_slot(self.sdn_slot)),
                Vec::new(),
            ),
            SdnWorkerOutput::Bus(event) => (Output::Bus(event), Vec::new()),
            SdnWorkerOutput::ShutdownResponse => (Output::Continue, Vec::new()),
            SdnWorkerOutput::Continue => (Output::Continue, Vec::new()),
        }
    }

    /// Takes what the media cluster put out.
    pub fn output_cluster(&mut self, now: Instant, out: ClusterOutput<T>) -> (res: (
        Output<T>,
        Vec<Action<T>>,
    ))
        requires
            old(self).wf(),
        ensures
            final(self).wf(),
            model::cluster_routed(
                old(self)@,
                now,
                old(self)@.ms(now),
                out,
                final(self)@,
                res.0,
                res.1@,
            ),
    {
        let now_ms: u64 = self.ms(now);
        self.output_cluster_at(now, now_ms, out)
    }

    /// [`output_cluster`](Self::output_cluster), at a known time of day.
    pub fn output_cluster_at(&mut self, now: Instant, now_ms: u64, out: ClusterOutput<T>) -> (res: (
        Output<T>,
        Vec<Action<T>>,
    ))
        requires
            old(self).wf(),
        ensures
            final(self).wf(),
            model::cluster_routed(old(self)@, now, now_ms, out, final(self)@, res.0, res.1@),
    {
        match out {
            ClusterOutput::Sdn(room, control) => {
                self.flag(TaskType::Sdn);
                (
                    Output::Continue,
                    single(
                        Action::SdnEvent(
                            now_ms,
                            SdnWorkerInput::ExtWorker(
                                SdnExtIn::FeaturesControl(UserData::Room(room), control),
                            ),
                        ),
                    ),
                )
            },
            ClusterOutput::Endpoint(endpoints, event) => {
                let mut actions: Vec<Action<T>> = Vec::new();
                let mut i: usize = 0;
                while i < endpoints.len()
                    invariant
                        i <= endpoints@.len(),
                        self.wf(),
                        self@ == if i > 0 {
                            old(self)@.flag(TaskType::MediaWebrtc)
                        } else {
                            old(self)@
                        },
                        actions@.len() == i,
                        forall|k: int|
                            0 <= k < i ==> model::endpoint_told(
                                #[trigger] actions@[k],
                                now,
                                endpoints@[k],
                                event,
                            ),
                    decreases endpoints@.len() - i,
                {
                    match endpoints[i] {
                        MediaClusterEndpoint::Webrtc(session) => {
                            self.flag(TaskType::MediaWebrtc);
                            assert(self@ =~= old(self)@.flag(TaskType::MediaWebrtc));
                            actions.push(
                                Action::WebrtcEvent(
                                    now,
                                    GroupInput::Cluster(session, event.clone()),
                                ),
                            );
                        },
                    }
                    i = i + 1;
                }
                (Output::Continue, actions)
            },
            ClusterOutput::Continue => (Output::Continue, Vec::new()),
        }
    }

    /// Takes what the WebRTC sessions put out.
    pub fn output_webrtc(&mut self, now: Instant, out: GroupOutput<T>) -> (res: (
        Output<T>,
        Vec<Action<T>>,
    ))
        requires
            old(self).wf(),
        ensures
            final(self).wf(),
            model::webrtc_routed(
                old(self)@,
                now,
                old(self)@.ms(now),
                model::event_ms(old(self)@, out),
                out,
                final(self)@,
                res.0,
                res.1@,
            ),
    {
        let now_ms: u64 = self.ms(now);
        let event_ms: u64 = match &out {
            GroupOutput::PeerEvent(_, ts, _) => self.ms(*ts),
            _ => 0,
        };
        self.output_webrtc_at(now, now_ms, event_ms, out)
    }

    /// [`output_webrtc`](Self::output_webrtc), at a known time of day. What happened to a peer
    /// happened at `event_ms`.
    pub fn output_webrtc_at(
        &mut self,
        now: Instant,
        now_ms: u64,
        event_ms: u64,
        out: GroupOutput<T>,
    ) -> (res: (Output<T>, Vec<Action<T>>))
        requires
            old(self).wf(),
        ensures
            final(self).wf(),
            model::webrtc_routed(
                old(self)@,
                now,
                now_ms,
                event_ms,
                out,
                final(self)@,
                res.0,
                res.1@,
            ),
    {
        match out {
            GroupOutput::Net(out) => (Output::Net(Owner::MediaWebrtc, out), Vec::new()),
            GroupOutput::Cluster(session, room, control) => {
                self.flag(TaskType::MediaCluster);
                (
                    Output::Continue,
                    single(
                        Action::ClusterEndpointControl(
                            now,
                            MediaClusterEndpoint::Webrtc(session),
                            room,
                            control,
                        ),
                    ),
                )
            },
            GroupOutput::PeerEvent(session_id, _, event) => {
                self.flag(TaskType::Sdn);
                (
                    Output::Continue,
                    single(
                        Action::SdnEvent(
                            now_ms,
                            SdnWorkerInput::Ext(
                                SdnExtIn::ServicesControl(
                                    ServiceId::ConnectorAgent,
                                    UserData::Cluster,
                                    SC::Connector(
                                        ConnectorControl::Fire(
                                            event_ms,
                                            ConnectorRequest::Peer(
                                                PeerEvent { session_id, event: Some(event) },
                                            ),
                                        ),
                                    ),
                                ),
                            ),
                        ),
                    ),
                )
            },
            GroupOutput::Ext(session, ext) => {
                let (req_id, res): (u64, RpcRes) = match ext {
                    ExtOut::RemoteIce(req_id, variant, res) => (req_id, ice_answer(variant, res)),
                    ExtOut::RestartIce(req_id, _, res) => (
                        req_id,
                        RpcRes::Webrtc(
                            WebrtcRes::RestartIce(
                                match res {
                                    Ok((ice_lite, sdp)) => Ok(
                                        (session.0, ConnectResponse::unnamed(sdp, ice_lite)),
                                    ),
                                    Err(error) => Err(error),
                                },
                            ),
                        ),
                    ),
                };
                (Output::ExtRpc(req_id, res), Vec::new())
            },
            GroupOutput::Shutdown(_) => (Output::Continue, Vec::new()),
            GroupOutput::Continue => (Output::Continue, Vec::new()),
        }
    }

    /// Tells every task to stop.
    pub fn shutdown(&mut self, now: Instant) -> (actions: Vec<Action<T>>)
        requires
            old(self).wf(),
        ensures
            final(self).wf(),
            model::shut_down(old(self)@, now, old(self)@.ms(now), final(self)@, actions@),
    {
        let now_ms: u64 = self.ms(now);
        self.shutdown_at(now, now_ms)
    }

    /// [`shutdown`](Self::shutdown), at a known time of day.
    pub fn shutdown_at(&mut self, now: Instant, now_ms: u64) -> (actions: Vec<Action<T>>)
        requires
            old(self).wf(),
        ensures
            final(self).wf(),
            model::shut_down(old(self)@, now, now_ms, final(self)@, actions@),
    {
        let mut actions: Vec<Action<T>> = Vec::new();
        self.flag(TaskType::Sdn);
        actions.push(Action::SdnEvent(now_ms, SdnWorkerInput::ShutdownRequest));
        self.flag(TaskType::MediaCluster);
        actions.push(Action::ClusterShutdown(now));
        self.flag(TaskType::MediaWebrtc);
        actions.push(Action::WebrtcShutdown(now));
        assert(actions@ =~= seq![
            Action::<T>::SdnEvent(now_ms, SdnWorkerInput::ShutdownRequest),
            Action::<T>::ClusterShutdown(now),
            Action::<T>::WebrtcShutdown(now),
        ]);
        actions
    }

    /// The number of tasks that the worker counts as its own, when the network worker has
    /// `sdn_tasks`: each of those counts twice.
    pub fn tasks(&self, sdn_tasks: usize) -> (tasks: usize)
        requires
            2 * sdn_tasks <= usize::MAX,
        ensures
            tasks == 2 * sdn_tasks,
    {
        sdn_tasks + sdn_tasks
    }
}

} // verus!
