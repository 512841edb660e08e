use atm0s_sdn::features::{data, neighbours, FeaturesControl, FeaturesEvent};
use atm0s_sdn::{NodeAddr, TimePivot};
use media_runner::action::{Action, Input, Output, Step, TaskType};
use media_runner::cluster::{ClusterOutput, MediaClusterEndpoint};
use media_runner::config::MediaConfig;
use media_runner::net::{BackendIncoming, BackendOutgoing, IpAddr, NetInput, NetOutput, Owner, SocketAddr};
use media_runner::payload::Payloads;
use media_runner::rpc::{
    ConnectRequest, ConnectResponse, PeerId, RemoteIceRequest, RemoteIceResponse, RoomId, RpcError, RpcReq, RpcRes, Variant,
    WebrtcReq, WebrtcRes, WhepConnectReq, WhepConnectRes, WhepDeleteReq, WhepDeleteRes, WhepRemoteIceReq, WhepRemoteIceRes,
    WhepReq, WhepRes, WhipConnectReq, WhipConnectRes, WhipDeleteReq, WhipDeleteRes, WhipRemoteIceReq, WhipRemoteIceRes,
    WhipReq, WhipRes,
};
use media_runner::sdn::{
    ClusterMediaInfo, ClusterNodeInfo, ConnectorControl, ConnectorRequest, GatewayControl, NodeMetrics, SdnExtIn, SdnExtOut,
    SdnWorkerInput, SdnWorkerOutput, ServiceId, ServiceKind, UserData, VisualControl, SC, SE,
};
use media_runner::webrtc::{ExtIn, ExtOut, GroupInput, GroupOutput, SpawnRequest, VariantParams, WebrtcSession};
use media_runner::worker::MediaServerWorker;
use sans_io_runtime::Buffer;
use std::collections::HashMap;
use std::sync::Arc;
use std::time::{Duration, Instant};

struct Plain;

impl Payloads for Plain {
    type Room = u32;
    type RoomHash = u64;
    type EndpointControl = u16;
    type EndpointEvent = String;
    type PeerEvent = String;
    type ConnectBody = u8;
    type Secure = String;
    type BusEvent = u64;
    type NodeInfo = ();
    type GatewayControl = ();
    type ConnectorControl = ();
    type VisualEvent = ();
    type GatewayEvent = ();
    type ConnectorEvent = ();
}

type Worker = MediaServerWorker<Plain>;

fn addr() -> NodeAddr {
    "7@/ip4/192.168.1.9/udp/4000".parse().unwrap()
}

fn peer_addr(port: u16) -> SocketAddr {
    SocketAddr::V4 { ip: 0x0a000001, port }
}

fn worker_with(timer: TimePivot) -> Worker {
    let mut max_live = HashMap::new();
    max_live.insert(0, 60);
    max_live.insert(1, 40);
    let media = MediaConfig {
        ice_lite: true,
        webrtc_addrs: vec![],
        secure: Arc::new("key".to_string()),
        max_live,
    };
    let (mut worker, _) = MediaServerWorker::with_timer(3, 7, 99, "insecure", true, 4000, addr(), 5, media, timer);
    // The request to listen is out of the way.
    assert!(matches!(worker.pop_output_at(Instant::now(), 0), Step::Ready(_)));
    worker
}

fn worker() -> Worker {
    worker_with(TimePivot::build())
}

fn only(mut actions: Vec<Action<Plain>>) -> Action<Plain> {
    assert_eq!(actions.len(), 1);
    actions.pop().unwrap()
}

fn rpc(worker: &mut Worker, req: RpcReq<Plain>) -> Action<Plain> {
    only(worker.process_rpc_with(Instant::now(), 11, req, 42))
}

fn spawn_of(action: Action<Plain>) -> SpawnRequest<Plain> {
    match action {
        Action::WebrtcSpawn(spawn) => spawn,
        _ => panic!("expected a new session"),
    }
}

fn answer(worker: &mut Worker) -> (u64, RpcRes) {
    match worker.pop_output_at(Instant::now(), 0) {
        Step::Ready(Output::ExtRpc(req_id, res)) => (req_id, res),
        _ => panic!("expected an answer"),
    }
}

fn error() -> RpcError {
    RpcError { code: 404, message: "no such room".to_string() }
}

/// Polls every task, finds nothing, and tells which were polled.
fn polled(worker: &mut Worker) -> Vec<TaskType> {
    let now = Instant::now();
    let mut seen = vec![];
    let mut step = worker.pop_output_at(now, 5);
    loop {
        let task = match step {
            Step::PollSdn(at) => {
                assert_eq!(at, 5);
                TaskType::Sdn
            }
            Step::PollCluster => TaskType::MediaCluster,
            Step::PollWebrtc(at) => {
                assert_eq!(at, now);
                TaskType::MediaWebrtc
            }
            Step::Idle => return seen,
            Step::Ready(_) => panic!("did not expect an output"),
        };
        seen.push(task);
        step = worker.polled_empty_at(task, now, 5);
    }
}

#[test]
fn tick_reaches_every_task() {
    let mut worker = worker();
    let now = Instant::now();
    let actions = worker.tick_at(now, 999);
    assert_eq!(actions.len(), 3);
    assert!(matches!(actions[0], Action::SdnTick(999)));
    assert!(matches!(actions[1], Action::ClusterTick(at) if at == now));
    assert!(matches!(actions[2], Action::WebrtcTick(at) if at == now));
    assert_eq!(polled(&mut worker), vec![TaskType::Sdn, TaskType::MediaCluster, TaskType::MediaWebrtc]);
}

#[test]
fn sessions_are_counted_once_an_interval() {
    let mut worker = worker();
    let now = Instant::now();
    assert_eq!(worker.tick_at(now, 999).len(), 3);
    assert!(matches!(worker.tick_at(now, 1000).pop(), Some(Action::WebrtcCount(1000))));
    assert_eq!(worker.tick_at(now, 1000).len(), 3);
    assert_eq!(worker.tick_at(now, 1999).len(), 3);
    assert!(matches!(worker.tick_at(now, 2000).pop(), Some(Action::WebrtcCount(2000))));
    assert!(matches!(worker.tick_at(now, u64::MAX).pop(), Some(Action::WebrtcCount(u64::MAX))));
    assert_eq!(worker.tick_at(now, u64::MAX).len(), 3);
}

#[test]
fn gateway_hears_once_an_interval() {
    let mut worker = worker();
    let mut reports = vec![];
    for now_ms in [0, 400, 1000, 1400, 1999, 2000, 2600, 3300, 4299, 4300] {
        if let Some(Action::WebrtcCount(at)) = worker.tick_at(Instant::now(), now_ms).pop() {
            match worker.on_webrtc_count(at, 1) {
                Action::SdnEvent(reported, _) => reports.push(reported),
                _ => panic!("expected a report to the gateway"),
            }
        }
    }
    assert_eq!(reports, vec![1000, 2000, 3300, 4300]);
}

#[test]
fn gateway_learns_the_count() {
    let mut worker = worker();
    match worker.on_webrtc_count(1000, 12) {
        Action::SdnEvent(
            1000,
            SdnWorkerInput::Ext(SdnExtIn::ServicesControl(
                ServiceId::GatewayAgent,
                UserData::Cluster,
                SC::Gateway(GatewayControl::WorkerUsage(kind, number, live)),
            )),
        ) => {
            assert_eq!(kind, ServiceKind::Webrtc);
            assert_eq!(number, 3);
            assert_eq!(live, 12);
        }
        _ => panic!("expected a report to the gateway"),
    }
    assert_eq!(polled(&mut worker), vec![TaskType::Sdn]);
}

#[test]
fn count_is_cut_to_its_low_bits() {
    let mut worker = worker();
    match worker.on_webrtc_count(0, 0x3_0000_0005) {
        Action::SdnEvent(
            _,
            SdnWorkerInput::Ext(SdnExtIn::ServicesControl(_, _, SC::Gateway(GatewayControl::WorkerUsage(_, _, live)))),
        ) => assert_eq!(live, 5),
        _ => panic!("expected a report to the gateway"),
    }
}

#[test]
fn clock_is_read_through_the_pivot() {
    let timer = TimePivot::build();
    let now = Instant::now();
    let later = now + Duration::from_secs(60);
    let (now_ms, later_ms) = (timer.timestamp_ms(now), timer.timestamp_ms(later));
    assert_eq!(later_ms - now_ms, 60_000);
    let mut worker = worker_with(timer);
    let actions = worker.on_tick(now);
    assert!(matches!(actions[0], Action::SdnTick(at) if at == now_ms));
    assert!(matches!(actions[3], Action::WebrtcCount(at) if at == now_ms));
    let actions = worker.shutdown(later);
    assert!(matches!(actions[0], Action::SdnEvent(at, SdnWorkerInput::ShutdownRequest) if at == later_ms));
    assert!(matches!(worker.pop_output(later), Step::PollSdn(at) if at == later_ms));
    assert!(matches!(worker.on_polled_empty(TaskType::MediaCluster, now), Step::PollSdn(at) if at == now_ms));
    let input = Input::Bus(8);
    assert!(matches!(only(worker.on_event(later, input, 0)), Action::SdnEvent(at, SdnWorkerInput::Bus(8)) if at == later_ms));
    let (_, calls) = worker.output_cluster(later, ClusterOutput::Sdn(1, FeaturesControl::Data(data::Control::Ping(2))));
    assert!(matches!(only(calls), Action::SdnEvent(at, _) if at == later_ms));
    let (_, calls) = worker.output_webrtc(later, GroupOutput::PeerEvent(4, now, "left".to_string()));
    match only(calls) {
        Action::SdnEvent(
            at,
            SdnWorkerInput::Ext(SdnExtIn::ServicesControl(
                ServiceId::ConnectorAgent,
                UserData::Cluster,
                SC::Connector(ConnectorControl::Fire(event_at, ConnectorRequest::Peer(peer))),
            )),
        ) => {
            assert_eq!(at, later_ms);
            assert_eq!(event_at, now_ms);
            assert_eq!(peer.session_id, 4);
            assert_eq!(peer.event.as_deref(), Some("left"));
        }
        _ => panic!("expected a record for the connector"),
    }
}

#[test]
fn node_stats_go_to_console_and_gateway() {
    let mut worker = worker();
    let metrics = NodeMetrics { cpu: 10, memory: 20, disk: 30 };
    let mut actions = worker.event_at(Instant::now(), 77, 0, Input::NodeStats(metrics), 9);
    assert_eq!(actions.len(), 2);
    match actions.pop() {
        Some(Action::SdnEvent(
            77,
            SdnWorkerInput::Ext(SdnExtIn::ServicesControl(
                ServiceId::GatewayAgent,
                UserData::Cluster,
                SC::Gateway(GatewayControl::NodeStats(stats)),
            )),
        )) => assert_eq!(stats, metrics),
        _ => panic!("expected stats for the gateway"),
    }
    match actions.pop() {
        Some(Action::SdnEvent(
            77,
            SdnWorkerInput::Ext(SdnExtIn::ServicesControl(
                ServiceId::Visualization,
                UserData::Cluster,
                SC::Visual(VisualControl::UpdateInfo(ClusterNodeInfo::Media(generic, media))),
            )),
        )) => {
            assert_eq!(generic.addr, "7@/ip4/192.168.1.9/udp/4000");
            assert_eq!((generic.cpu, generic.memory, generic.disk), (10, 20, 30));
            assert_eq!(media, ClusterMediaInfo { live: 9, max: 100 });
        }
        _ => panic!("expected an update for the console"),
    }
    assert_eq!(polled(&mut worker), vec![TaskType::Sdn]);
}

#[test]
fn outside_requests_go_to_the_network() {
    let mut worker = worker();
    let now = Instant::now();
    let action = only(worker.event_at(now, 77, 0, Input::ExtSdn(SdnExtIn::DisconnectFrom(4)), 0));
    assert!(matches!(action, Action::SdnEvent(77, SdnWorkerInput::Ext(SdnExtIn::DisconnectFrom(4)))));
    let action = only(worker.event_at(now, 78, 0, Input::Bus(6), 0));
    assert!(matches!(action, Action::SdnEvent(78, SdnWorkerInput::Bus(6))));
    assert_eq!(polled(&mut worker), vec![TaskType::Sdn]);
}

#[test]
fn packets_go_to_their_owner() {
    let mut worker = worker();
    let now = Instant::now();
    let data = Buffer::from(vec![1, 2, 3]);
    let packet = BackendIncoming::UdpPacket { slot: 4, from: peer_addr(5), data: data.clone() };
    match only(worker.event_at(now, 77, 0, Input::Net(Owner::Sdn, packet), 0)) {
        Action::SdnEvent(77, SdnWorkerInput::Net(NetInput::UdpPacket(from, got))) => {
            assert_eq!(from, peer_addr(5));
            assert_eq!(got, data);
        }
        _ => panic!("expected a packet for the network"),
    }
    assert_eq!(polled(&mut worker), vec![TaskType::Sdn]);
    let packet = BackendIncoming::UdpPacket { slot: 4, from: peer_addr(6), data: data.clone() };
    match only(worker.event_at(now, 77, 0, Input::Net(Owner::MediaWebrtc, packet), 0)) {
        Action::WebrtcEvent(at, GroupInput::Net(BackendIncoming::UdpPacket { slot, from, data: got })) => {
            assert_eq!(at, now);
            assert_eq!(slot, 4);
            assert_eq!(from, peer_addr(6));
            assert_eq!(got, data);
        }
        _ => panic!("expected a packet for the sessions"),
    }
    assert_eq!(polled(&mut worker), vec![TaskType::MediaWebrtc]);
}

fn bind(worker: &mut Worker, slot: usize) {
    let bound = BackendIncoming::UdpListenResult { bind: peer_addr(1), result: Ok((peer_addr(2), slot)) };
    assert!(worker.event_at(Instant::now(), 0, 0, Input::Net(Owner::Sdn, bound), 0).is_empty());
}

fn slot_of(worker: &mut Worker) -> usize {
    let data = Buffer::from(vec![9]);
    let (output, calls) =
        worker.output_sdn(Instant::now(), SdnWorkerOutput::Net(NetOutput::UdpPacket(peer_addr(3), data.clone())));
    assert!(calls.is_empty());
    match output {
        Output::Net(Owner::Sdn, BackendOutgoing::UdpPacket { slot, to, data: got }) => {
            assert_eq!(to, peer_addr(3));
            assert_eq!(got, data);
            slot
        }
        _ => panic!("expected a packet"),
    }
}

#[test]
fn packets_leave_from_the_bound_slot() {
    let mut worker = worker();
    assert_eq!(slot_of(&mut worker), 1);
    bind(&mut worker, 8);
    assert_eq!(slot_of(&mut worker), 8);
    worker.tick_at(Instant::now(), 5000);
    assert_eq!(slot_of(&mut worker), 8);
    bind(&mut worker, 0);
    assert_eq!(slot_of(&mut worker), 0);
    let to = vec![peer_addr(3), peer_addr(4)];
    let out = SdnWorkerOutput::Net(NetOutput::UdpPackets(to.clone(), Buffer::from(vec![7])));
    match worker.output_sdn(Instant::now(), out).0 {
        Output::Net(Owner::Sdn, BackendOutgoing::UdpPackets { slot: 0, to: sent, data }) => {
            assert_eq!(sent, to);
            assert_eq!(data, Buffer::from(vec![7]));
        }
        _ => panic!("expected packets"),
    }
}

#[test]
fn binding_asks_nothing_of_the_tasks() {
    let mut worker = worker();
    bind(&mut worker, 8);
    assert_eq!(polled(&mut worker), vec![]);
}

#[test]
fn failed_listen_of_the_sessions_is_theirs() {
    let mut worker = worker();
    let failed = BackendIncoming::UdpListenResult {
        bind: peer_addr(1),
        result: Err(std::io::Error::new(std::io::ErrorKind::AddrInUse, "taken")),
    };
    match only(worker.event_at(Instant::now(), 0, 0, Input::Net(Owner::MediaWebrtc, failed), 0)) {
        Action::WebrtcEvent(_, GroupInput::Net(BackendIncoming::UdpListenResult { bind, result })) => {
            assert_eq!(bind, peer_addr(1));
            assert_eq!(result.unwrap_err().kind(), std::io::ErrorKind::AddrInUse);
        }
        _ => panic!("expected the outcome"),
    }
}

fn whip_connect() -> RpcReq<Plain> {
    RpcReq::Whip(WhipReq::Connect(WhipConnectReq {
        session_id: 6,
        ip: IpAddr::V4(0x01020304),
        room: RoomId("room".to_string()),
        peer: PeerId("peer".to_string()),
        sdp: "offer".to_string(),
    }))
}

fn whep_connect() -> RpcReq<Plain> {
    RpcReq::Whep(WhepReq::Connect(WhepConnectReq {
        session_id: 6,
        ip: IpAddr::V6(1),
        room: RoomId("room".to_string()),
        sdp: "offer".to_string(),
    }))
}

fn webrtc_connect() -> RpcReq<Plain> {
    let req = ConnectRequest { sdp: "offer".to_string(), body: 33 };
    RpcReq::Webrtc(WebrtcReq::Connect(6, IpAddr::V4(1), "agent".to_string(), req))
}

#[test]
fn whip_connect_starts_a_session() {
    let mut worker = worker();
    let spawn = spawn_of(rpc(&mut worker, whip_connect()));
    assert_eq!((spawn.req_id, spawn.session_id, spawn.ip), (11, 6, IpAddr::V4(0x01020304)));
    assert_eq!(spawn.sdp, "offer");
    match spawn.params {
        VariantParams::Whip(room, peer) => {
            assert_eq!(room, RoomId("room".to_string()));
            assert_eq!(peer, PeerId("peer".to_string()));
        }
        _ => panic!("expected a WHIP session"),
    }
    assert_eq!(polled(&mut worker), vec![TaskType::MediaWebrtc]);
}

#[test]
fn whep_connect_names_its_peer() {
    let mut worker = worker();
    for (salt, name) in [
        (0, "whep-0"),
        (9, "whep-9"),
        (10, "whep-10"),
        (90210, "whep-90210"),
        (u64::MAX, "whep-18446744073709551615"),
    ] {
        let spawn = spawn_of(only(worker.process_rpc_with(Instant::now(), 11, whep_connect(), salt)));
        assert_eq!((spawn.req_id, spawn.session_id, spawn.ip), (11, 6, IpAddr::V6(1)));
        assert_eq!(spawn.sdp, "offer");
        match spawn.params {
            VariantParams::Whep(room, peer) => {
                assert_eq!(room, RoomId("room".to_string()));
                assert_eq!(peer, PeerId(name.to_string()));
            }
            _ => panic!("expected a WHEP session"),
        }
    }
}

#[test]
fn whep_peers_are_drawn_by_chance() {
    let mut worker = worker();
    let mut names = vec![];
    for _ in 0..20 {
        match spawn_of(only(worker.on_event(Instant::now(), Input::ExtRpc(1, whep_connect()), 0))).params {
            VariantParams::Whep(_, peer) => names.push(peer.0),
            _ => panic!("expected a WHEP session"),
        }
        match spawn_of(only(worker.process_rpc(Instant::now(), 1, whep_connect()))).params {
            VariantParams::Whep(_, peer) => names.push(peer.0),
            _ => panic!("expected a WHEP session"),
        }
    }
    for name in &names {
        assert!(name.strip_prefix("whep-").unwrap().parse::<u64>().is_ok());
    }
    assert!(names.iter().any(|name| name != &names[0]));
}

#[test]
fn webrtc_connect_hands_over_the_key() {
    let mut worker = worker();
    let spawn = spawn_of(rpc(&mut worker, webrtc_connect()));
    assert_eq!((spawn.req_id, spawn.session_id, spawn.ip), (11, 6, IpAddr::V4(1)));
    assert_eq!(spawn.sdp, "offer");
    match spawn.params {
        VariantParams::Webrtc(agent, req, secure) => {
            assert_eq!(agent, "agent");
            assert_eq!(req.sdp, "offer");
            assert_eq!(req.body, 33);
            assert_eq!(*secure, "key");
        }
        _ => panic!("expected a native session"),
    }
}

#[test]
fn started_sessions_are_announced() {
    let mut worker = worker();
    worker.on_spawned(1, Variant::Whip, Ok((true, "answer".to_string(), 5)));
    worker.on_spawned(2, Variant::Whep, Ok((true, "answer".to_string(), 6)));
    worker.on_spawned(3, Variant::Webrtc, Ok((true, "answer".to_string(), 7)));
    worker.on_spawned(4, Variant::Webrtc, Ok((false, "other".to_string(), 8)));
    let sdp = "answer".to_string();
    assert_eq!(
        answer(&mut worker),
        (1, RpcRes::Whip(WhipRes::Connect(Ok(WhipConnectRes { conn_id: 5, sdp: sdp.clone() }))))
    );
    assert_eq!(
        answer(&mut worker),
        (2, RpcRes::Whep(WhepRes::Connect(Ok(WhepConnectRes { conn_id: 6, sdp: sdp.clone() }))))
    );
    let response = ConnectResponse { conn_id: String::new(), sdp, ice_lite: true };
    assert_eq!(answer(&mut worker), (3, RpcRes::Webrtc(WebrtcRes::Connect(Ok((7, response))))));
    let response = ConnectResponse { conn_id: String::new(), sdp: "other".to_string(), ice_lite: false };
    assert_eq!(answer(&mut worker), (4, RpcRes::Webrtc(WebrtcRes::Connect(Ok((8, response))))));
    assert_eq!(polled(&mut worker), vec![]);
}

#[test]
fn failed_sessions_are_answered_with_the_error() {
    let mut worker = worker();
    worker.on_spawned(1, Variant::Whip, Err(error()));
    worker.on_spawned(2, Variant::Whep, Err(error()));
    worker.on_spawned(3, Variant::Webrtc, Err(error()));
    assert_eq!(answer(&mut worker), (1, RpcRes::Whip(WhipRes::Connect(Err(error())))));
    assert_eq!(answer(&mut worker), (2, RpcRes::Whep(WhepRes::Connect(Err(error())))));
    assert_eq!(answer(&mut worker), (3, RpcRes::Webrtc(WebrtcRes::Connect(Err(error())))));
}

#[test]
fn answers_come_out_in_order() {
    let mut worker = worker();
    for id in 0..40 {
        worker.on_spawned(id, Variant::Whip, Err(error()));
    }
    for id in 0..20 {
        assert_eq!(answer(&mut worker).0, id);
    }
    for id in 40..60 {
        worker.on_spawned(id, Variant::Whip, Err(error()));
    }
    for id in 20..60 {
        assert_eq!(answer(&mut worker).0, id);
    }
    assert_eq!(polled(&mut worker), vec![]);
}

#[test]
fn answers_come_before_polls() {
    let mut worker = worker();
    worker.tick_at(Instant::now(), 0);
    worker.on_spawned(1, Variant::Whip, Err(error()));
    assert_eq!(answer(&mut worker).0, 1);
    assert_eq!(polled(&mut worker).len(), 3);
}

#[test]
fn delete_is_answered_at_once() {
    let mut worker = worker();
    let action = rpc(&mut worker, RpcReq::Whip(WhipReq::Delete(WhipDeleteReq { conn_id: 5 })));
    assert!(matches!(action, Action::WebrtcEvent(_, GroupInput::Close(WebrtcSession(5)))));
    assert_eq!(answer(&mut worker), (11, RpcRes::Whip(WhipRes::Delete(Ok(WhipDeleteRes {})))));
    let action = rpc(&mut worker, RpcReq::Whep(WhepReq::Delete(WhepDeleteReq { conn_id: 6 })));
    assert!(matches!(action, Action::WebrtcEvent(_, GroupInput::Close(WebrtcSession(6)))));
    assert_eq!(answer(&mut worker), (11, RpcRes::Whep(WhepRes::Delete(Ok(WhepDeleteRes {})))));
    assert_eq!(polled(&mut worker), vec![TaskType::MediaWebrtc]);
}

fn forwarded_ice(action: Action<Plain>) -> (usize, u64, Variant, Vec<String>) {
    match action {
        Action::WebrtcEvent(_, GroupInput::Ext(session, ExtIn::RemoteIce(id, variant, candidates))) => {
            (session.0, id, variant, candidates)
        }
        _ => panic!("expected candidates"),
    }
}

#[test]
fn candidates_reach_their_session() {
    let mut worker = worker();
    let ice = "candidate".to_string();
    let action = rpc(&mut worker, RpcReq::Whip(WhipReq::RemoteIce(WhipRemoteIceReq { conn_id: 1, ice: ice.clone() })));
    assert_eq!(forwarded_ice(action), (1, 11, Variant::Whip, vec![ice.clone()]));
    let action = rpc(&mut worker, RpcReq::Whep(WhepReq::RemoteIce(WhepRemoteIceReq { conn_id: 2, ice: ice.clone() })));
    assert_eq!(forwarded_ice(action), (2, 11, Variant::Whep, vec![ice.clone()]));
    let candidates = vec![ice, "second".to_string()];
    let request = RemoteIceRequest { candidates: candidates.clone() };
    let action = rpc(&mut worker, RpcReq::Webrtc(WebrtcReq::RemoteIce(3, request)));
    assert_eq!(forwarded_ice(action), (3, 11, Variant::Webrtc, candidates));
    assert_eq!(polled(&mut worker), vec![TaskType::MediaWebrtc]);
}

fn reply(worker: &mut Worker, out: ExtOut) -> (u64, RpcRes) {
    let (output, calls) = worker.output_webrtc_at(Instant::now(), 0, 0, GroupOutput::Ext(WebrtcSession(4), out));
    assert!(calls.is_empty());
    match output {
        Output::ExtRpc(req_id, res) => (req_id, res),
        _ => panic!("expected an answer"),
    }
}

#[test]
fn candidates_are_answered_in_kind() {
    let mut worker = worker();
    assert_eq!(
        reply(&mut worker, ExtOut::RemoteIce(1, Variant::Whip, Ok(2))),
        (1, RpcRes::Whip(WhipRes::RemoteIce(Ok(WhipRemoteIceRes {}))))
    );
    assert_eq!(
        reply(&mut worker, ExtOut::RemoteIce(2, Variant::Whep, Ok(2))),
        (2, RpcRes::Whep(WhepRes::RemoteIce(Ok(WhepRemoteIceRes {}))))
    );
    assert_eq!(
        reply(&mut worker, ExtOut::RemoteIce(3, Variant::Webrtc, Ok(2))),
        (3, RpcRes::Webrtc(WebrtcRes::RemoteIce(Ok(RemoteIceResponse { added: 2 }))))
    );
    assert_eq!(
        reply(&mut worker, ExtOut::RemoteIce(4, Variant::Whip, Err(error()))),
        (4, RpcRes::Whip(WhipRes::RemoteIce(Err(error()))))
    );
    assert_eq!(
        reply(&mut worker, ExtOut::RemoteIce(5, Variant::Whep, Err(error()))),
        (5, RpcRes::Whep(WhepRes::RemoteIce(Err(error()))))
    );
    assert_eq!(
        reply(&mut worker, ExtOut::RemoteIce(6, Variant::Webrtc, Err(error()))),
        (6, RpcRes::Webrtc(WebrtcRes::RemoteIce(Err(error()))))
    );
}

#[test]
fn restart_goes_there_and_back() {
    let mut worker = worker();
    let req = ConnectRequest { sdp: "offer".to_string(), body: 1 };
    let req = RpcReq::Webrtc(WebrtcReq::RestartIce(4, IpAddr::V4(1), "agent".to_string(), req));
    match rpc(&mut worker, req) {
        Action::WebrtcEvent(_, GroupInput::Ext(WebrtcSession(4), ExtIn::RestartIce(11, variant, ip, agent, req))) => {
            assert_eq!(variant, Variant::Webrtc);
            assert_eq!(ip, IpAddr::V4(1));
            assert_eq!(agent, "agent");
            assert_eq!((req.sdp.as_str(), req.body), ("offer", 1));
        }
        _ => panic!("expected a restart"),
    }
    let response = ConnectResponse { conn_id: String::new(), sdp: "new".to_string(), ice_lite: true };
    assert_eq!(
        reply(&mut worker, ExtOut::RestartIce(11, Variant::Webrtc, Ok((true, "new".to_string())))),
        (11, RpcRes::Webrtc(WebrtcRes::RestartIce(Ok((4, response)))))
    );
    assert_eq!(
        reply(&mut worker, ExtOut::RestartIce(12, Variant::Webrtc, Err(error()))),
        (12, RpcRes::Webrtc(WebrtcRes::RestartIce(Err(error()))))
    );
}

#[test]
fn network_outputs_pass_through() {
    let mut worker = worker();
    let now = Instant::now();
    let event = FeaturesEvent::Data(data::Event::Pong(1, Some(2)));
    let out = SdnWorkerOutput::Ext(SdnExtOut::FeaturesEvent(UserData::Room(5), event.clone()));
    let (output, calls) = worker.output_sdn(now, out);
    assert!(calls.is_empty());
    match output {
        Output::ExtSdn(SdnExtOut::FeaturesEvent(UserData::Room(5), got)) => assert_eq!(got, event),
        _ => panic!("expected the event"),
    }
    let (output, calls) = worker.output_sdn(now, SdnWorkerOutput::Bus(12));
    assert!(calls.is_empty());
    assert!(matches!(output, Output::Bus(12)));
    assert_eq!(polled(&mut worker), vec![]);
}

#[test]
fn unread_outputs_of_the_network_are_dropped() {
    let mut worker = worker();
    let event = FeaturesEvent::Data(data::Event::Pong(1, None));
    for out in [
        SdnWorkerOutput::ExtWorker(SdnExtOut::FeaturesEvent(UserData::Cluster, event)),
        SdnWorkerOutput::ExtWorker(SdnExtOut::ServicesEvent(ServiceId::Other(3), UserData::Room(1), SE::Gateway(()))),
        SdnWorkerOutput::ShutdownResponse,
        SdnWorkerOutput::Continue,
    ] {
        let (output, calls) = worker.output_sdn(Instant::now(), out);
        assert!(calls.is_empty());
        assert!(matches!(output, Output::Continue));
    }
    assert_eq!(polled(&mut worker), vec![]);
}

#[test]
fn rooms_talk_to_the_network_and_hear_back() {
    let mut worker = worker();
    let now = Instant::now();
    let control = FeaturesControl::Neighbours(neighbours::Control::Sub);
    let (output, calls) = worker.output_cluster_at(now, 77, ClusterOutput::Sdn(5, control.clone()));
    assert!(matches!(output, Output::Continue));
    let asker = match only(calls) {
        Action::SdnEvent(77, SdnWorkerInput::ExtWorker(SdnExtIn::FeaturesControl(asker, got))) => {
            assert_eq!(got, control);
            asker
        }
        _ => panic!("expected a control"),
    };
    assert_eq!(polled(&mut worker), vec![TaskType::Sdn]);
    let event = FeaturesEvent::Data(data::Event::Pong(1, None));
    let out = SdnWorkerOutput::ExtWorker(SdnExtOut::FeaturesEvent(asker, event.clone()));
    let (output, calls) = worker.output_sdn(now, out);
    assert!(matches!(output, Output::Continue));
    match only(calls) {
        Action::ClusterSdnEvent(at, 5, got) => {
            assert_eq!(at, now);
            assert_eq!(got, event);
        }
        _ => panic!("expected an event for the room"),
    }
    assert_eq!(polled(&mut worker), vec![TaskType::MediaCluster]);
}

#[test]
fn sessions_talk_to_rooms_and_hear_back() {
    let mut worker = worker();
    let now = Instant::now();
    let (output, calls) = worker.output_webrtc_at(now, 0, 0, GroupOutput::Cluster(WebrtcSession(4), 5, 6));
    assert!(matches!(output, Output::Continue));
    let endpoint = match only(calls) {
        Action::ClusterEndpointControl(at, endpoint, 5, 6) => {
            assert_eq!(at, now);
            endpoint
        }
        _ => panic!("expected a control"),
    };
    assert_eq!(polled(&mut worker), vec![TaskType::MediaCluster]);
    let endpoints = vec![MediaClusterEndpoint::Webrtc(WebrtcSession(2)), endpoint];
    let out = ClusterOutput::Endpoint(endpoints, "joined".to_string());
    let (output, calls) = worker.output_cluster_at(now, 0, out);
    assert!(matches!(output, Output::Continue));
    let told: Vec<(usize, String)> = calls
        .into_iter()
        .map(|call| match call {
            Action::WebrtcEvent(_, GroupInput::Cluster(session, event)) => (session.0, event),
            _ => panic!("expected an event"),
        })
        .collect();
    assert_eq!(told, vec![(2, "joined".to_string()), (4, "joined".to_string())]);
    assert_eq!(polled(&mut worker), vec![TaskType::MediaWebrtc]);
}

#[test]
fn event_for_nobody_calls_nobody() {
    let mut worker = worker();
    let (output, calls) = worker.output_cluster_at(Instant::now(), 0, ClusterOutput::Endpoint(vec![], "joined".to_string()));
    assert!(matches!(output, Output::Continue));
    assert!(calls.is_empty());
    assert_eq!(polled(&mut worker), vec![]);
    let (output, calls) = worker.output_cluster_at(Instant::now(), 0, ClusterOutput::Continue);
    assert!(matches!(output, Output::Continue));
    assert!(calls.is_empty());
}

#[test]
fn session_packets_keep_their_slot() {
    let mut worker = worker();
    let out = BackendOutgoing::UdpPacket { slot: 9, to: peer_addr(1), data: Buffer::from(vec![4]) };
    let (output, calls) = worker.output_webrtc_at(Instant::now(), 0, 0, GroupOutput::Net(out));
    assert!(calls.is_empty());
    match output {
        Output::Net(Owner::MediaWebrtc, BackendOutgoing::UdpPacket { slot: 9, to, data }) => {
            assert_eq!(to, peer_addr(1));
            assert_eq!(data, Buffer::from(vec![4]));
        }
        _ => panic!("expected a packet"),
    }
    for out in [GroupOutput::Shutdown(WebrtcSession(1)), GroupOutput::Continue] {
        let (output, calls) = worker.output_webrtc_at(Instant::now(), 0, 0, out);
        assert!(matches!(output, Output::Continue));
        assert!(calls.is_empty());
    }
    assert_eq!(polled(&mut worker), vec![]);
}

#[test]
fn shutdown_reaches_every_task() {
    let mut worker = worker();
    let now = Instant::now();
    let actions = worker.shutdown_at(now, 6);
    assert_eq!(actions.len(), 3);
    assert!(matches!(actions[0], Action::SdnEvent(6, SdnWorkerInput::ShutdownRequest)));
    assert!(matches!(actions[1], Action::ClusterShutdown(at) if at == now));
    assert!(matches!(actions[2], Action::WebrtcShutdown(at) if at == now));
    assert_eq!(polled(&mut worker), vec![TaskType::Sdn, TaskType::MediaCluster, TaskType::MediaWebrtc]);
}

#[test]
fn polls_follow_the_order_and_end() {
    let mut worker = worker();
    let now = Instant::now();
    assert_eq!(polled(&mut worker), vec![]);
    worker.output_webrtc_at(now, 0, 0, GroupOutput::Cluster(WebrtcSession(4), 5, 6));
    rpc(&mut worker, whip_connect());
    assert_eq!(polled(&mut worker), vec![TaskType::MediaCluster, TaskType::MediaWebrtc]);
    assert_eq!(polled(&mut worker), vec![]);
    rpc(&mut worker, whip_connect());
    worker.on_webrtc_count(0, 0);
    assert_eq!(polled(&mut worker), vec![TaskType::Sdn, TaskType::MediaWebrtc]);
}

#[test]
fn polled_task_keeps_its_turn_while_it_has_outputs() {
    let mut worker = worker();
    let now = Instant::now();
    worker.tick_at(now, 0);
    for _ in 0..3 {
        assert!(matches!(worker.pop_output_at(now, 7), Step::PollSdn(7)));
        worker.output_sdn(now, SdnWorkerOutput::Continue);
    }
    assert!(matches!(worker.polled_empty_at(TaskType::Sdn, now, 7), Step::PollCluster));
}
