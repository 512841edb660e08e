use atm0s_sdn::NodeAddr;
use media_runner::action::{Output, Step, TaskType};
use media_runner::config::{sum_max_live, MediaConfig, Service, WorkerSetup};
use media_runner::net::{BackendOutgoing, Owner, SocketAddr};
use media_runner::payload::Payloads;
use media_runner::sdn::{ClusterMediaInfo, ClusterNodeInfo};
use media_runner::text::decimal_text;
use media_runner::worker::MediaServerWorker;
use std::collections::HashMap;
use std::sync::Arc;
use std::time::Instant;

struct Plain;

impl Payloads for Plain {
    type Room = u32;
    type RoomHash = u64;
    type EndpointControl = u16;
    type EndpointEvent = String;
    type PeerEvent = String;
    type ConnectBody = u8;
    type Secure = String;
    type BusEvent = u64;
    type NodeInfo = ();
    type GatewayControl = ();
    type ConnectorControl = ();
    type VisualEvent = ();
    type GatewayEvent = ();
    type ConnectorEvent = ();
}

fn limits(pairs: &[(u8, u32)]) -> HashMap<u8, u32> {
    pairs.iter().copied().collect()
}

fn addr() -> NodeAddr {
    "7@/ip4/192.168.1.9/udp/4000".parse().unwrap()
}

fn start(controller: bool, max_live: HashMap<u8, u32>) -> (MediaServerWorker<Plain>, WorkerSetup<Plain>) {
    let media = MediaConfig {
        ice_lite: true,
        webrtc_addrs: vec![SocketAddr::V4 { ip: 0x7f000001, port: 9000 }],
        secure: Arc::new("key".to_string()),
        max_live,
    };
    MediaServerWorker::new(3, 7, 99, "insecure", controller, 4000, addr(), 5, media)
}

#[test]
fn limits_add_up() {
    assert_eq!(sum_max_live(&limits(&[])), 0);
    assert_eq!(sum_max_live(&limits(&[(4, 250)])), 250);
    assert_eq!(sum_max_live(&limits(&[(0, 1), (1, 20), (200, 300)])), 321);
    assert_eq!(sum_max_live(&limits(&[(0, u32::MAX), (1, 0)])), u32::MAX);
}

#[test]
fn controller_runs_every_service() {
    let (_, setup) = start(true, limits(&[(0, 60), (1, 40)]));
    assert_eq!(setup.sdn.node_id, 7);
    assert_eq!(setup.sdn.tick_ms, 1000);
    let controller = setup.sdn.controller.unwrap();
    assert_eq!(controller.session, 99);
    assert_eq!(controller.secret, "insecure");
    assert_eq!(
        controller.services,
        vec![Service::Visualization, Service::Discovery, Service::Gateway, Service::Connector]
    );
    assert_eq!(setup.sdn.data.worker_id, 0);
    assert_eq!(setup.sdn.data.services, vec![Service::Visualization, Service::Discovery, Service::Gateway]);
    assert!(!setup.sdn.collector);
    assert!(setup.sdn.own_tags.is_empty());
    assert_eq!(setup.sdn.sought_zones, vec![5]);
    assert_eq!(setup.sdn.max_live, limits(&[(0, 60), (1, 40)]));
}

#[test]
fn other_workers_run_no_controller() {
    let (_, setup) = start(false, limits(&[]));
    assert!(setup.sdn.controller.is_none());
    assert_eq!(setup.sdn.data.services, vec![Service::Visualization, Service::Discovery, Service::Gateway]);
}

#[test]
fn node_shows_as_idle_at_first() {
    let (_, setup) = start(true, limits(&[(0, 60), (1, 40)]));
    assert_eq!(setup.sdn.node_addr, addr());
    match setup.sdn.node_info {
        ClusterNodeInfo::Media(generic, media) => {
            assert_eq!(generic.addr, "7@/ip4/192.168.1.9/udp/4000");
            assert_eq!((generic.cpu, generic.memory, generic.disk), (0, 0, 0));
            assert_eq!(media, ClusterMediaInfo { live: 0, max: 100 });
        }
        ClusterNodeInfo::Other(()) => panic!("not a media node"),
    }
}

#[test]
fn sessions_get_the_media_config() {
    let (_, setup) = start(true, limits(&[]));
    assert_eq!(setup.webrtc.addrs, vec![SocketAddr::V4 { ip: 0x7f000001, port: 9000 }]);
    assert!(setup.webrtc.ice_lite);
    assert_eq!(*setup.webrtc.secure, "key");
}

#[test]
fn listens_first_and_then_has_nothing() {
    let (mut worker, _) = start(true, limits(&[]));
    let now = Instant::now();
    match worker.pop_output(now) {
        Step::Ready(Output::Net(Owner::Sdn, BackendOutgoing::UdpListen { addr, reuse })) => {
            assert_eq!(addr, SocketAddr::V4 { ip: 0, port: 4000 });
            assert!(reuse);
        }
        _ => panic!("expected a request to listen"),
    }
    assert!(matches!(worker.pop_output(now), Step::Idle));
}

#[test]
fn tasks_of_the_network_count_twice() {
    let (worker, _) = start(true, limits(&[]));
    assert_eq!(worker.tasks(0), 0);
    assert_eq!(worker.tasks(2), 4);
}

#[test]
fn tasks_have_their_places() {
    for (index, task) in [TaskType::Sdn, TaskType::MediaCluster, TaskType::MediaWebrtc].into_iter().enumerate() {
        assert_eq!(task.index(), index);
        assert_eq!(TaskType::from_index(index), Some(task));
    }
    assert_eq!(TaskType::from_index(3), None);
}

#[test]
fn numbers_are_written_in_decimal() {
    for n in [0, 7, 10, 99, 100, 1234567890, u64::MAX] {
        assert_eq!(decimal_text(n), format!("{n}"));
    }
}
