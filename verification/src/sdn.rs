//! What the worker exchanges with the network worker and the services that run on it.
use crate::net::{NetInput, NetOutput};
use crate::payload::Payloads;
use atm0s_sdn::features::{FeaturesControl, FeaturesEvent};
use atm0s_sdn::NodeAddr;
use vstd::prelude::*;

verus! {

/// On whose behalf something is asked of the network.
pub enum UserData<T: Payloads> {
    /// The worker itself.
    Cluster,
    /// A room of the media cluster.
    Room(T::Room),
}

/// The services of the network that the worker deals with.
#[derive(Debug, Clone, Copy, PartialEq, Eq, Structural)]
pub enum ServiceId {
    Visualization,
    GatewayAgent,
    ConnectorAgent,
    /// Any other service, by its number.
    Other(u8),
}

/// What kind of media service a node offers.
#[derive(Debug, Clone, Copy, PartialEq, Eq, Structural)]
pub enum ServiceKind {
    Webrtc,
}

/// How busy the machine is.
#[derive(Debug, Clone, Copy, PartialEq, Eq, Structural)]
pub struct NodeMetrics {
    pub cpu: u8,
    pub memory: u8,
    pub disk: u8,
}

#[derive(Debug, PartialEq, Eq)]
pub struct ClusterNodeGenericInfo {
    pub addr: String,
    pub cpu: u8,
    pub memory: u8,
    pub disk: u8,
}

#[derive(Debug, Clone, Copy, PartialEq, Eq, Structural)]
pub struct ClusterMediaInfo {
    /// The sessions that are running.
    pub live: u32,
    /// The sessions the node may run.
    pub max: u32,
}

/// A node as the console shows it.
pub enum ClusterNodeInfo<T: Payloads> {
    Media(ClusterNodeGenericInfo, ClusterMediaInfo),
    Other(T::NodeInfo),
}

impl<T: Payloads> ClusterNodeInfo<T> {
    /// Whether this shows a media node at the address that reads `addr`, as busy as `metrics`
    /// says, with `live` of `max` sessions running.
    pub open spec fn shows(self, addr: Seq<char>, metrics: NodeMetrics, live: u32, max: u32) -> bool {
        match self {
            ClusterNodeInfo::Media(generic, media) => {
                &&& generic.addr@ == addr
                &&& generic.cpu == metrics.cpu
                &&& generic.memory == metrics.memory
                &&& generic.disk == metrics.disk
                &&& media == (ClusterMediaInfo { live, max })
            },
            ClusterNodeInfo::Other(_) => false,
        }
    }

    /// Shows a media node.
    pub fn media(addr: String, metrics: NodeMetrics, live: u32, max: u32) -> (info: Self)
        ensures
            info.shows(addr@, metrics, live, max),
    {
        ClusterNodeInfo::Media(
            ClusterNodeGenericInfo {
                addr,
                cpu: metrics.cpu,
                memory: metrics.memory,
                disk: metrics.disk,
            },
            ClusterMediaInfo { live, max },
        )
    }
}

/// A control of the visualization service.
pub enum VisualControl<T: Payloads> {
    Subscribe,
    GetAll,
    UpdateInfo(ClusterNodeInfo<T>),
}

/// A control of the gateway service's agent.
pub enum GatewayControl<T: Payloads> {
    NodeStats(NodeMetrics),
    /// How many sessions of a kind a worker runs.
    WorkerUsage(ServiceKind, u16, u32),
    Other(T::GatewayControl),
}

/// What happened to the peer of a session.
pub struct PeerEvent<T: Payloads> {
    pub session_id: u64,
    pub event: Option<T::PeerEvent>,
}

/// What the connector service records.
pub enum ConnectorRequest<T: Payloads> {
    Peer(PeerEvent<T>),
}

/// A control of the connector service's agent.
pub enum ConnectorControl<T: Payloads> {
    /// Record something that happened at a time, in milliseconds.
    Fire(u64, ConnectorRequest<T>),
    Other(T::ConnectorControl),
}

/// A control of one of the services.
pub enum SC<T: Payloads> {
    Visual(VisualControl<T>),
    Gateway(GatewayControl<T>),
    Connector(ConnectorControl<T>),
}

/// An event of one of the services.
pub enum SE<T: Payloads> {
    Visual(T::VisualEvent),
    Gateway(T::GatewayEvent),
    Connector(T::ConnectorEvent),
}

/// What is asked of the network worker from outside the network.
pub enum SdnExtIn<T: Payloads> {
    ConnectTo(NodeAddr),
    DisconnectFrom(u32),
    FeaturesControl(UserData<T>, FeaturesControl),
    ServicesControl(ServiceId, UserData<T>, SC<T>),
}

/// What the network worker tells those outside the network.
pub enum SdnExtOut<T: Payloads> {
    FeaturesEvent(UserData<T>, FeaturesEvent),
    ServicesEvent(ServiceId, UserData<T>, SE<T>),
}

pub enum SdnWorkerInput<T: Payloads> {
    /// For the controller of the node.
    Ext(SdnExtIn<T>),
    /// For this worker alone.
    ExtWorker(SdnExtIn<T>),
    Net(NetInput),
    Bus(T::BusEvent),
    ShutdownRequest,
}

pub enum SdnWorkerOutput<T: Payloads> {
    /// From the controller of the node.
    Ext(SdnExtOut<T>),
    /// From this worker alone.
    ExtWorker(SdnExtOut<T>),
    Net(NetOutput),
    Bus(T::BusEvent),
    ShutdownResponse,
    Continue,
}

/// The request that the controller hand `control` to the service `service`, in the name of the
/// worker itself.
pub open spec fn service_request<T: Payloads>(
    service: ServiceId,
    control: SC<T>,
) -> SdnWorkerInput<T> {
    SdnWorkerInput::Ext(SdnExtIn::ServicesControl(service, UserData::Cluster, control))
}

} // verus!
