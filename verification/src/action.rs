//! What the worker takes in, what it gives out, and what it asks of its tasks.
use crate::cluster::MediaClusterEndpoint;
use crate::net::{BackendIncoming, BackendOutgoing, Owner, SocketAddr};
use crate::payload::Payloads;
use crate::rpc::{RpcReq, RpcRes};
use crate::sdn::{NodeMetrics, SdnExtIn, SdnExtOut, SdnWorkerInput};
use crate::webrtc::{GroupInput, SpawnRequest};
use atm0s_sdn::features::FeaturesEvent;
use std::time::Instant;
use vstd::prelude::*;

verus! {

/// The tasks of the worker, in the order in which they are polled.
#[derive(Debug, Clone, Copy, PartialEq, Eq, Structural)]
pub enum TaskType {
    Sdn,
    MediaCluster,
    MediaWebrtc,
}

impl TaskType {
    /// The place of the task in the polling order.
    pub open spec fn spec_index(self) -> usize {
        match self {
            TaskType::Sdn => 0,
            TaskType::MediaCluster => 1,
            TaskType::MediaWebrtc => 2,
        }
    }

    /// The task at a place of the polling order.
    pub open spec fn spec_from_index(index: usize) -> Option<TaskType> {
        if index == 0 {
            Some(TaskType::Sdn)
        } else if index == 1 {
            Some(TaskType::MediaCluster)
        } else if index == 2 {
            Some(TaskType::MediaWebrtc)
        } else {
            None
        }
    }

    /// The place of the task in the polling order.
    pub fn index(self) -> (index: usize)
        ensures
            index == self.spec_index(),
    {
        match self {
            TaskType::Sdn => 0,
            TaskType::MediaCluster => 1,
            TaskType::MediaWebrtc => 2,
        }
    }

    /// The task at a place of the polling order, where there is one.
    pub fn from_index(index: usize) -> (task: Option<TaskType>)
        ensures
            task == TaskType::spec_from_index(index),
    {
        if index == 0 {
            Some(TaskType::Sdn)
        } else if index == 1 {
            Some(TaskType::MediaCluster)
        } else if index == 2 {
            Some(TaskType::MediaWebrtc)
        } else {
            None
        }
    }
}

/// What the worker takes in.
pub enum Input<T: Payloads> {
    NodeStats(NodeMetrics),
    /// A request, by its number.
    ExtRpc(u64, RpcReq<T>),
    ExtSdn(SdnExtIn<T>),
    Net(Owner, BackendIncoming),
    Bus(T::BusEvent),
}

impl<T: Payloads> Input<T> {
    /// Whether the worker can go on after this. It serves no request to delete a connection of
    /// the WebRTC protocol, and it cannot run without the socket of the network worker.
    pub open spec fn accepted(self) -> bool {
        match self {
            Input::ExtRpc(_, req) => req.served(),
            Input::Net(Owner::Sdn, BackendIncoming::UdpListenResult { bind: _, result }) => result is Ok,
            _ => true,
        }
    }
}

/// What the worker gives out.
pub enum Output<T: Payloads> {
    /// The answer to a request, by its number.
    ExtRpc(u64, RpcRes),
    ExtSdn(SdnExtOut<T>),
    Net(Owner, BackendOutgoing),
    Bus(T::BusEvent),
    /// Nothing to give out, but there may be more to do.
    Continue,
}

/// What the worker has to give out on its own account.
#[derive(Debug, PartialEq, Eq)]
pub enum Queued {
    /// The answer to a request, by its number.
    ExtRpc(u64, RpcRes),
    /// The socket that the network worker needs, and whether its port may be shared.
    SdnListen(SocketAddr, bool),
}

impl Queued {
    /// The output this stands for.
    pub open spec fn spec_into_output<T: Payloads>(self) -> Output<T> {
        match self {
            Queued::ExtRpc(req_id, res) => Output::ExtRpc(req_id, res),
            Queued::SdnListen(addr, reuse) => Output::Net(
                Owner::Sdn,
                BackendOutgoing::UdpListen { addr, reuse },
            ),
        }
    }

    /// The output this stands for.
    pub fn into_output<T: Payloads>(self) -> (out: Output<T>)
        ensures
            out == self.spec_into_output::<T>(),
    {
        match self {
            Queued::ExtRpc(req_id, res) => Output::ExtRpc(req_id, res),
            Queued::SdnListen(addr, reuse) => Output::Net(
                Owner::Sdn,
                BackendOutgoing::UdpListen { addr, reuse },
            ),
        }
    }
}

/// A call that is to be made on one of the tasks.
pub enum Action<T: Payloads> {
    /// The time is in milliseconds, here and below where it is a number.
    SdnTick(u64),
    SdnEvent(u64, SdnWorkerInput<T>),
    ClusterTick(Instant),
    ClusterSdnEvent(Instant, T::Room, FeaturesEvent),
    ClusterEndpointControl(Instant, MediaClusterEndpoint, T::RoomHash, T::EndpointControl),
    ClusterShutdown(Instant),
    WebrtcTick(Instant),
    WebrtcEvent(Instant, GroupInput<T>),
    WebrtcShutdown(Instant),
    /// Start a session, and tell the worker the outcome.
    WebrtcSpawn(SpawnRequest<T>),
    /// Count the running sessions, and tell the worker their number.
    WebrtcCount(u64),
}

impl<T: Payloads> Action<T> {
    /// The task on which the call may leave something to be polled. Counting leaves nothing.
    pub open spec fn task(self) -> Option<TaskType> {
        match self {
            Action::SdnTick(_) => Some(TaskType::Sdn),
            Action::SdnEvent(_, _) => Some(TaskType::Sdn),
            Action::ClusterTick(_) => Some(TaskType::MediaCluster),
            Action::ClusterSdnEvent(_, _, _) => Some(TaskType::MediaCluster),
            Action::ClusterEndpointControl(_, _, _, _) => Some(TaskType::MediaCluster),
            Action::ClusterShutdown(_) => Some(TaskType::MediaCluster),
            Action::WebrtcTick(_) => Some(TaskType::MediaWebrtc),
            Action::WebrtcEvent(_, _) => Some(TaskType::MediaWebrtc),
            Action::WebrtcShutdown(_) => Some(TaskType::MediaWebrtc),
            Action::WebrtcSpawn(_) => Some(TaskType::MediaWebrtc),
            Action::WebrtcCount(_) => None,
        }
    }
}

/// How the search for an output goes on.
pub enum Step<T: Payloads> {
    /// Here is one.
    Ready(Output<T>),
    /// Poll the network worker at that time, in milliseconds.
    PollSdn(u64),
    /// Poll the media cluster.
    PollCluster,
    /// Poll the WebRTC sessions at that time.
    PollWebrtc(Instant),
    /// There is none.
    Idle,
}

} // verus!
