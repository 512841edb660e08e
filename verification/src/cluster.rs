//! What the worker exchanges with the media cluster.
use crate::payload::Payloads;
use crate::webrtc::WebrtcSession;
use atm0s_sdn::features::FeaturesControl;
use vstd::prelude::*;

verus! {

/// A participant of a room, by the task that runs it.
#[derive(Debug, Clone, Copy, PartialEq, Eq, Structural)]
pub enum MediaClusterEndpoint {
    Webrtc(WebrtcSession),
}

impl MediaClusterEndpoint {
    /// The session behind the endpoint.
    pub open spec fn session(self) -> WebrtcSession {
        match self {
            MediaClusterEndpoint::Webrtc(session) => session,
        }
    }
}

pub enum ClusterOutput<T: Payloads> {
    /// A room asks something of the network.
    Sdn(T::Room, FeaturesControl),
    /// The event is for each of the endpoints.
    Endpoint(Vec<MediaClusterEndpoint>, T::EndpointEvent),
    Continue,
}

} // verus!
