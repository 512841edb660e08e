//! What the worker exchanges with the task that runs the WebRTC sessions.
use crate::net::{BackendIncoming, BackendOutgoing, IpAddr};
use crate::payload::Payloads;
use crate::rpc::{ConnectRequest, PeerId, RoomId, RpcError, RpcResult, Variant};
use std::sync::Arc;
use std::time::Instant;
use vstd::prelude::*;

verus! {

/// A session, by its index. The index also names the connection to the outside.
#[derive(Debug, Clone, Copy, PartialEq, Eq, Structural)]
pub struct WebrtcSession(pub usize);

/// How a new session is to be set up.
pub enum VariantParams<T: Payloads> {
    Whip(RoomId, PeerId),
    Whep(RoomId, PeerId),
    /// The user agent, the request, and the key material.
    Webrtc(String, ConnectRequest<T>, Arc<T::Secure>),
}

impl<T: Payloads> VariantParams<T> {
    /// The protocol of the session.
    pub open spec fn variant(self) -> Variant {
        match self {
            VariantParams::Whip(_, _) => Variant::Whip,
            VariantParams::Whep(_, _) => Variant::Whep,
            VariantParams::Webrtc(_, _, _) => Variant::Webrtc,
        }
    }
}

/// A request to start a session, made for the RPC request `req_id`.
pub struct SpawnRequest<T: Payloads> {
    pub req_id: u64,
    pub ip: IpAddr,
    pub session_id: u64,
    pub params: VariantParams<T>,
    pub sdp: String,
}

/// A new session: whether the server speaks ICE lite, its session description, and the
/// connection.
pub type Spawned = (bool, String, usize);

/// What a session is asked from outside. The first number is the RPC request.
pub enum ExtIn<T: Payloads> {
    RemoteIce(u64, Variant, Vec<String>),
    RestartIce(u64, Variant, IpAddr, String, ConnectRequest<T>),
}

/// What a session answers. The first number is the RPC request.
pub enum ExtOut {
    /// The number of candidates that were added.
    RemoteIce(u64, Variant, RpcResult<u32>),
    /// Whether the server speaks ICE lite, and the new session description.
    RestartIce(u64, Variant, RpcResult<(bool, String)>),
}

impl ExtOut {
    /// Why the session did not do as it was asked, where it did not.
    pub open spec fn error(self) -> Option<RpcError> {
        match self {
            ExtOut::RemoteIce(_, _, Err(error)) => Some(error),
            ExtOut::RestartIce(_, _, Err(error)) => Some(error),
            _ => None,
        }
    }

    /// The new session description, where there is one.
    pub open spec fn sdp(self) -> Option<String> {
        match self {
            ExtOut::RestartIce(_, _, Ok((_, sdp))) => Some(sdp),
            _ => None,
        }
    }

    /// Whether this is the reply to `request`: of the same kind, and with the number and the
    /// protocol of the request.
    pub open spec fn replies_to<T: Payloads>(self, request: ExtIn<T>) -> bool {
        match (self, request) {
            (ExtOut::RemoteIce(id, protocol, _), ExtIn::RemoteIce(req_id, variant, _)) => {
                &&& id == req_id
                &&& protocol == variant
            },
            (ExtOut::RestartIce(id, protocol, _), ExtIn::RestartIce(req_id, variant, _, _, _)) => {
                &&& id == req_id
                &&& protocol == variant
            },
            _ => false,
        }
    }
}

pub enum GroupInput<T: Payloads> {
    Net(BackendIncoming),
    Cluster(WebrtcSession, T::EndpointEvent),
    Ext(WebrtcSession, ExtIn<T>),
    Close(WebrtcSession),
}

pub enum GroupOutput<T: Payloads> {
    Net(BackendOutgoing),
    /// A session asks something of a room.
    Cluster(WebrtcSession, T::RoomHash, T::EndpointControl),
    /// Something happened to the peer of a session, at that time.
    PeerEvent(u64, Instant, T::PeerEvent),
    Ext(WebrtcSession, ExtOut),
    Shutdown(WebrtcSession),
    Continue,
}

} // verus!
