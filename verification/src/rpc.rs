//! The requests that reach the worker over RPC, and its answers.
//!
//! Three protocols share the worker: WHIP, WHEP and the native WebRTC one. A connection is
//! known by the index of its session.
use crate::net::IpAddr;
use crate::payload::Payloads;
use vstd::prelude::*;

verus! {

/// Why a request failed.
#[derive(Debug, PartialEq, Eq)]
pub struct RpcError {
    pub code: u32,
    pub message: String,
}

pub type RpcResult<R> = Result<R, RpcError>;

#[derive(Debug, PartialEq, Eq)]
pub struct RoomId(pub String);

#[derive(Debug, PartialEq, Eq)]
pub struct PeerId(pub String);

/// Which of the three protocols a session speaks.
#[derive(Debug, Clone, Copy, PartialEq, Eq, Structural)]
pub enum Variant {
    Whip,
    Whep,
    Webrtc,
}

/// What a request asks for, whatever its protocol.
#[derive(Debug, Clone, Copy, PartialEq, Eq, Structural)]
pub enum Method {
    Connect,
    RemoteIce,
    RestartIce,
    Delete,
}

#[derive(Debug, PartialEq, Eq)]
pub struct WhipConnectReq {
    pub session_id: u64,
    pub ip: IpAddr,
    pub room: RoomId,
    pub peer: PeerId,
    pub sdp: String,
}

#[derive(Debug, PartialEq, Eq)]
pub struct WhipRemoteIceReq {
    pub conn_id: usize,
    pub ice: String,
}

#[derive(Debug, PartialEq, Eq)]
pub struct WhipDeleteReq {
    pub conn_id: usize,
}

#[derive(Debug, PartialEq, Eq)]
pub enum WhipReq {
    Connect(WhipConnectReq),
    RemoteIce(WhipRemoteIceReq),
    Delete(WhipDeleteReq),
}

#[derive(Debug, PartialEq, Eq)]
pub struct WhepConnectReq {
    pub session_id: u64,
    pub ip: IpAddr,
    pub room: RoomId,
    pub sdp: String,
}

#[derive(Debug, PartialEq, Eq)]
pub struct WhepRemoteIceReq {
    pub conn_id: usize,
    pub ice: String,
}

#[derive(Debug, PartialEq, Eq)]
pub struct WhepDeleteReq {
    pub conn_id: usize,
}

#[derive(Debug, PartialEq, Eq)]
pub enum WhepReq {
    Connect(WhepConnectReq),
    RemoteIce(WhepRemoteIceReq),
    Delete(WhepDeleteReq),
}

/// A connect request of the WebRTC protocol: its session description, and what the worker
/// passes on unread.
pub struct ConnectRequest<T: Payloads> {
    pub sdp: String,
    pub body: T::ConnectBody,
}

#[derive(Debug, PartialEq, Eq)]
pub struct RemoteIceRequest {
    pub candidates: Vec<String>,
}

pub enum WebrtcReq<T: Payloads> {
    /// Session, address of the client, its user agent, and the request.
    Connect(u64, IpAddr, String, ConnectRequest<T>),
    RemoteIce(usize, RemoteIceRequest),
    /// Connection, address of the client, its user agent, and the request.
    RestartIce(usize, IpAddr, String, ConnectRequest<T>),
    Delete(usize),
}

pub enum RpcReq<T: Payloads> {
    Whip(WhipReq),
    Whep(WhepReq),
    Webrtc(WebrtcReq<T>),
}

impl<T: Payloads> RpcReq<T> {
    /// The protocol the request belongs to.
    pub open spec fn variant(self) -> Variant {
        match self {
            RpcReq::Whip(_) => Variant::Whip,
            RpcReq::Whep(_) => Variant::Whep,
            RpcReq::Webrtc(_) => Variant::Webrtc,
        }
    }

    /// What the request asks for.
    pub open spec fn method(self) -> Method {
        match self {
            RpcReq::Whip(WhipReq::Connect(_)) => Method::Connect,
            RpcReq::Whip(WhipReq::RemoteIce(_)) => Method::RemoteIce,
            RpcReq::Whip(WhipReq::Delete(_)) => Method::Delete,
            RpcReq::Whep(WhepReq::Connect(_)) => Method::Connect,
            RpcReq::Whep(WhepReq::RemoteIce(_)) => Method::RemoteIce,
            RpcReq::Whep(WhepReq::Delete(_)) => Method::Delete,
            RpcReq::Webrtc(WebrtcReq::Connect(_, _, _, _)) => Method::Connect,
            RpcReq::Webrtc(WebrtcReq::RemoteIce(_, _)) => Method::RemoteIce,
            RpcReq::Webrtc(WebrtcReq::RestartIce(_, _, _, _)) => Method::RestartIce,
            RpcReq::Webrtc(WebrtcReq::Delete(_)) => Method::Delete,
        }
    }

    /// Whether the worker serves such a request. Deleting a connection is not offered to the
    /// WebRTC protocol.
    pub open spec fn served(self) -> bool {
        !(self matches RpcReq::Webrtc(req) && req is Delete)
    }

    /// The connection that the request is about, where there is one.
    pub open spec fn conn(self) -> Option<usize> {
        match self {
            RpcReq::Whip(WhipReq::RemoteIce(req)) => Some(req.conn_id),
            RpcReq::Whip(WhipReq::Delete(req)) => Some(req.conn_id),
            RpcReq::Whep(WhepReq::RemoteIce(req)) => Some(req.conn_id),
            RpcReq::Whep(WhepReq::Delete(req)) => Some(req.conn_id),
            RpcReq::Webrtc(WebrtcReq::RemoteIce(conn, _)) => Some(conn),
            RpcReq::Webrtc(WebrtcReq::RestartIce(conn, _, _, _)) => Some(conn),
            RpcReq::Webrtc(WebrtcReq::Delete(conn)) => Some(conn),
            _ => None,
        }
    }
}

#[derive(Debug, PartialEq, Eq)]
pub struct WhipConnectRes {
    pub conn_id: usize,
    pub sdp: String,
}

#[derive(Debug, PartialEq, Eq)]
pub struct WhipRemoteIceRes {}

#[derive(Debug, PartialEq, Eq)]
pub struct WhipDeleteRes {}

#[derive(Debug, PartialEq, Eq)]
pub enum WhipRes {
    Connect(RpcResult<WhipConnectRes>),
    RemoteIce(RpcResult<WhipRemoteIceRes>),
    Delete(RpcResult<WhipDeleteRes>),
}

#[derive(Debug, PartialEq, Eq)]
pub struct WhepConnectRes {
    pub conn_id: usize,
    pub sdp: String,
}

#[derive(Debug, PartialEq, Eq)]
pub struct WhepRemoteIceRes {}

#[derive(Debug, PartialEq, Eq)]
pub struct WhepDeleteRes {}

#[derive(Debug, PartialEq, Eq)]
pub enum WhepRes {
    Connect(RpcResult<WhepConnectRes>),
    RemoteIce(RpcResult<WhepRemoteIceRes>),
    Delete(RpcResult<WhepDeleteRes>),
}

#[derive(Debug, PartialEq, Eq)]
pub struct ConnectResponse {
    /// Left empty here: whoever knows the public name of the connection fills it in.
    pub conn_id: String,
    pub sdp: String,
    pub ice_lite: bool,
}

impl ConnectResponse {
    /// The response with an empty connection name, the session description `sdp`, and `ice_lite`.
    pub open spec fn describes(self, sdp: String, ice_lite: bool) -> bool {
        &&& self.conn_id@ == Seq::<char>::empty()
        &&& self.sdp == sdp
        &&& self.ice_lite == ice_lite
    }

    pub fn unnamed(sdp: String, ice_lite: bool) -> (res: ConnectResponse)
        ensures
            res.describes(sdp, ice_lite),
    {
        ConnectResponse { conn_id: String::new(), sdp, ice_lite }
    }
}

#[derive(Debug, PartialEq, Eq)]
pub struct RemoteIceResponse {
    pub added: u32,
}

#[derive(Debug, PartialEq, Eq)]
pub enum WebrtcRes {
    Connect(RpcResult<(usize, ConnectResponse)>),
    RemoteIce(RpcResult<RemoteIceResponse>),
    RestartIce(RpcResult<(usize, ConnectResponse)>),
}

#[derive(Debug, PartialEq, Eq)]
pub enum RpcRes {
    Whip(WhipRes),
    Whep(WhepRes),
    Webrtc(WebrtcRes),
}

impl RpcRes {
    /// What the answered request asked for.
    pub open spec fn method(self) -> Method {
        match self {
            RpcRes::Whip(WhipRes::Connect(_)) => Method::Connect,
            RpcRes::Whip(WhipRes::RemoteIce(_)) => Method::RemoteIce,
            RpcRes::Whip(WhipRes::Delete(_)) => Method::Delete,
            RpcRes::Whep(WhepRes::Connect(_)) => Method::Connect,
            RpcRes::Whep(WhepRes::RemoteIce(_)) => Method::RemoteIce,
            RpcRes::Whep(WhepRes::Delete(_)) => Method::Delete,
            RpcRes::Webrtc(WebrtcRes::Connect(_)) => Method::Connect,
            RpcRes::Webrtc(WebrtcRes::RemoteIce(_)) => Method::RemoteIce,
            RpcRes::Webrtc(WebrtcRes::RestartIce(_)) => Method::RestartIce,
        }
    }

    /// Why the request was not met, where it was not.
    pub open spec fn error(self) -> Option<RpcError> {
        match self {
            RpcRes::Whip(WhipRes::Connect(Err(error))) => Some(error),
            RpcRes::Whip(WhipRes::RemoteIce(Err(error))) => Some(error),
            RpcRes::Whip(WhipRes::Delete(Err(error))) => Some(error),
            RpcRes::Whep(WhepRes::Connect(Err(error))) => Some(error),
            RpcRes::Whep(WhepRes::RemoteIce(Err(error))) => Some(error),
            RpcRes::Whep(WhepRes::Delete(Err(error))) => Some(error),
            RpcRes::Webrtc(WebrtcRes::Connect(Err(error))) => Some(error),
            RpcRes::Webrtc(WebrtcRes::RemoteIce(Err(error))) => Some(error),
            RpcRes::Webrtc(WebrtcRes::RestartIce(Err(error))) => Some(error),
            _ => None,
        }
    }

    /// The session description in the answer, where there is one.
    pub open spec fn sdp(self) -> Option<String> {
        match self {
            RpcRes::Whip(WhipRes::Connect(Ok(res))) => Some(res.sdp),
            RpcRes::Whep(WhepRes::Connect(Ok(res))) => Some(res.sdp),
            RpcRes::Webrtc(WebrtcRes::Connect(Ok((_, res)))) => Some(res.sdp),
            RpcRes::Webrtc(WebrtcRes::RestartIce(Ok((_, res)))) => Some(res.sdp),
            _ => None,
        }
    }

    /// The connection that the answer names, where it names one.
    pub open spec fn conn(self) -> Option<usize> {
        match self {
            RpcRes::Whip(WhipRes::Connect(Ok(res))) => Some(res.conn_id),
            RpcRes::Whep(WhepRes::Connect(Ok(res))) => Some(res.conn_id),
            RpcRes::Webrtc(WebrtcRes::Connect(Ok((conn, _)))) => Some(conn),
            RpcRes::Webrtc(WebrtcRes::RestartIce(Ok((conn, _)))) => Some(conn),
            _ => None,
        }
    }

    /// The protocol the answer belongs to.
    pub open spec fn variant(self) -> Variant {
        match self {
            RpcRes::Whip(_) => Variant::Whip,
            RpcRes::Whep(_) => Variant::Whep,
            RpcRes::Webrtc(_) => Variant::Webrtc,
        }
    }
}

} // verus!
