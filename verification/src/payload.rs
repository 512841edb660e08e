//! The values that pass through the worker unread.
use vstd::prelude::*;

verus! {

/// Names the types of everything the worker carries between its tasks without looking inside.
///
/// The worker never builds a value of these types. It moves them, and it clones an
/// [`EndpointEvent`](Payloads::EndpointEvent) once for each endpoint that is to receive it.
pub trait Payloads {
    /// What the media cluster tags its requests to the network with.
    type Room;

    /// By which key the media cluster finds a room.
    type RoomHash;

    /// What an endpoint asks of the media cluster.
    type EndpointControl;

    /// What the media cluster tells an endpoint.
    type EndpointEvent: Clone;

    /// What happened to a peer, as the connector service records it.
    type PeerEvent;

    /// A connect request of the WebRTC protocol, without its session description.
    type ConnectBody;

    /// The key material that guards the edge.
    type Secure;

    /// What network workers tell each other.
    type BusEvent;

    /// The description of a node that is no media node.
    type NodeInfo;

    /// A control of the gateway service that the worker does not send by itself.
    type GatewayControl;

    /// A control of the connector service that the worker does not send by itself.
    type ConnectorControl;

    /// An event of the visualization service.
    type VisualEvent;

    /// An event of the gateway service.
    type GatewayEvent;

    /// An event of the connector service.
    type ConnectorEvent;
}

} // verus!
