//! One request for an ephemeral peer: the keys, the tunnel it runs in and the
//! features it asks for.

use vstd::prelude::*;
use crate::keys::{derive_public_key, public_key_of, KeyBytes};

verus! {

/// Host and port of the relay configuration service inside the tunnel. The
/// address is reserved for this protocol, so whatever inspects the tunnel can
/// tell negotiation traffic from user traffic.
pub const GRPC_HOST: &'static str = "10.64.0.1:1337";

/// The features an exchange asks for, and its time budget.
#[derive(Clone, Copy, Debug, PartialEq, Eq)]
pub struct EphemeralPeerParameters {
    /// Seconds after which the attempt is given up.
    pub peer_exchange_timeout: u64,
    /// Ask for a post-quantum hardened pre-shared key.
    pub enable_post_quantum: bool,
    /// Ask for the traffic obfuscation feature.
    pub enable_daita: bool,
}

/// The host's side of the tunnel: the object that receives the result and the
/// handle through which the transport bridge opens its connection. Both are
/// opaque tokens to this library.
#[derive(Clone, Copy, Debug, PartialEq, Eq)]
pub struct PacketTunnelBridge {
    pub packet_tunnel: usize,
    pub tunnel_handle: i32,
}

/// The one request that a session sends to the relay.
#[derive(Clone, Copy, Debug, PartialEq, Eq)]
pub struct NegotiationRequest {
    /// The long-term public key of this device.
    pub public_key: KeyBytes,
    /// The public half of the ephemeral key.
    pub ephemeral_public_key: KeyBytes,
    pub enable_post_quantum: bool,
    pub enable_daita: bool,
}

/// An exchange that has been asked for and not yet started. It owns the
/// ephemeral private key, which leaves it only as the public key derived
/// from it.
pub struct EphemeralPeerExchange {
    pub_key: KeyBytes,
    ephemeral_key: KeyBytes,
    packet_tunnel: PacketTunnelBridge,
    peer_parameters: EphemeralPeerParameters,
}

impl EphemeralPeerExchange {
    /// Describes an exchange for the device key `pub_key`, with
    /// `ephemeral_key` as the new private key.
    pub fn new(
        pub_key: KeyBytes,
        ephemeral_key: KeyBytes,
        packet_tunnel: PacketTunnelBridge,
        peer_parameters: EphemeralPeerParameters,
    ) -> (exchange: EphemeralPeerExchange)
        ensures
            exchange.pub_key() == pub_key,
            exchange.ephemeral_key() == ephemeral_key,
            exchange.packet_tunnel() == packet_tunnel,
            exchange.peer_parameters() == peer_parameters,
    {
        Self { pub_key, ephemeral_key, packet_tunnel, peer_parameters }
    }

    /// The long-term public key of this device.
    #[verifier::when_used_as_spec(spec_pub_key)]
    pub fn pub_key(&self) -> (key: KeyBytes)
        ensures
            key == self.pub_key(),
    {
        self.pub_key
    }

    /// The long-term public key of this device, in contracts.
    pub closed spec fn spec_pub_key(&self) -> KeyBytes {
        self.pub_key
    }

    /// The ephemeral private key that the caller supplied.
    pub closed spec fn ephemeral_key(&self) -> KeyBytes {
        self.ephemeral_key
    }

    /// Derives the public half of the ephemeral key.
    pub fn ephemeral_public_key(&self) -> (key: KeyBytes)
        ensures
            key@ == public_key_of(self.ephemeral_key()@),
    {
        derive_public_key(&self.ephemeral_key)
    }

    /// The tunnel that the exchange runs in.
    #[verifier::when_used_as_spec(spec_packet_tunnel)]
    pub fn packet_tunnel(&self) -> (bridge: PacketTunnelBridge)
        ensures
            bridge == self.packet_tunnel(),
    {
        self.packet_tunnel
    }

    /// The tunnel that the exchange runs in, in contracts.
    pub closed spec fn spec_packet_tunnel(&self) -> PacketTunnelBridge {
        self.packet_tunnel
    }

    /// The features asked for and the time budget.
    #[verifier::when_used_as_spec(spec_peer_parameters)]
    pub fn peer_parameters(&self) -> (parameters: EphemeralPeerParameters)
        ensures
            parameters == self.peer_parameters(),
    {
        self.peer_parameters
    }

    /// The features asked for and the time budget, in contracts.
    pub closed spec fn spec_peer_parameters(&self) -> EphemeralPeerParameters {
        self.peer_parameters
    }

    /// The request of this exchange, given the public half of its ephemeral
    /// key.
    pub open spec fn request_with(&self, ephemeral_public_key: KeyBytes) -> NegotiationRequest {
        NegotiationRequest {
            public_key: self.pub_key(),
            ephemeral_public_key,
            enable_post_quantum: self.peer_parameters().enable_post_quantum,
            enable_daita: self.peer_parameters().enable_daita,
        }
    }

    /// Builds the negotiation request: the device key, the public key derived
    /// from the ephemeral private key, and the two feature flags.
    pub fn request(&self) -> (request: NegotiationRequest)
        ensures
            request == self.request_with(request.ephemeral_public_key),
            request.ephemeral_public_key@ == public_key_of(self.ephemeral_key()@),
    {
        NegotiationRequest {
            public_key: self.pub_key,
            ephemeral_public_key: derive_public_key(&self.ephemeral_key),
            enable_post_quantum: self.peer_parameters.enable_post_quantum,
            enable_daita: self.peer_parameters.enable_daita,
        }
    }
}

} // verus!
