//! Outlet addressing and the 2-byte wire codec.
//!
//! Each of the four sockets is addressed on the wire by a device
//! sub-address that is three times its logical index. A set-state
//! transfer carries a 2-byte payload: the sub-address, then an action
//! byte (1 = on, 0 = off). A status read fills a 2-byte buffer whose
//! second byte is zero exactly when the socket is offline.

use vstd::prelude::*;

verus! {

/// Desired switch position for a set-state transfer.
#[derive(Clone, Copy, Debug, PartialEq, Eq, Structural)]
pub enum SocketState {
    On,
    Off,
}

/// Decoded result of a status read.
#[derive(Clone, Copy, Debug, PartialEq, Eq, Structural)]
pub enum LineStatus {
    Online,
    Offline,
}

/// A logical socket index addresses one of the four outlets.
pub open spec fn valid_socket(id: u8) -> bool {
    1 <= id && id <= 4
}

/// Device sub-address of a socket: three times its logical index.
pub open spec fn spec_address(id: u8) -> int {
    3 * id
}

/// Maps a validated socket index to its device sub-address.
pub fn from_id_to_device(id: u8) -> (r: u8)
    requires
        valid_socket(id),
    ensures
        r == spec_address(id),
{
    3 * id
}

/// Action byte of a set-state payload: 1 switches on, 0 switches off.
pub open spec fn state_byte(state: SocketState) -> u8 {
    match state {
        SocketState::On => 1,
        SocketState::Off => 0,
    }
}

/// The 2-byte set-state payload for a socket and a desired state.
pub open spec fn encode_set_post(id: u8, state: SocketState, p: Seq<u8>) -> bool {
    &&& p.len() == 2
    &&& p[0] == spec_address(id)
    &&& p[1] == state_byte(state)
}

/// Builds the 2-byte payload of a set-state transfer: device
/// sub-address, then the action byte.
pub fn encode_set(id: u8, state: SocketState) -> (p: [u8; 2])
    requires
        valid_socket(id),
    ensures
        encode_set_post(id, state, p@),
{
    let action: u8 = match state {
        SocketState::On => 1,
        SocketState::Off => 0,
    };
    [from_id_to_device(id), action]
}

/// Status carried by the second byte of a response: zero means offline,
/// anything else means online.
pub open spec fn spec_decode(status_byte: u8) -> LineStatus {
    if status_byte == 0 {
        LineStatus::Offline
    } else {
        LineStatus::Online
    }
}

/// Decodes a 2-byte status response. The first byte carries no state;
/// the second is zero exactly when the socket is offline.
pub fn decode_status(response: &[u8; 2]) -> (r: LineStatus)
    ensures
        r == spec_decode(response@[1]),
        r == LineStatus::Offline <==> response@[1] == 0,
        r == LineStatus::Online <==> response@[1] != 0,
{
    if response[1] == 0 {
        LineStatus::Offline
    } else {
        LineStatus::Online
    }
}

/// Word used when reporting a decoded status to the operator.
pub fn state_label(status: LineStatus) -> (r: &'static str)
    ensures
        status == LineStatus::Online ==> r@ == "online"@,
        status == LineStatus::Offline ==> r@ == "offline"@,
{
    match status {
        LineStatus::Online => "online",
        LineStatus::Offline => "offline",
    }
}

/// The payload of a set-state transfer opens with the very sub-address
/// that addresses the socket, and closes with the action byte, for
/// every socket and either state.
pub proof fn lemma_encode_set_round_trip(id: u8, state: SocketState, p: Seq<u8>)
    requires
        valid_socket(id),
        encode_set_post(id, state, p),
    ensures
        p[0] == spec_address(id),
        state == SocketState::On ==> p[1] == 1,
        state == SocketState::Off ==> p[1] == 0,
{
}

/// Encoding is a pure function of socket and state: two payloads built
/// for the same request are equal, so issuing the same command twice
/// puts the same bytes on the wire both times.
pub proof fn lemma_encode_set_deterministic(id: u8, state: SocketState, p1: Seq<u8>, p2: Seq<u8>)
    requires
        valid_socket(id),
        encode_set_post(id, state, p1),
        encode_set_post(id, state, p2),
    ensures
        p1 == p2,
{
    assert(p1 =~= p2);
}

} // verus!
