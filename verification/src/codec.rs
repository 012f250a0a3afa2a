//! Wire framing: one type byte followed by the message body.
//!
//! A frame is a non-empty byte sequence whose first byte names the message
//! type; the rest is the encoded body.  The one-byte frame `[0xFF]` is the
//! internal transport-closed marker that read actors hand to the loop.

use vstd::prelude::*;

verus! {

// Message type ids.
pub const HELLO: u8 = 0x01;
pub const WELCOME: u8 = 0x02;
pub const INPUT_MSG: u8 = 0x03;
pub const WORLD_STATE: u8 = 0x04;
pub const PLAYER_JOINED: u8 = 0x05;
pub const PLAYER_LEFT: u8 = 0x06;
pub const PING: u8 = 0x07;
pub const PONG: u8 = 0x08;
pub const START_MINING: u8 = 0x09;
pub const MINING_UPDATE: u8 = 0x0A;
pub const NODE_DEPLETED: u8 = 0x0B;
pub const STOP_MINING: u8 = 0x0C;
pub const ZONE_INFO: u8 = 0x0D;
pub const ZONE_TRANSFER: u8 = 0x0E;

pub const CRAFT_START: u8 = 0x10;
pub const CRAFT_STATUS: u8 = 0x11;
pub const CRAFT_COMPLETE: u8 = 0x12;
pub const CRAFT_FAILED: u8 = 0x13;

pub const MARKET_PLACE_ORDER: u8 = 0x14;
pub const MARKET_CANCEL_ORDER: u8 = 0x15;
pub const MARKET_ORDER_UPDATE: u8 = 0x16;
pub const MARKET_TRADE_EXECUTED: u8 = 0x17;
pub const MARKET_ORDER_BOOK: u8 = 0x18;
pub const MARKET_REQUEST_BOOK: u8 = 0x19;

pub const FIRE_WEAPON: u8 = 0x20;
pub const HIT_CONFIRM: u8 = 0x21;
pub const PLAYER_DAMAGED: u8 = 0x22;
pub const PLAYER_DEATH: u8 = 0x23;
pub const RESPAWN: u8 = 0x24;
pub const RESPAWN_REQUEST: u8 = 0x25;
pub const COMBAT_STATE: u8 = 0x26;

pub const EQUIP_ITEM: u8 = 0x30;
pub const UNEQUIP_ITEM: u8 = 0x31;
pub const EQUIPMENT_UPDATE: u8 = 0x32;
pub const SHIP_STATS_UPDATE: u8 = 0x33;
pub const LEVEL_UP: u8 = 0x34;

pub const NPC_SPAWN: u8 = 0x38;
pub const NPC_DEATH: u8 = 0x39;

pub const QUEST_LIST: u8 = 0x40;
pub const QUEST_ACCEPT: u8 = 0x41;
pub const QUEST_PROGRESS: u8 = 0x42;
pub const QUEST_COMPLETE: u8 = 0x43;
pub const QUEST_ABANDON: u8 = 0x44;
pub const QUEST_AVAILABLE: u8 = 0x45;

pub const AUTH_LOGIN: u8 = 0x50;
pub const AUTH_REGISTER: u8 = 0x51;
pub const AUTH_SUCCESS: u8 = 0x52;
pub const AUTH_FAILED: u8 = 0x53;

pub const DOCK_REQUEST: u8 = 0x60;
pub const DOCK_CONFIRM: u8 = 0x61;
pub const UNDOCK_REQUEST: u8 = 0x62;
pub const UNDOCK_CONFIRM: u8 = 0x63;
pub const DOCK_FAILED: u8 = 0x64;

/// The one-byte transport-closed marker.
pub const DISCONNECT_SENTINEL: u8 = 0xFF;

/// Framing failure: the frame is too short to carry a type byte and a body.
#[derive(Debug)]
pub enum CodecError {
    TooShort(usize),
}

/// A frame as a sequence: the type byte followed by the body bytes.
pub open spec fn spec_encode(type_id: u8, body: Seq<u8>) -> Seq<u8> {
    seq![type_id] + body
}

/// Splitting a frame back into its type byte and body; frames of fewer than
/// two bytes are refused.
pub open spec fn spec_decode(data: Seq<u8>) -> Option<(u8, Seq<u8>)> {
    if data.len() < 2 {
        None
    } else {
        Some((data[0], data.subrange(1, data.len() as int)))
    }
}

/// Build a frame: the type byte, then the body.
pub fn encode_message(type_id: u8, body: &Vec<u8>) -> (r: Vec<u8>)
    ensures
        r@ == spec_encode(type_id, body@),
        r@.len() == 1 + body@.len(),
{
    let mut frame: Vec<u8> = Vec::new();
    frame.push(type_id);
    let n = body.len();
    for i in 0..n
        invariant
            n == body@.len(),
            frame@ == seq![type_id] + body@.subrange(0, i as int),
    {
        frame.push(body[i]);
        proof {
            assert(seq![type_id] + body@.subrange(0, i as int) + seq![body@[i as int]] =~= seq![
                type_id,
            ] + body@.subrange(0, i + 1));
        }
    }
    proof {
        assert(body@.subrange(0, n as int) =~= body@);
    }
    frame
}

/// Split a frame into its type byte and body bytes.
pub fn decode_message(data: &Vec<u8>) -> (r: Result<(u8, Vec<u8>), CodecError>)
    ensures
        match r {
            Ok((type_id, body)) => {
                &&& spec_decode(data@) == Some((type_id, body@))
                &&& data@.len() >= 2
            },
            Err(CodecError::TooShort(n)) => data@.len() < 2 && n == data@.len(),
        },
{
    if data.len() < 2 {
        return Err(CodecError::TooShort(data.len()));
    }
    let type_id = data[0];
    let mut body: Vec<u8> = Vec::new();
    let n = data.len();
    for i in 1..n
        invariant
            n == data@.len(),
            n >= 2,
            body@ == data@.subrange(1, i as int),
    {
        body.push(data[i]);
        proof {
            assert(data@.subrange(1, i as int).push(data@[i as int]) =~= data@.subrange(1, i + 1));
        }
    }
    Ok((type_id, body))
}

/// Whether the frame is the transport-closed marker.
pub fn is_disconnect_sentinel(data: &Vec<u8>) -> (r: bool)
    ensures
        r == (data@.len() == 1 && data@[0] == DISCONNECT_SENTINEL),
{
    data.len() == 1 && data[0] == DISCONNECT_SENTINEL
}

/// Framing round trip: decoding an encoded frame yields the type byte and
/// body that were encoded, for every non-empty body.
pub proof fn lemma_encode_decode(type_id: u8, body: Seq<u8>)
    requires
        body.len() >= 1,
    ensures
        spec_decode(spec_encode(type_id, body)) == Some((type_id, body)),
{
    let frame = spec_encode(type_id, body);
    assert(frame.subrange(1, frame.len() as int) =~= body);
}

} // verus!
