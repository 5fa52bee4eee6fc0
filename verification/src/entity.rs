//! The plug-in's side of the entity accessors.
//!
//! Entities live in the host. The plug-in names one by its serial, sends the
//! serial as a four-byte key, and gets a snapshot of a property back, or
//! nothing where the host knows no such entity. A read that comes back empty
//! is never an error for the packet at hand: it yields the property's zero
//! value.

use vstd::prelude::*;
use crate::error::PluginError;

verus! {

/// The identifier of a live entity.
#[derive(Clone, Copy, Debug, PartialEq, Eq, Structural)]
pub struct Serial {
    pub value: u32,
}

/// Where an entity stands in the world.
#[derive(Clone, Copy, Debug, PartialEq, Eq, Structural)]
pub struct WorldPosition {
    pub x: u16,
    pub y: u16,
    pub z: i8,
}

/// The art an entity is drawn with.
#[derive(Clone, Copy, Debug, PartialEq, Eq, Structural)]
pub struct Graphic {
    pub value: u16,
}

/// The colour an entity is drawn in.
#[derive(Clone, Copy, Debug, PartialEq, Eq, Structural)]
pub struct Hue {
    pub value: u16,
}

/// The direction an entity faces.
#[derive(Clone, Copy, Debug, PartialEq, Eq, Structural)]
pub struct Facing {
    pub value: u8,
}

/// One component an entity carries: its identifier and its size in bytes.
#[derive(Clone, Copy, Debug, PartialEq, Eq, Structural)]
pub struct ComponentInfo {
    pub id: u64,
    pub size: u32,
}

/// A property write as it is handed to the host: the key of the entity and
/// the value to store.
#[derive(Clone, Debug, PartialEq, Eq)]
pub struct WriteRequest<T> {
    pub key: Vec<u8>,
    pub value: T,
}

/// The four bytes of `serial`, lowest first.
pub open spec fn spec_serial_key(serial: u32) -> Seq<u8> {
    seq![
        (serial & 0xff) as u8,
        ((serial >> 8) & 0xff) as u8,
        ((serial >> 16) & 0xff) as u8,
        ((serial >> 24) & 0xff) as u8,
    ]
}

/// The 32-bit value whose bytes, lowest first, are `b0` to `b3`.
pub open spec fn spec_u32_from_bytes(b0: u8, b1: u8, b2: u8, b3: u8) -> u32 {
    (b0 as u32) | ((b1 as u32) << 8) | ((b2 as u32) << 16) | ((b3 as u32) << 24)
}

/// The serial a reply to the player query stands for: the value of its four
/// bytes, lowest first, and 0 for a missing reply or one of another length.
pub open spec fn spec_player_serial(reply: Option<Seq<u8>>) -> u32 {
    match reply {
        Some(bytes) if bytes.len() == 4 => spec_u32_from_bytes(
            bytes[0],
            bytes[1],
            bytes[2],
            bytes[3],
        ),
        _ => 0,
    }
}

/// Four bytes, lowest first, weigh 1, 256, 65536 and 16777216.
pub proof fn lemma_u32_from_bytes_value(b0: u8, b1: u8, b2: u8, b3: u8)
    ensures
        spec_u32_from_bytes(b0, b1, b2, b3) == b0 + 256 * b1 + 65536 * b2 + 16777216 * b3,
{
    assert((b0 as u32) | ((b1 as u32) << 8) | ((b2 as u32) << 16) | ((b3 as u32) << 24) == b0 + 256
        * b1 + 65536 * b2 + 16777216 * b3) by (bit_vector);
}

/// Joins four bytes, lowest first, into one 32-bit value.
pub fn u32_from_bytes(b0: u8, b1: u8, b2: u8, b3: u8) -> (value: u32)
    ensures
        value == spec_u32_from_bytes(b0, b1, b2, b3),
        value == b0 + 256 * b1 + 65536 * b2 + 16777216 * b3,
{
    proof {
        lemma_u32_from_bytes_value(b0, b1, b2, b3);
    }
    (b0 as u32) | ((b1 as u32) << 8) | ((b2 as u32) << 16) | ((b3 as u32) << 24)
}

/// The key under which the host finds the entity `serial`.
pub fn serial_key(serial: u32) -> (key: Vec<u8>)
    ensures
        key@ == spec_serial_key(serial),
{
    assert(serial & 0xff < 256 && (serial >> 8) & 0xff < 256 && (serial >> 16) & 0xff < 256 && (
    serial >> 24) & 0xff < 256) by (bit_vector);
    let mut key: Vec<u8> = Vec::new();
    key.push((serial & 0xff) as u8);
    key.push(((serial >> 8) & 0xff) as u8);
    key.push(((serial >> 16) & 0xff) as u8);
    key.push(((serial >> 24) & 0xff) as u8);
    assert(key@ =~= spec_serial_key(serial));
    key
}

/// The player's serial, read from the host's reply to the player query.
///
/// The host answers with four bytes, lowest first. A missing reply, or one
/// that is not four bytes long, reads as serial 0.
pub fn get_player(reply: &Option<Vec<u8>>) -> (serial: u32)
    ensures
        serial == spec_player_serial(crate::framing::reply_bytes(*reply)),
{
    match reply {
        Some(bytes) => {
            if bytes.len() == 4 {
                u32_from_bytes(bytes[0], bytes[1], bytes[2], bytes[3])
            } else {
                0
            }
        },
        None => 0,
    }
}

/// The graphic of an entity as the host reports it, and `Graphic { value: 0 }`
/// where the host knows no such entity.
pub fn get_entity_graphic(reply: Option<Graphic>) -> (graphic: Graphic)
    ensures
        graphic == match reply {
            Some(found) => found,
            None => (Graphic { value: 0 }),
        },
{
    match reply {
        Some(found) => found,
        None => Graphic { value: 0 },
    }
}

/// The position of an entity as the host reports it, and the origin where the
/// host knows no such entity.
pub fn get_entity_position(reply: Option<WorldPosition>) -> (position: WorldPosition)
    ensures
        position == match reply {
            Some(found) => found,
            None => (WorldPosition { x: 0, y: 0, z: 0 }),
        },
{
    match reply {
        Some(found) => found,
        None => WorldPosition { x: 0, y: 0, z: 0 },
    }
}

/// The hue of an entity as the host reports it, and `Hue { value: 0 }` where
/// the host knows no such entity.
pub fn get_entity_hue(reply: Option<Hue>) -> (hue: Hue)
    ensures
        hue == match reply {
            Some(found) => found,
            None => (Hue { value: 0 }),
        },
{
    match reply {
        Some(found) => found,
        None => Hue { value: 0 },
    }
}

/// The facing of an entity as the host reports it, and `Facing { value: 0 }`
/// where the host knows no such entity.
pub fn get_entity_facing(reply: Option<Facing>) -> (facing: Facing)
    ensures
        facing == match reply {
            Some(found) => found,
            None => (Facing { value: 0 }),
        },
{
    match reply {
        Some(found) => found,
        None => Facing { value: 0 },
    }
}

/// The components of an entity as the host lists them, and the empty list
/// where the host knows no such entity.
pub fn ecs_get_components(reply: Option<Vec<ComponentInfo>>) -> (components: Vec<ComponentInfo>)
    ensures
        components@ == match reply {
            Some(found) => found@,
            None => Seq::<ComponentInfo>::empty(),
        },
{
    match reply {
        Some(found) => found,
        None => Vec::new(),
    }
}

/// The diagnostic that goes with a read: `AccessorMiss` where the host knew
/// no entity and the zero value stood in, nothing where it answered.
pub fn miss_of<T>(reply: &Option<T>) -> (diagnostic: Option<PluginError>)
    ensures
        diagnostic == match *reply {
            Some(_) => None::<PluginError>,
            None => Some(PluginError::AccessorMiss),
        },
{
    match reply {
        Some(_) => None,
        None => Some(PluginError::AccessorMiss),
    }
}

/// The write that stores `value` as a property of the entity `serial`.
pub fn set_entity<T>(serial: u32, value: T) -> (request: WriteRequest<T>)
    ensures
        request.key@ == spec_serial_key(serial),
        request.value == value,
{
    WriteRequest { key: serial_key(serial), value }
}

/// The write that gives the entity `serial` the graphic `val`.
pub fn set_entity_graphic(serial: u32, val: Graphic) -> (request: WriteRequest<Graphic>)
    ensures
        request.key@ == spec_serial_key(serial),
        request.value == val,
{
    set_entity(serial, val)
}

} // verus!
