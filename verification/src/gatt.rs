//! The services and characteristics of the peripheral, as it offers them and
//! as a central finds them.

use crate::identifier::{
    full_uuid, GattUuid, BATTERY_LEVEL, BATTERY_SERVICE, LED_CHARACTERISTIC, LED_SERVICE,
};
use vstd::prelude::*;

verus! {

/// Property bit: the value can be read.
pub const PROP_READ: u8 = 0x02;

/// Property bit: the value can be written without a confirmation.
pub const PROP_WRITE_WITHOUT_RESPONSE: u8 = 0x04;

/// Property bit: the value can be written with a confirmation.
pub const PROP_WRITE: u8 = 0x08;

/// Property bit: the peripheral can notify a change of the value.
pub const PROP_NOTIFY: u8 = 0x10;

/// One characteristic of a connected device: its 128-bit identifier and its
/// property bits.
#[derive(Debug, Clone, Copy, PartialEq, Eq, Structural)]
pub struct CharacteristicInfo {
    pub uuid: u128,
    pub properties: u8,
}

/// Whether the property bits `properties` hold every bit of `flag`.
pub open spec fn has_property(properties: u8, flag: u8) -> bool {
    properties & flag == flag
}

/// Whether the property bits announce a write of either kind.
pub open spec fn announces_write(properties: u8) -> bool {
    has_property(properties, PROP_WRITE) || has_property(properties, PROP_WRITE_WITHOUT_RESPONSE)
}

/// Whether `i` is the position of the first characteristic with the
/// identifier `uuid`.
pub open spec fn is_first_with_uuid(found: Seq<CharacteristicInfo>, uuid: u128, i: int) -> bool {
    &&& 0 <= i < found.len()
    &&& found[i].uuid == uuid
    &&& forall|j: int| 0 <= j < i ==> found[j].uuid != uuid
}

/// The position of the first characteristic with the identifier `uuid`.
pub open spec fn first_with_uuid(found: Seq<CharacteristicInfo>, uuid: u128) -> Option<int> {
    if exists|i: int| 0 <= i < found.len() && found[i].uuid == uuid {
        Some(choose|i: int| is_first_with_uuid(found, uuid, i))
    } else {
        None
    }
}

impl CharacteristicInfo {
    /// Whether the characteristic announces a write of either kind.
    pub fn is_writable(&self) -> (r: bool)
        ensures
            r == announces_write(self.properties),
    {
        (self.properties & PROP_WRITE) == PROP_WRITE || (self.properties
            & PROP_WRITE_WITHOUT_RESPONSE) == PROP_WRITE_WITHOUT_RESPONSE
    }
}

/// Finds the first characteristic with the identifier `uuid`.
pub fn find_characteristic(found: &Vec<CharacteristicInfo>, uuid: u128) -> (r: Option<usize>)
    ensures
        match r {
            Some(i) => first_with_uuid(found@, uuid) == Some(i as int) && is_first_with_uuid(
                found@,
                uuid,
                i as int,
            ),
            None => first_with_uuid(found@, uuid) is None && forall|j: int|
                0 <= j < found.len() ==> found[j].uuid != uuid,
        },
{
    let mut i: usize = 0;
    while i < found.len()
        invariant
            i <= found.len(),
            forall|j: int| 0 <= j < i ==> found[j].uuid != uuid,
        decreases found.len() - i,
    {
        if found[i].uuid == uuid {
            proof {
                lemma_first_with_uuid(found@, uuid, i as int);
            }
            return Some(i);
        }
        i = i + 1;
    }
    None
}

/// A characteristic of the peripheral's table: its identifier and what a
/// central may do with it.
#[derive(Debug, Clone, Copy, PartialEq, Eq, Structural)]
pub struct CharacteristicDescriptor {
    pub uuid: GattUuid,
    pub read: bool,
    pub write: bool,
    pub notify: bool,
}

/// A service of the peripheral's table, with its one characteristic.
#[derive(Debug, Clone, Copy, PartialEq, Eq, Structural)]
pub struct ServiceDescriptor {
    pub uuid: GattUuid,
    pub characteristic: CharacteristicDescriptor,
}

/// The property bits of a characteristic of the table.
pub open spec fn property_bits(c: CharacteristicDescriptor) -> u8 {
    let read = if c.read { PROP_READ } else { 0u8 };
    let write = if c.write { PROP_WRITE } else { 0u8 };
    let notify = if c.notify { PROP_NOTIFY } else { 0u8 };
    read | write | notify
}

/// A characteristic of the table as a central finds it.
pub open spec fn as_found(c: CharacteristicDescriptor) -> CharacteristicInfo {
    CharacteristicInfo { uuid: full_uuid(c.uuid), properties: property_bits(c) }
}

/// The battery service: one byte, the level, to read and to be notified of.
pub open spec fn battery_service_table() -> ServiceDescriptor {
    ServiceDescriptor {
        uuid: GattUuid::Short(BATTERY_SERVICE),
        characteristic: CharacteristicDescriptor {
            uuid: GattUuid::Short(BATTERY_LEVEL),
            read: true,
            write: false,
            notify: true,
        },
    }
}

/// The LED service: one byte, the mask, to read, to write and to be notified
/// of.
pub open spec fn led_service_table() -> ServiceDescriptor {
    ServiceDescriptor {
        uuid: GattUuid::Long(LED_SERVICE),
        characteristic: CharacteristicDescriptor {
            uuid: GattUuid::Long(LED_CHARACTERISTIC),
            read: true,
            write: true,
            notify: true,
        },
    }
}

impl CharacteristicDescriptor {
    /// The property bits of the characteristic.
    pub fn properties(&self) -> (bits: u8)
        ensures
            bits == property_bits(*self),
            has_property(bits, PROP_READ) == self.read,
            has_property(bits, PROP_WRITE) == self.write,
            has_property(bits, PROP_NOTIFY) == self.notify,
            !has_property(bits, PROP_WRITE_WITHOUT_RESPONSE),
    {
        let r: u8 = if self.read { PROP_READ } else { 0 };
        let w: u8 = if self.write { PROP_WRITE } else { 0 };
        let n: u8 = if self.notify { PROP_NOTIFY } else { 0 };
        proof {
            lemma_property_bits(*self);
        }
        r | w | n
    }

    /// The characteristic as a central finds it.
    pub fn discovered(&self) -> (found: CharacteristicInfo)
        ensures
            found == as_found(*self),
    {
        CharacteristicInfo { uuid: self.uuid.full(), properties: self.properties() }
    }
}

/// The battery service of the peripheral's table.
pub fn battery_service() -> (service: ServiceDescriptor)
    ensures
        service == battery_service_table(),
{
    ServiceDescriptor {
        uuid: GattUuid::Short(BATTERY_SERVICE),
        characteristic: CharacteristicDescriptor {
            uuid: GattUuid::Short(BATTERY_LEVEL),
            read: true,
            write: false,
            notify: true,
        },
    }
}

/// The LED service of the peripheral's table.
pub fn led_service() -> (service: ServiceDescriptor)
    ensures
        service == led_service_table(),
{
    ServiceDescriptor {
        uuid: GattUuid::Long(LED_SERVICE),
        characteristic: CharacteristicDescriptor {
            uuid: GattUuid::Long(LED_CHARACTERISTIC),
            read: true,
            write: true,
            notify: true,
        },
    }
}

/// The characteristics that a central finds on the peripheral: the battery
/// level, then the mask.
pub fn discoverable() -> (found: Vec<CharacteristicInfo>)
    ensures
        found@ == seq![
            as_found(battery_service_table().characteristic),
            as_found(led_service_table().characteristic),
        ],
{
    let mut found: Vec<CharacteristicInfo> = Vec::new();
    found.push(battery_service().characteristic.discovered());
    found.push(led_service().characteristic.discovered());
    found
}

/// The first position with an identifier is the only one that nothing with
/// that identifier precedes.
pub proof fn lemma_first_with_uuid(found: Seq<CharacteristicInfo>, uuid: u128, i: int)
    requires
        is_first_with_uuid(found, uuid, i),
    ensures
        first_with_uuid(found, uuid) == Some(i),
{
    let j = choose|j: int| is_first_with_uuid(found, uuid, j);
    assert(is_first_with_uuid(found, uuid, j));
    if j < i {
        assert(found[j].uuid != uuid);
    } else if i < j {
        assert(found[i].uuid != uuid);
    }
}

/// What [`first_with_uuid`] finds is the first characteristic with the
/// identifier, and it finds none only where there is none.
pub proof fn lemma_first_with_uuid_found(found: Seq<CharacteristicInfo>, uuid: u128)
    ensures
        match first_with_uuid(found, uuid) {
            Some(i) => is_first_with_uuid(found, uuid, i),
            None => forall|j: int| 0 <= j < found.len() ==> found[j].uuid != uuid,
        },
{
    if exists|i: int| 0 <= i < found.len() && found[i].uuid == uuid {
        let i = choose|i: int| 0 <= i < found.len() && found[i].uuid == uuid;
        let first = lemma_first_before(found, uuid, i);
        lemma_first_with_uuid(found, uuid, first);
    }
}

/// The property bits of a characteristic of the table hold the bit of each
/// thing that a central may do with it, and no other.
pub proof fn lemma_property_bits(c: CharacteristicDescriptor)
    ensures
        has_property(property_bits(c), PROP_READ) == c.read,
        has_property(property_bits(c), PROP_WRITE) == c.write,
        has_property(property_bits(c), PROP_NOTIFY) == c.notify,
        !has_property(property_bits(c), PROP_WRITE_WITHOUT_RESPONSE),
        announces_write(property_bits(c)) == c.write,
{
    let r: u8 = if c.read { 0x02u8 } else { 0u8 };
    let w: u8 = if c.write { 0x08u8 } else { 0u8 };
    let n: u8 = if c.notify { 0x10u8 } else { 0u8 };
    assert((r == 0 || r == 0x02) && (w == 0 || w == 0x08) && (n == 0 || n == 0x10) ==> {
        let bits = r | w | n;
        &&& (bits & 0x02u8 == 0x02u8) == (r == 0x02)
        &&& (bits & 0x08u8 == 0x08u8) == (w == 0x08)
        &&& (bits & 0x10u8 == 0x10u8) == (n == 0x10)
        &&& bits & 0x04u8 != 0x04u8
    }) by (bit_vector);
}

/// A central that looks for the mask characteristic among what the
/// peripheral offers finds it, in second place, and finds that it can be
/// written.
pub proof fn lemma_peripheral_offers_mask()
    ensures
        ({
            let found = seq![
                as_found(battery_service_table().characteristic),
                as_found(led_service_table().characteristic),
            ];
            &&& first_with_uuid(found, LED_CHARACTERISTIC) == Some(1int)
            &&& announces_write(found[1].properties)
        }),
{
    let found = seq![
        as_found(battery_service_table().characteristic),
        as_found(led_service_table().characteristic),
    ];
    lemma_property_bits(led_service_table().characteristic);
    assert(found[0].uuid == 0x0000_2a19_0000_1000_8000_0080_5f9b_34fbu128);
    assert(is_first_with_uuid(found, LED_CHARACTERISTIC, 1));
    lemma_first_with_uuid(found, LED_CHARACTERISTIC, 1);
}

/// Before a characteristic with an identifier there is a first one with it.
proof fn lemma_first_before(found: Seq<CharacteristicInfo>, uuid: u128, i: int) -> (first: int)
    requires
        0 <= i < found.len(),
        found[i].uuid == uuid,
    ensures
        is_first_with_uuid(found, uuid, first),
    decreases i,
{
    if exists|j: int| 0 <= j < i && found[j].uuid == uuid {
        let j = choose|j: int| 0 <= j < i && found[j].uuid == uuid;
        lemma_first_before(found, uuid, j)
    } else {
        i
    }
}

} // verus!
