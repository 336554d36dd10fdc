//! Identifiers of services and characteristics, as numbers and as text.

use vstd::prelude::*;

verus! {

/// The identifier of the mask characteristic, as text.
pub const LED_CHAR_UUID: &'static str = "9e7312e0-2354-11eb-9f10-fbc30a63cf38";

/// The identifier of the mask characteristic, as a number.
pub const LED_CHARACTERISTIC: u128 = 0x9e7312e0_2354_11eb_9f10_fbc30a63cf38;

/// The identifier of the service that holds the mask characteristic.
pub const LED_SERVICE: u128 = 0x9e7312e0_2354_11eb_9f10_fbc30a62cf38;

/// The assigned number of the battery service.
pub const BATTERY_SERVICE: u16 = 0x180f;

/// The assigned number of the battery level characteristic.
pub const BATTERY_LEVEL: u16 = 0x2a19;

/// The identifier that an assigned number of 0 stands for.
pub const BASE_UUID: u128 = 0x00000000_0000_1000_8000_00805f9b34fb;

/// The identifier of a service or of a characteristic: an assigned 16-bit
/// number, or 128 bits of one's own.
#[derive(Debug, Clone, Copy, PartialEq, Eq, Structural)]
pub enum GattUuid {
    Short(u16),
    Long(u128),
}

/// The 128 bits that an identifier stands for: an assigned number takes the
/// place of bits 96 to 111 of the base identifier.
pub open spec fn full_uuid(id: GattUuid) -> u128 {
    match id {
        GattUuid::Short(n) => (BASE_UUID + n * 0x1_0000_0000_0000_0000_0000_0000) as u128,
        GattUuid::Long(v) => v,
    }
}

impl GattUuid {
    /// The 128 bits that the identifier stands for.
    pub fn full(&self) -> (r: u128)
        ensures
            r == full_uuid(*self),
    {
        match self {
            GattUuid::Short(n) => {
                let n: u128 = *n as u128;
                BASE_UUID + n * 0x1_0000_0000_0000_0000_0000_0000
            },
            GattUuid::Long(v) => *v,
        }
    }
}

/// Why a text is not taken for an identifier.
#[derive(Debug, Clone, Copy, PartialEq, Eq, Structural)]
pub enum UuidError {
    /// The text is in none of the forms in which a UUID is written.
    Malformed,
}

/// `uuid::Error`, which says why `uuid::Uuid::parse_str` rejected a text. The
/// library passes it on unread.
#[verifier::external_type_specification]
#[verifier::external_body]
pub struct ExUuidError(uuid::Error);

/// The 128-bit value that `uuid::Uuid::parse_str` reads from a text, most
/// significant byte first; `None` for a text that it rejects.
pub uninterp spec fn parsed_uuid(text: Seq<char>) -> Option<u128>;

/// Calls `uuid::Uuid::parse_str`, and `uuid::Uuid::as_u128` on the identifier
/// that it returns. The contract is not proved. It claims one thing: whether
/// a text is rejected, and the value read from one that is not, depend on the
/// text alone.
#[verifier::external_body]
fn parse_uuid(text: &str) -> (r: Result<u128, uuid::Error>)
    ensures
        match r {
            Ok(value) => parsed_uuid(text@) == Some(value),
            Err(_) => parsed_uuid(text@) is None,
        },
{
    match uuid::Uuid::parse_str(text) {
        Ok(id) => Ok(id.as_u128()),
        Err(e) => Err(e),
    }
}

/// What a parse yields for its caller.
pub open spec fn uuid_outcome(parsed: Option<u128>) -> Result<u128, UuidError> {
    match parsed {
        Some(value) => Ok(value),
        None => Err(UuidError::Malformed),
    }
}

/// Reads an identifier from its text, in any of the forms in which a UUID is
/// written.
pub fn uuid_from_text(text: &str) -> (r: Result<u128, UuidError>)
    ensures
        r == uuid_outcome(parsed_uuid(text@)),
{
    match parse_uuid(text) {
        Ok(value) => Ok(value),
        Err(_) => Err(UuidError::Malformed),
    }
}

/// The identifier of the mask characteristic.
pub fn led_characteristic_uuid() -> (r: Result<u128, UuidError>)
    ensures
        r == uuid_outcome(parsed_uuid(LED_CHAR_UUID@)),
{
    uuid_from_text(LED_CHAR_UUID)
}

} // verus!
