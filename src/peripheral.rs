use vstd::prelude::*;

verus! {

/// The characteristic may be broadcast.
pub const BROADCAST: u8 = 0x01;

/// The characteristic's value may be read.
pub const READ: u8 = 0x02;

/// The value may be written without a response.
pub const WRITE_WITHOUT_RESPONSE: u8 = 0x04;

/// The value may be written.
pub const WRITE: u8 = 0x08;

/// The value may be notified without acknowledgement.
pub const NOTIFY: u8 = 0x10;

/// The value may be indicated with acknowledgement.
pub const INDICATE: u8 = 0x20;

/// The value may be written with an authentication signature.
pub const AUTHENTICATED_SIGNED_WRITES: u8 = 0x40;

/// Further properties are held in the extended properties descriptor.
pub const EXTENDED_PROPERTIES: u8 = 0x80;

/// Every property bit that this library knows.
pub const ALL_BITS: u8 = BROADCAST | READ | WRITE_WITHOUT_RESPONSE | WRITE | NOTIFY | INDICATE
    | AUTHENTICATED_SIGNED_WRITES | EXTENDED_PROPERTIES;

/// Every byte is made of known property bits alone.
proof fn lemma_masked_is_known(x: u8)
    ensures
        x & ALL_BITS == x,
{
    let all: u8 = ALL_BITS;
    assert(0x01u8 | 0x02u8 | 0x04u8 | 0x08u8 | 0x10u8 | 0x20u8 | 0x40u8 | 0x80u8 == 0xffu8)
        by (bit_vector);
    assert(x & all == x) by (bit_vector)
        requires
            all == 0xffu8,
    ;
}

/// The set of properties of a characteristic, one bit per property.
#[derive(Clone, Copy, Debug, PartialEq, Eq, Hash, Structural)]
pub struct CharPropFlags {
    pub bits: u8,
}

impl CharPropFlags {
    pub open spec fn wf(&self) -> bool {
        self.bits & ALL_BITS == self.bits
    }

    /// The set of the known property bits of `b`; the other bits are dropped.
    pub fn from_bits_truncate(b: u8) -> (r: CharPropFlags)
        ensures
            r.bits == b & ALL_BITS,
            r.wf(),
    {
        let bits: u8 = b & ALL_BITS;
        proof {
            lemma_masked_is_known(bits);
        }
        CharPropFlags { bits }
    }

    /// The set with no property.
    pub fn empty() -> (r: CharPropFlags)
        ensures
            r.bits == 0,
            r.wf(),
    {
        proof {
            lemma_masked_is_known(0);
        }
        CharPropFlags { bits: 0 }
    }

    pub fn bits(&self) -> (r: u8)
        ensures
            r == self.bits,
    {
        self.bits
    }

    /// Whether every property of `other` is in this set.
    pub fn contains(&self, other: CharPropFlags) -> (r: bool)
        ensures
            r == (self.bits & other.bits == other.bits),
    {
        self.bits & other.bits == other.bits
    }

    /// The set of the properties that are in either set.
    pub fn union(&self, other: CharPropFlags) -> (r: CharPropFlags)
        requires
            self.wf(),
            other.wf(),
        ensures
            r.bits == self.bits | other.bits,
            r.wf(),
    {
        let bits: u8 = self.bits | other.bits;
        proof {
            lemma_masked_is_known(bits);
        }
        CharPropFlags { bits }
    }
}

/// The UUID of a characteristic: a 16-bit Bluetooth-assigned value, or a
/// full 128-bit value held as its sixteen bytes in wire order.
#[derive(Clone, Copy, Debug, PartialEq, Eq, Hash)]
pub enum CharacteristicUUID {
    B16(u16),
    B128([u8; 16]),
}

/// One characteristic found by discovery.
#[derive(Clone, Copy, Debug, PartialEq, Eq, Hash)]
pub struct Characteristic {
    pub start_handle: u16,
    pub value_handle: u16,
    pub end_handle: u16,
    pub uuid: CharacteristicUUID,
    pub properties: CharPropFlags,
}

} // verus!
