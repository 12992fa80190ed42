//! A single CAN frame: a 29-bit identifier with the IDE and RTR flags packed
//! into the top bits of one 32-bit field, a data-length code, and up to eight
//! payload bytes held as one 64-bit value.

use vstd::prelude::*;

verus! {

/// Bit 31 of the packed identifier: the IDE (extended-frame) flag.
pub const IDE_MASK: u32 = 0x8000_0000;

/// Bit 30 of the packed identifier: the RTR (remote-request) flag.
pub const RTR_MASK: u32 = 0x4000_0000;

/// Bits 0 to 28 of the packed identifier: the 29-bit extended identifier.
pub const EXT_MASK: u32 = 0x1FFF_FFFF;

/// The packed identifier field: the bare identifier with the IDE flag folded
/// into bit 31 and the RTR flag into bit 30 by bitwise OR. A bare identifier
/// that already occupies bits 29 to 31 silently corrupts the flags; keeping
/// it within the low 29 bits is the caller's contract.
pub open spec fn pack_id(id: u32, ide: bool, rtr: bool) -> u32 {
    id | (if ide {
        IDE_MASK
    } else {
        0u32
    }) | (if rtr {
        RTR_MASK
    } else {
        0u32
    })
}

/// The 29-bit identifier held in a packed identifier field, flags masked out.
pub open spec fn unpack_id(key: u32) -> u32 {
    key & EXT_MASK
}

/// Whether a packed identifier field has the IDE flag (bit 31) set.
pub open spec fn unpack_ide(key: u32) -> bool {
    key & IDE_MASK != 0
}

/// Whether a packed identifier field has the RTR flag (bit 30) set.
pub open spec fn unpack_rtr(key: u32) -> bool {
    key & RTR_MASK != 0
}

/// Byte `i` of a 64-bit payload, counting from the least significant byte.
/// Byte 0 is the first byte transmitted on the bus, whatever the host's
/// byte order.
pub open spec fn payload_byte(data: u64, i: int) -> u8 {
    ((data >> ((8 * i) as u64)) & 0xFF) as u8
}

/// One CAN frame. The identifier field is stored packed: bits 0 to 28 hold
/// the bare identifier, bit 31 the IDE flag, bit 30 the RTR flag. The
/// data-length code is stored verbatim and is not validated against the
/// payload. Constructed once, read-only thereafter.
#[derive(Clone, Debug)]
pub struct CanFrame {
    id: u32,
    dlc: u8,
    data: u64,
}

impl CanFrame {
    /// The packed identifier field, flags included.
    pub closed spec fn spec_key(self) -> u32 {
        self.id
    }

    /// The stored data-length code.
    pub closed spec fn spec_dlc(self) -> u8 {
        self.dlc
    }

    /// The stored 64-bit payload.
    pub closed spec fn spec_data(self) -> u64 {
        self.data
    }

    /// Builds a frame from the bare identifier, the two flags, the declared
    /// length code and the payload. Nothing is validated: an identifier over
    /// 29 bits or a length code over 8 is stored as given, and an identifier
    /// that already sets bits 29 to 31 corrupts the flags, as [`pack_id`]
    /// states.
    ///
    /// The least significant byte of `data` is the first byte of the data
    /// field in the CAN message: think of the payload as a byte array, with
    /// no addressable meaning to the bit order inside each byte.
    pub fn new(id: u32, ide: bool, rtr: bool, dlc: u8, data: u64) -> (frame: Self)
        ensures
            frame.spec_key() == pack_id(id, ide, rtr),
            frame.spec_dlc() == dlc,
            frame.spec_data() == data,
    {
        Self {
            id: id | (if ide {
                IDE_MASK
            } else {
                0u32
            }) | (if rtr {
                RTR_MASK
            } else {
                0u32
            }),
            dlc,
            data,
        }
    }

    /// The raw packed identifier field, flags included: a routing and
    /// grouping key, not a semantic identifier.
    pub fn key(&self) -> (key: u32)
        ensures
            key == self.spec_key(),
    {
        self.id
    }

    /// The 29-bit identifier, with the flag bits masked out.
    pub fn get_id(&self) -> (id: u32)
        ensures
            id == unpack_id(self.spec_key()),
    {
        self.id & EXT_MASK
    }

    /// Whether the IDE (extended-frame) flag is set.
    pub fn get_ide_flag(&self) -> (ide: bool)
        ensures
            ide == unpack_ide(self.spec_key()),
    {
        (self.id & IDE_MASK) != 0
    }

    /// Whether the RTR (remote-request) flag is set.
    pub fn get_rtr_flag(&self) -> (rtr: bool)
        ensures
            rtr == unpack_rtr(self.spec_key()),
    {
        (self.id & RTR_MASK) != 0
    }

    /// The declared data-length code, verbatim.
    pub fn get_dlc(&self) -> (dlc: u8)
        ensures
            dlc == self.spec_dlc(),
    {
        self.dlc
    }

    /// The raw 8-byte payload as one packed 64-bit value.
    pub fn get_data_u64(&self) -> (data: u64)
        ensures
            data == self.spec_data(),
    {
        self.data
    }

    /// The payload as eight bytes, byte 0 the least significant byte of the
    /// packed value. The bytes are extracted by explicit shifts, so the
    /// result is the same on every host, whatever its byte order.
    pub fn get_data_8u8(&self) -> (bytes: [u8; 8])
        ensures
            forall|i: int| 0 <= i < 8 ==> bytes[i] == payload_byte(self.spec_data(), i),
    {
        let d = self.data;
        proof {
            assert((d & 0xFF) < 256 && ((d >> 8) & 0xFF) < 256 && ((d >> 16) & 0xFF) < 256 && ((d
                >> 24) & 0xFF) < 256 && ((d >> 32) & 0xFF) < 256 && ((d >> 40) & 0xFF) < 256 && ((d
                >> 48) & 0xFF) < 256 && ((d >> 56) & 0xFF) < 256) by (bit_vector);
        }
        let bytes: [u8; 8] = [
            (d & 0xFF) as u8,
            ((d >> 8) & 0xFF) as u8,
            ((d >> 16) & 0xFF) as u8,
            ((d >> 24) & 0xFF) as u8,
            ((d >> 32) & 0xFF) as u8,
            ((d >> 40) & 0xFF) as u8,
            ((d >> 48) & 0xFF) as u8,
            ((d >> 56) & 0xFF) as u8,
        ];
        proof {
            assert((d & 0xFF) as u8 == payload_byte(d, 0) && ((d >> 8) & 0xFF) as u8
                == payload_byte(d, 1) && ((d >> 16) & 0xFF) as u8 == payload_byte(d, 2) && ((d
                >> 24) & 0xFF) as u8 == payload_byte(d, 3) && ((d >> 32) & 0xFF) as u8
                == payload_byte(d, 4) && ((d >> 40) & 0xFF) as u8 == payload_byte(d, 5) && ((d
                >> 48) & 0xFF) as u8 == payload_byte(d, 6) && ((d >> 56) & 0xFF) as u8
                == payload_byte(d, 7)) by (bit_vector);
        }
        bytes
    }
}

/// Packing a bare identifier that keeps within the low 29 bits together with
/// the two flags, then unpacking, recovers the identifier and both flags
/// exactly.
pub proof fn lemma_pack_unpack(id: u32, ide: bool, rtr: bool)
    by (bit_vector)
    requires
        id < 0x2000_0000,
    ensures
        unpack_id(pack_id(id, ide, rtr)) == id,
        unpack_ide(pack_id(id, ide, rtr)) == ide,
        unpack_rtr(pack_id(id, ide, rtr)) == rtr,
{
}

/// For a bare identifier within the low 29 bits, the packed key is the
/// bare identifier with the IDE flag shifted to bit 31 and the RTR flag to
/// bit 30, OR-ed together.
pub proof fn lemma_key_composition(id: u32, ide: bool, rtr: bool)
    by (bit_vector)
    requires
        id < 0x2000_0000,
    ensures
        pack_id(id, ide, rtr) == unpack_id(pack_id(id, ide, rtr)) | ((if ide {
            1u32
        } else {
            0u32
        }) << 31) | ((if rtr {
            1u32
        } else {
            0u32
        }) << 30),
{
}

/// Round trip: a frame built from a bare identifier within the low 29 bits,
/// the two flags, a length code and a payload gives every one of them back
/// unchanged through the unpacking accessors.
pub proof fn lemma_round_trip(frame: CanFrame, id: u32, ide: bool, rtr: bool, dlc: u8, data: u64)
    requires
        id < 0x2000_0000,
        frame.spec_key() == pack_id(id, ide, rtr),
        frame.spec_dlc() == dlc,
        frame.spec_data() == data,
    ensures
        unpack_id(frame.spec_key()) == id,
        unpack_ide(frame.spec_key()) == ide,
        unpack_rtr(frame.spec_key()) == rtr,
        frame.spec_dlc() == dlc,
        frame.spec_data() == data,
{
    lemma_pack_unpack(id, ide, rtr);
}

/// Byte 0 of the extracted payload is the least significant byte of the
/// packed 64-bit value, on every host.
pub proof fn lemma_payload_byte_low(data: u64)
    by (bit_vector)
    ensures
        payload_byte(data, 0) == (data & 0xFF) as u8,
{
}

} // verus!
