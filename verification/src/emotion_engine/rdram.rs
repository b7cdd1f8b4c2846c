use vstd::prelude::*;

use crate::bits::{bit_u32, bits_u32, Bits};
use crate::bytes::Bytes;

verus! {

/// The RDRAM controller registers that the boot ROM uses to size memory.
#[derive(Debug, PartialEq, Eq, Structural, Clone, Copy)]
pub struct Rdram {
    pub mch_ricm: u32,
    pub mch_drd: u32,
    pub sdevid: u32,
}

/// Whether `address` is an RDRAM controller register: MCH_RICM or MCH_DRD.
pub open spec fn is_rdram_register(address: u32) -> bool {
    address == 0x1000_F430 || address == 0x1000_F440
}

impl Rdram {
    pub fn new() -> (r: Rdram)
        ensures
            r == (Rdram { mch_ricm: 0, mch_drd: 0, sdevid: 0 }),
    {
        Rdram { mch_ricm: 0, mch_drd: 0, sdevid: 0 }
    }

    /// The controller after a write of `value` at `address`: a write to MCH_RICM with SA 0x21
    /// and SBC 1 while bit 7 of MCH_DRD is clear restarts device numbering; MCH_RICM keeps
    /// the low 31 bits.
    pub open spec fn written(self, address: u32, value: u32) -> Rdram {
        if address == 0x1000_F430 {
            Rdram {
                sdevid: if bits_u32(value, 16, 24) == 0x21 && bits_u32(value, 6, 10) == 1
                    && !bit_u32(self.mch_drd, 7) {
                    0
                } else {
                    self.sdevid
                },
                mch_ricm: bits_u32(value, 0, 31),
                ..self
            }
        } else {
            Rdram { mch_drd: value, ..self }
        }
    }

    /// The value that a read of `address` gives and the controller after it: MCH_DRD answers
    /// the command in MCH_RICM (with SOP 0): device identifiers count up to two devices.
    pub open spec fn read_result(self, address: u32) -> (u32, Rdram) {
        if address == 0x1000_F430 {
            (0, self)
        } else {
            let sop = bits_u32(self.mch_ricm, 6, 10);
            let sa = bits_u32(self.mch_ricm, 16, 24);
            if sop != 0 {
                (0, self)
            } else if sa == 0x21 {
                if self.sdevid < 2 {
                    (0x1F, Rdram { sdevid: (self.sdevid + 1) as u32, ..self })
                } else {
                    (0, self)
                }
            } else if sa == 0x23 {
                (0x0D0D, self)
            } else if sa == 0x24 {
                (0x0090, self)
            } else if sa == 0x40 {
                (bits_u32(self.mch_ricm, 0, 5), self)
            } else {
                (0, self)
            }
        }
    }

    pub fn write32(&mut self, address: u32, value: u32)
        requires
            is_rdram_register(address),
        ensures
            *final(self) == old(self).written(address, value),
    {
        if address == 0x1000_F430 {
            let sa = value.bits(16, 24);
            let sbc = value.bits(6, 10);
            if sa == 0x21 && sbc == 0x1 && !self.mch_drd.bit(7) {
                self.sdevid = 0;
            }
            self.mch_ricm = value.bits(0, 31);
        } else {
            self.mch_drd = value;
        }
    }

    /// Reads the register at `address`; reading device identifiers advances the count.
    pub fn read32(&mut self, address: u32) -> (r: u32)
        requires
            is_rdram_register(address),
        ensures
            (r, *final(self)) == old(self).read_result(address),
    {
        if address == 0x1000_F430 {
            return 0;
        }
        let sop = self.mch_ricm.bits(6, 10);
        if sop == 0 {
            let sa = self.mch_ricm.bits(16, 24);
            if sa == 0x21 {
                if self.sdevid < 2 {
                    self.sdevid += 1;
                    return 0x1F;
                }
            } else if sa == 0x23 {
                return 0x0D0D;
            } else if sa == 0x24 {
                return 0x0090;
            } else if sa == 0x40 {
                return self.mch_ricm.bits(0, 5);
            }
        }
        0
    }

    /// A word write of the register at `address`.
    pub fn write<T: Bytes>(&mut self, address: u32, value: T)
        requires
            T::byte_count() == 4,
            is_rdram_register(address),
        ensures
            *final(self) == old(self).written(address, u32::decode_bytes(value.encode_bytes())),
    {
        let word = u32::from_bytes(value.to_bytes().as_slice());
        self.write32(address, word);
    }

    /// A word read of the register at `address`.
    pub fn read<T: Bytes>(&mut self, address: u32) -> (r: T)
        requires
            T::byte_count() == 4,
            is_rdram_register(address),
        ensures
            r == T::decode_bytes(old(self).read_result(address).0.encode_bytes()),
            *final(self) == old(self).read_result(address).1,
    {
        let value = self.read32(address);
        T::from_bytes(value.to_bytes().as_slice())
    }
}

} // verus!
