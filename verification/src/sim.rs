//! An in-memory stand-in for the bus and the device behind it.
//!
//! [`SimBus`] answers the wire protocol the way the chip does: a one-byte
//! write selects a register, a three-byte write stores a word, and a
//! two-byte read answers the selected register, big-endian. It backs the
//! crate's tests and lets callers exercise the driver without hardware.

use vstd::prelude::*;

verus! {

use crate::bus::{word_lsb, word_msb, BusOp, I2cBus};

/// A simulated device on a simulated bus: a register file addressed by the
/// last select byte. When `fail` is set, every transaction reports a bus
/// error instead of touching the device.
pub struct SimBus {
    /// The register file, indexed by register address.
    pub registers: [u16; 256],
    /// The register address selected by the last one-byte write.
    pub selected: u8,
    /// When set, every transaction fails with a bus error.
    pub fail: bool,
    /// The transactions performed so far.
    pub history: Ghost<Seq<BusOp>>,
}

impl SimBus {
    /// Creates a device whose registers all read zero, with nothing
    /// selected and no transaction performed.
    pub fn new() -> (bus: SimBus)
        ensures
            bus.log() == Seq::<BusOp>::empty(),
            forall|i: int| 0 <= i < 256 ==> bus.registers@[i] == 0,
            bus.selected == 0,
            !bus.fail,
    {
        SimBus { registers: [0; 256], selected: 0, fail: false, history: Ghost(Seq::empty()) }
    }
}

impl I2cBus for SimBus {
    type BusError = ();

    closed spec fn log(&self) -> Seq<BusOp> {
        self.history@
    }

    /// A one-byte write moves the register pointer; a three-byte write
    /// stores the word, big-endian, at the register its first byte names;
    /// any other length is rejected as a bus error.
    fn write_bytes(&mut self, address: u8, bytes: &[u8]) -> (result: Result<(), ()>)
        ensures
            final(self).fail == old(self).fail,
            old(self).fail ==> result is Err && *final(self) == *old(self),
            !old(self).fail && bytes@.len() == 1 ==> result is Ok && final(self).selected
                == bytes@[0] && final(self).registers == old(self).registers,
            !old(self).fail && bytes@.len() == 3 ==> result is Ok && final(self).selected
                == old(self).selected && final(self).registers@ == old(self).registers@.update(
                bytes@[0] as int,
                ((bytes@[1] as u16) << 8) | (bytes@[2] as u16),
            ),
            !old(self).fail && bytes@.len() != 1 && bytes@.len() != 3 ==> result is Err
                && *final(self) == *old(self),
    {
        if self.fail {
            return Err(());
        }
        if bytes.len() == 1 {
            self.selected = bytes[0];
            self.history = Ghost(self.history@.push(BusOp::Write { address, bytes: bytes@ }));
            Ok(())
        } else if bytes.len() == 3 {
            let register = bytes[0];
            let word: u16 = ((bytes[1] as u16) << 8) | (bytes[2] as u16);
            self.registers[register as usize] = word;
            self.history = Ghost(self.history@.push(BusOp::Write { address, bytes: bytes@ }));
            Ok(())
        } else {
            Err(())
        }
    }

    /// A read answers the two bytes of the selected register, MSB first.
    fn read_two_bytes(&mut self, address: u8) -> (result: Result<[u8; 2], ()>)
        ensures
            final(self).fail == old(self).fail,
            final(self).selected == old(self).selected,
            final(self).registers == old(self).registers,
            old(self).fail ==> result is Err && *final(self) == *old(self),
            !old(self).fail ==> (result matches Ok(bytes) && bytes@ == seq![
                word_msb(old(self).registers@[old(self).selected as int]),
                word_lsb(old(self).registers@[old(self).selected as int]),
            ]),
    {
        if self.fail {
            return Err(());
        }
        let word = self.registers[self.selected as usize];
        let bytes: [u8; 2] = [(word >> 8) as u8, (word & 0xFF) as u8];
        proof {
            assert((word >> 8) as u8 == word_msb(word) && (word & 0xFF) as u8 == word_lsb(word))
                by (bit_vector);
            assert(bytes@ =~= seq![word_msb(word), word_lsb(word)]);
        }
        self.history = Ghost(self.history@.push(BusOp::Read { address, bytes: bytes@ }));
        Ok(bytes)
    }
}

} // verus!
