//! The two-wire bus port and the transaction model the driver is verified
//! against.
//!
//! The platform supplies the bus peripheral by implementing [`I2cBus`] for
//! it. The trait carries a ghost transaction log: each successful call
//! appends the byte string it moved, so the driver's contracts can state,
//! byte for byte, which transactions a register access performs. On a bus
//! error nothing is promised about the log, and the driver never attempts
//! the rest of a failed transaction.

use vstd::prelude::*;

verus! {

/// One transaction on the two-wire bus: the bytes written to a device
/// address, or the bytes a device answered to a read.
pub enum BusOp {
    /// A write of `bytes` to the device at `address`.
    Write { address: u8, bytes: Seq<u8> },
    /// A read from the device at `address` that returned `bytes`.
    Read { address: u8, bytes: Seq<u8> },
}

/// A blocking, byte-oriented two-wire bus peripheral.
///
/// A driver owns its bus exclusively: a register read is a select followed
/// by a data phase and is not atomic, so all access to one device must go
/// through one owner.
pub trait I2cBus: Sized {
    /// The error reported by a failed bus transaction, opaque to the driver
    /// and propagated to its caller verbatim.
    type BusError;

    /// The transactions performed on the bus so far, oldest first. An
    /// implementation outside the verified world may leave this default,
    /// which promises nothing about the log's value.
    open spec fn log(&self) -> Seq<BusOp> {
        arbitrary()
    }

    /// Writes the given bytes to the device at the given address.
    fn write_bytes(&mut self, address: u8, bytes: &[u8]) -> (result: Result<(), Self::BusError>)
        ensures
            result is Ok ==> final(self).log() == old(self).log().push(
                BusOp::Write { address, bytes: bytes@ },
            ),
    ;

    /// Reads exactly two bytes from the device at the given address.
    fn read_two_bytes(&mut self, address: u8) -> (result: Result<[u8; 2], Self::BusError>)
        ensures
            result matches Ok(bytes) ==> final(self).log() == old(self).log().push(
                BusOp::Read { address, bytes: bytes@ },
            ),
    ;
}

/// The high byte of a register word, sent first on the bus.
pub open spec fn word_msb(word: u16) -> u8 {
    (word >> 8) as u8
}

/// The low byte of a register word, sent second on the bus.
pub open spec fn word_lsb(word: u16) -> u8 {
    (word & 0xFF) as u8
}

/// The register select phase: a one-byte write of the register address.
pub open spec fn select_op(device: u8, register_address: u8) -> BusOp {
    BusOp::Write { address: device, bytes: seq![register_address] }
}

/// A whole register read: a select, then a two-byte big-endian read that
/// returned `word`.
pub open spec fn read_word_ops(device: u8, register_address: u8, word: u16) -> Seq<BusOp> {
    seq![
        select_op(device, register_address),
        BusOp::Read { address: device, bytes: seq![word_msb(word), word_lsb(word)] },
    ]
}

/// A whole register write: one three-byte write of the register address
/// followed by the word, big-endian.
pub open spec fn write_word_op(device: u8, register_address: u8, word: u16) -> BusOp {
    BusOp::Write {
        address: device,
        bytes: seq![register_address, word_msb(word), word_lsb(word)],
    }
}

} // verus!
