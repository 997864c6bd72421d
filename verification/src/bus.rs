//! The bus transport that the driver is generic over, together with the
//! idealized device model its contracts are stated against.
//!
//! The model is a register file per seven-bit device address, plus the
//! non-volatile configuration memory reachable through the EEPROM command
//! registers, plus the password gate that silently drops writes to the
//! write-protected registers while the device is locked.  Contracts
//! describe what each transaction does to that state, assuming a
//! quiescent device: real hardware also updates flags and counters
//! autonomously between transactions, a documented hardware-interaction
//! race that the driver accepts rather than masks.

use crate::regs::{
    EE_CMD_FIRST, EE_CMD_READ_ONE, EE_CMD_UPDATE_ALL, REG_EEPROM_BACKUP_CONFIG,
    REG_EEPROM_EE_ADDRESS, REG_EEPROM_EE_CMD, REG_EEPROM_EE_DATA, REG_EEPROM_PASSWORD_0,
    REG_EEPROM_PASSWORD_1, REG_EEPROM_PASSWORD_2, REG_EEPROM_PASSWORD_3,
    REG_EEPROM_PASSWORD_ENABLE, REG_USER_PASSWORD_0, REG_USER_PASSWORD_1, REG_USER_PASSWORD_2,
    REG_USER_PASSWORD_3, REG_USER_RAM_0, REG_USER_RAM_1,
};
use vstd::prelude::*;

verus! {

/// Mathematical state of the whole bus: for each seven-bit device address
/// and each register address, the byte the register holds; and for each
/// device and non-volatile memory address, the byte stored there.
pub struct BusModel {
    pub regs: Map<(u8, u8), u8>,
    pub nvm: Map<(u8, u8), u8>,
}

impl BusModel {
    /// Byte held by register `r` of the device at bus address `dev`.
    pub open spec fn reg(self, dev: u8, r: u8) -> u8 {
        self.regs[(dev, r)]
    }

    /// Non-volatile byte at address `a` of the device at `dev`.
    pub open spec fn nv(self, dev: u8, a: u8) -> u8 {
        self.nvm[(dev, a)]
    }
}

/// The registers the device write-protects when the password gate is
/// locked: the user RAM pair and the password-enable register itself.
/// The clock, calendar and alarm registers are not protected.
pub open spec fn wp_protected(r: u8) -> bool {
    r == REG_USER_RAM_0 || r == REG_USER_RAM_1 || r == REG_EEPROM_PASSWORD_ENABLE
}

/// The device at `dev` is locked: write protection is enabled (the
/// password-enable register holds 255) and the entered volatile user
/// password does not match the non-volatile reference password.
pub open spec fn wp_locked(m: BusModel, dev: u8) -> bool {
    &&& m.reg(dev, REG_EEPROM_PASSWORD_ENABLE) == 255
    &&& !(m.reg(dev, REG_USER_PASSWORD_0) == m.nv(dev, REG_EEPROM_PASSWORD_0) && m.reg(
        dev,
        REG_USER_PASSWORD_1,
    ) == m.nv(dev, REG_EEPROM_PASSWORD_1) && m.reg(dev, REG_USER_PASSWORD_2) == m.nv(
        dev,
        REG_EEPROM_PASSWORD_2,
    ) && m.reg(dev, REG_USER_PASSWORD_3) == m.nv(dev, REG_EEPROM_PASSWORD_3))
}

/// A write of `frame` covers register `r`: the first frame byte selects
/// the start register, the rest land in consecutive registers.
pub open spec fn frame_covers(frame: Seq<u8>, r: u8) -> bool {
    frame.len() >= 2 && frame[0] <= r && r - frame[0] < frame.len() - 1
}

/// A write of `frame` to device `dev` from state `pre` stores its byte
/// into register `r`: the frame covers `r` and, while the device is
/// locked, `r` is not one of the write-protected registers — a locked
/// write to those is the device's silent no-op.
pub open spec fn frame_stores(pre: BusModel, dev: u8, frame: Seq<u8>, r: u8) -> bool {
    frame_covers(frame, r) && !(wp_locked(pre, dev) && wp_protected(r))
}

/// The byte that a write of `frame` stores into register `r`.
pub open spec fn frame_byte(frame: Seq<u8>, r: u8) -> u8
    recommends
        frame_covers(frame, r),
{
    frame[r - frame[0] + 1]
}

/// The EEPROM command carried by `frame`, if it writes the command
/// register.
pub open spec fn frame_ee_cmd(frame: Seq<u8>) -> Option<u8> {
    if frame_covers(frame, REG_EEPROM_EE_CMD) {
        Some(frame_byte(frame, REG_EEPROM_EE_CMD))
    } else {
        None
    }
}

/// No register of any device, and no non-volatile byte, differs between
/// the two bus states.
pub open spec fn bus_unchanged(pre: BusModel, post: BusModel) -> bool {
    &&& forall|d: u8, r: u8| #[trigger] post.reg(d, r) == pre.reg(d, r)
    &&& forall|d: u8, a: u8| #[trigger] post.nv(d, a) == pre.nv(d, a)
}

/// Effect of one successful write transaction of `frame` to device `dev`.
///
/// A one-byte frame only selects a mux channel or a register pointer and
/// leaves the modelled state untouched.  A longer frame stores its data
/// bytes into consecutive registers starting at the selected one —
/// except that while the device is locked a byte aimed at a
/// write-protected register is silently dropped — and leaves everything
/// else unchanged, but for the device-internal effects of an EEPROM
/// command: a read command loads the addressed non-volatile byte into
/// the data register, and an update-all command copies the RAM-mirror
/// configuration registers into the non-volatile memory.
pub open spec fn write_applied(pre: BusModel, post: BusModel, dev: u8, frame: Seq<u8>) -> bool {
    if frame.len() < 2 {
        bus_unchanged(pre, post)
    } else {
        let cmd = frame_ee_cmd(frame);
        &&& forall|r: u8|
            frame_stores(pre, dev, frame, r) && !(r == REG_EEPROM_EE_DATA && cmd == Some(
                EE_CMD_READ_ONE,
            )) ==> #[trigger] post.reg(dev, r) == frame_byte(frame, r)
        &&& forall|d: u8, r: u8|
            (d != dev || (!frame_stores(pre, dev, frame, r) && !(r == REG_EEPROM_EE_DATA && cmd
                == Some(EE_CMD_READ_ONE)))) ==> #[trigger] post.reg(d, r) == pre.reg(d, r)
        &&& (cmd == Some(EE_CMD_READ_ONE) ==> post.reg(dev, REG_EEPROM_EE_DATA) == post.nv(
            dev,
            post.reg(dev, REG_EEPROM_EE_ADDRESS),
        ))
        &&& (if cmd == Some(EE_CMD_UPDATE_ALL) {
            forall|d: u8, a: u8| #[trigger]
                post.nv(d, a) == (if d == dev && REG_EEPROM_PASSWORD_ENABLE <= a
                    <= REG_EEPROM_BACKUP_CONFIG {
                    post.reg(dev, a)
                } else {
                    pre.nv(d, a)
                })
        } else {
            forall|d: u8, a: u8| #[trigger] post.nv(d, a) == pre.nv(d, a)
        })
    }
}

/// Synchronous blocking transport to the devices on one two-wire bus.
///
/// The driver consumes this capability set: byte writes and
/// write-then-read transactions addressed by a seven-bit device address.
/// Implementors are bus adapters or test doubles; when several driver
/// handles share one physical bus the callers must serialize access
/// themselves, since a channel-select write followed by a transaction is
/// not atomic against interleaving from another handle.
pub trait I2cBus: Sized {
    /// Opaque transport error; the driver propagates it verbatim on the
    /// first failing transaction.
    type Error;

    /// The modelled state of the bus this transport reaches.
    spec fn model(&self) -> BusModel;

    /// One write transaction: the first frame byte selects the start
    /// register, the following bytes land in consecutive registers.
    ///
    /// The model gives EEPROM commands their device-internal meaning, so
    /// only the commands the model describes may be issued.  After a
    /// failed transaction nothing is known about the modelled state.
    fn bus_write(&mut self, dev: u8, frame: &[u8]) -> (res: Result<(), Self::Error>)
        requires
            1 <= frame@.len() <= 256,
            frame@.len() >= 2 ==> frame@[0] + frame@.len() - 1 <= 256,
            (frame_ee_cmd(frame@) matches Some(c) ==> (c == EE_CMD_FIRST || c == EE_CMD_UPDATE_ALL
                || c == EE_CMD_READ_ONE)),
        ensures
            res is Ok ==> write_applied(old(self).model(), final(self).model(), dev, frame@),
    ;

    /// One write-then-read transaction: select register `start` of device
    /// `dev`, then read `n` consecutive register bytes.  Reading never
    /// changes the modelled state.
    fn bus_write_read(&mut self, dev: u8, start: u8, n: usize) -> (res: Result<
        Vec<u8>,
        Self::Error,
    >)
        requires
            start + n <= 256,
        ensures
            bus_unchanged(old(self).model(), final(self).model()),
            (res matches Ok(b) ==> b@.len() == n && forall|i: int|
                0 <= i < n ==> b@[i] == old(self).model().reg(dev, (start + i) as u8)),
    ;
}

} // verus!
