//! The driver handle and its register-level operations.
//!
//! Every public operation is a synchronous sequence of register
//! transactions against the bus transport; its contract states the final
//! register state of the quiescent device model, which registers were
//! touched, and the value returned.

use crate::bcd::{bcd_to_bin, bin_to_bcd, spec_bcd_to_bin, spec_bin_to_bcd};
use crate::bus::{wp_protected, BusModel, I2cBus};
use crate::datetime::{civil_of, civil_to_unix, unix_of, unix_to_civil, DateTime};
use crate::pct::{
    freq_bits, pct_ticks_and_rate_for_duration, spec_freq_bits, spec_pct_selection, Duration,
    TimerClockFreq,
};
use crate::regs::{
    ALARM_FLAG_BIT, ALARM_INT_ENABLE_BIT, ALARM_NO_WATCH_FLAG, BACKUP_SWITCHOVER_DSM,
    BACKUP_SWITCH_FLAG, BACKUP_SWITCH_INT_ENABLE_BIT, CLKOUT_FREQ_SELECTION_BITS,
    CLOCKOUT_INT_ENABLE_BIT, CLOCKOUT_ON_ALARM_BIT, CLOCKOUT_ON_EXT_EVT_BIT, CLOCKOUT_ON_PCT_BIT,
    CLOCKOUT_ON_UPDATE_BIT, CLOCKOUT_OUTPUT_ENABLE_BIT, CLOCK_INT_FLAG_BIT, EEPROM_BUSY_BIT,
    EERD_BIT, EE_CMD_FIRST, EE_CMD_READ_ONE, EE_CMD_UPDATE_ALL, EVENT_FILTERING_TIME_BITS,
    EVENT_FLAG_BIT, EVENT_HIGH_LOW_BIT, EVENT_INT_ENABLE_BIT, PERIODIC_TIMER_FLAG,
    POWER_ON_RESET_FLAG_BIT, REG_CLOCK_INTERRUPT_MASK, REG_CONTROL1, REG_CONTROL2,
    REG_COUNT_EVENTS_TS, REG_DATE, REG_DATE_TS, REG_EEPROM_BACKUP_CONFIG, REG_EEPROM_CLKOUT,
    REG_EEPROM_EE_ADDRESS, REG_EEPROM_EE_CMD, REG_EEPROM_EE_DATA, REG_EEPROM_PASSWORD_0,
    REG_EEPROM_PASSWORD_1, REG_EEPROM_PASSWORD_2, REG_EEPROM_PASSWORD_3,
    REG_EEPROM_PASSWORD_ENABLE, REG_EVENT_CONTROL, REG_HOURS, REG_HOURS_ALARM, REG_HOURS_TS,
    REG_MINUTES, REG_MINUTES_ALARM, REG_MINUTES_TS, REG_MONTH, REG_MONTH_TS, REG_SECONDS,
    REG_SECONDS_TS, REG_STATUS, REG_TIMER_STATUS0, REG_TIMER_STATUS1, REG_TIMER_VALUE0,
    REG_TIMER_VALUE1, REG_UNIX_TIME_0, REG_UNIX_TIME_1, REG_UNIX_TIME_2, REG_UNIX_TIME_3,
    REG_USER_PASSWORD_0, REG_USER_PASSWORD_1, REG_USER_PASSWORD_2, REG_USER_PASSWORD_3,
    REG_USER_RAM_0, REG_USER_RAM_1, REG_WEEKDAY, REG_WEEKDAY_DATE_ALARM, REG_YEAR, REG_YEAR_TS,
    RV3028_ADDRESS, TIMER_CLOCK_FREQ_BITS, TIMER_ENABLE_BIT, TIMER_INT_ENABLE_BIT,
    TIMER_REPEAT_BIT, TIME_STAMP_ENABLE_BIT, TIME_STAMP_OVERWRITE_BIT, TIME_STAMP_RESET_BIT,
    TIME_STAMP_SOURCE_BIT, TIME_UPDATE_FLAG, TIME_UPDATE_INT_ENABLE_BIT, TRICKLE_CHARGE_ENABLE_BIT,
    TRICKLE_CHARGE_RESISTANCE_BITS, TS_EVENT_SOURCE_BSF, USEL_BIT, WADA_BIT,
};
use vstd::bytes::{
    spec_u32_from_le_bytes, spec_u32_to_le_bytes, u32_from_le_bytes, u32_to_le_bytes,
};
use vstd::prelude::*;

verus! {

/// Current limiting resistor for the trickle charger: a higher resistance
/// means less charging current.
#[derive(Clone, Copy, Debug, PartialEq, Eq, Structural)]
pub enum TrickleChargeCurrentLimiter {
    Ohms3k,
    Ohms5k,
    Ohms9k,
    Ohms15k,
}

/// The two trickle-charge resistance bits for each limiter choice.
pub open spec fn spec_trickle_bits(l: TrickleChargeCurrentLimiter) -> u8 {
    match l {
        TrickleChargeCurrentLimiter::Ohms3k => 0b00,
        TrickleChargeCurrentLimiter::Ohms5k => 0b01,
        TrickleChargeCurrentLimiter::Ohms9k => 0b10,
        TrickleChargeCurrentLimiter::Ohms15k => 0b11,
    }
}

/// Resistance bits of `l`, as written to the backup configuration
/// register.
pub fn trickle_bits(l: TrickleChargeCurrentLimiter) -> (r: u8)
    ensures
        r == spec_trickle_bits(l),
{
    match l {
        TrickleChargeCurrentLimiter::Ohms3k => 0b00,
        TrickleChargeCurrentLimiter::Ohms5k => 0b01,
        TrickleChargeCurrentLimiter::Ohms9k => 0b10,
        TrickleChargeCurrentLimiter::Ohms15k => 0b11,
    }
}

/// CLKOUT pin rate, controlling the FD field of the EEPROM CLKOUT
/// register.
#[derive(Clone, Copy, Debug, PartialEq, Eq, Structural)]
pub enum ClockoutRate {
    /// 32.768 kHz, the default value on delivery.
    Clkout32768Khz,
    Clkout8192Hz,
    Clkout1024Hz,
    Clkout64Hz,
    Clkout1Hz,
    /// Predefined periodic countdown timer interrupt.
    ClkoutPct,
    /// All frequency selection bits; this value sets CLKOUT low.
    ClkoutFreqSelectionBits,
}

/// The three FD field bits for each CLKOUT rate.
pub open spec fn spec_clockout_bits(rate: ClockoutRate) -> u8 {
    match rate {
        ClockoutRate::Clkout32768Khz => 0b000,
        ClockoutRate::Clkout8192Hz => 0b001,
        ClockoutRate::Clkout1024Hz => 0b010,
        ClockoutRate::Clkout64Hz => 0b011,
        ClockoutRate::Clkout1Hz => 0b101,
        ClockoutRate::ClkoutPct => 0b110,
        ClockoutRate::ClkoutFreqSelectionBits => 0b111,
    }
}

/// FD field bits of `rate`, as written to the EEPROM CLKOUT register.
pub fn clockout_bits(rate: ClockoutRate) -> (r: u8)
    ensures
        r == spec_clockout_bits(rate),
{
    match rate {
        ClockoutRate::Clkout32768Khz => 0b000,
        ClockoutRate::Clkout8192Hz => 0b001,
        ClockoutRate::Clkout1024Hz => 0b010,
        ClockoutRate::Clkout64Hz => 0b011,
        ClockoutRate::Clkout1Hz => 0b101,
        ClockoutRate::ClkoutPct => 0b110,
        ClockoutRate::ClkoutFreqSelectionBits => 0b111,
    }
}

/// Encoding of one alarm field register: the BCD value of the field, with
/// the no-watch bit set when the field is not matched.
pub open spec fn spec_alarm_field_enc(v: u8, watch: bool) -> u8
    recommends
        v < 100,
{
    if watch {
        spec_bin_to_bcd(v)
    } else {
        ALARM_NO_WATCH_FLAG | spec_bin_to_bcd(v)
    }
}

/// The field value decoded from one alarm register.
pub open spec fn spec_alarm_field_value(b: u8) -> u8 {
    spec_bcd_to_bin(b & 0x7F)
}

/// Whether an alarm register asks for its field to be matched: the
/// no-watch bit is clear.
pub open spec fn spec_alarm_field_watched(b: u8) -> bool {
    b & ALARM_NO_WATCH_FLAG == 0
}

/// Every alarm field round-trips through its register encoding: for any
/// field value below 80 (all alarm fields are: minutes below 60, hours
/// below 24, days of the month up to 31, weekdays below 7) and either
/// match flag, decoding the encoded register byte gives back the value
/// and the flag.
pub proof fn lemma_alarm_field_round_trip(v: u8, watch: bool)
    requires
        v < 80,
    ensures
        spec_alarm_field_value(spec_alarm_field_enc(v, watch)) == v,
        spec_alarm_field_watched(spec_alarm_field_enc(v, watch)) == watch,
{
    assert(spec_alarm_field_value(spec_alarm_field_enc(v, watch)) == v && spec_alarm_field_watched(
        spec_alarm_field_enc(v, watch),
    ) == watch) by (bit_vector)
        requires
            v < 80,
    ;
}

/// Re-applying a set-or-clear after the bit was cleared lands on the
/// plain set or clear of the original value, and a cleared bit reads as
/// zero.
proof fn lemma_set_or_clear_after_clear(x: u8, m: u8)
    ensures
        ((x & !m) | m) == (x | m),
        ((x & !m) & !m) == (x & !m),
        ((x & !m) & m) == 0,
{
    assert(((x & !m) | m) == (x | m)) by (bit_vector);
    assert(((x & !m) & !m) == (x & !m)) by (bit_vector);
    assert(((x & !m) & m) == 0) by (bit_vector);
}

/// Driver handle for one device: owns the transport, an optional bus
/// multiplexer address (0 means no mux) and the mux channel byte.  All
/// actual state lives in the device; the handle itself never changes
/// after construction.
pub struct RV3028<B> {
    i2c: B,
    mux_addr: u8,
    mux_chan: u8,
}

impl<B: I2cBus> RV3028<B> {
    /// The modelled bus state seen through the handle's transport.
    pub closed spec fn model(&self) -> BusModel {
        self.i2c.model()
    }

    /// Register `r` of the device at bus address `d`, in the bus model.
    pub open spec fn bus_reg(&self, d: u8, r: u8) -> u8 {
        self.model().reg(d, r)
    }

    /// Non-volatile byte `a` of the device at bus address `d`.
    pub open spec fn bus_nvm(&self, d: u8, a: u8) -> u8 {
        self.model().nv(d, a)
    }

    /// Byte currently held by register `r` of the device, in the bus
    /// model.
    pub open spec fn reg(&self, r: u8) -> u8 {
        self.model().reg(RV3028_ADDRESS, r)
    }

    /// Byte currently held at address `a` of the device's non-volatile
    /// configuration memory, in the bus model.
    pub open spec fn nvm(&self, a: u8) -> u8 {
        self.model().nv(RV3028_ADDRESS, a)
    }

    /// The configured mux address and channel.
    pub closed spec fn spec_mux(&self) -> (u8, u8) {
        (self.mux_addr, self.mux_chan)
    }

    /// The device is locked: write protection is enabled and the entered
    /// user password does not match the non-volatile reference, so a
    /// write to a write-protected register is a silent no-op.
    pub open spec fn spec_wp_locked(&self) -> bool {
        &&& self.reg(REG_EEPROM_PASSWORD_ENABLE) == 255
        &&& !(self.reg(REG_USER_PASSWORD_0) == self.nvm(REG_EEPROM_PASSWORD_0) && self.reg(
            REG_USER_PASSWORD_1,
        ) == self.nvm(REG_EEPROM_PASSWORD_1) && self.reg(REG_USER_PASSWORD_2) == self.nvm(
            REG_EEPROM_PASSWORD_2,
        ) && self.reg(REG_USER_PASSWORD_3) == self.nvm(REG_EEPROM_PASSWORD_3))
    }

    /// The handle fields are kept, no other bus device is disturbed, and
    /// every device register outside `touched` is unchanged.
    pub open spec fn evolves_regs(&self, post: Self, touched: Set<u8>) -> bool {
        &&& post.spec_mux() == self.spec_mux()
        &&& forall|d: u8, r: u8|
            d != RV3028_ADDRESS || !touched.contains(r) ==> #[trigger] post.model().reg(d, r)
                == self.model().reg(d, r)
    }

    /// No non-volatile byte of any device changed.
    pub open spec fn nvm_unchanged(&self, post: Self) -> bool {
        forall|d: u8, a: u8| #[trigger] post.model().nv(d, a) == self.model().nv(d, a)
    }

    /// The non-volatile memory now mirrors the configuration registers
    /// 30h to 37h of the final state; everything else is unchanged.
    pub open spec fn nvm_updated(&self, post: Self) -> bool {
        forall|d: u8, a: u8| #[trigger]
            post.model().nv(d, a) == (if d == RV3028_ADDRESS && REG_EEPROM_PASSWORD_ENABLE <= a
                <= REG_EEPROM_BACKUP_CONFIG {
                post.model().reg(d, a)
            } else {
                self.model().nv(d, a)
            })
    }

    /// Common evolution of almost every operation: only the device
    /// registers in `touched` may differ, and the non-volatile memory is
    /// untouched.
    pub open spec fn evolves(&self, post: Self, touched: Set<u8>) -> bool {
        self.evolves_regs(post, touched) && self.nvm_unchanged(post)
    }

    /// New driver instance, assumes that there is no bus mux sitting
    /// between the device and the host.
    pub fn new(i2c: B) -> (r: Self)
        ensures
            r.spec_mux() == (0u8, 0u8),
            forall|d: u8, x: u8| #[trigger] r.bus_reg(d, x) == i2c.model().reg(d, x),
            forall|d: u8, a: u8| #[trigger] r.bus_nvm(d, a) == i2c.model().nv(d, a),
    {
        RV3028 { i2c, mux_addr: 0u8, mux_chan: 0u8 }
    }

    /// Allows the caller to create a new driver instance with a bus mux
    /// between the device and the host.
    /// - `mux_addr` : the bus address of the mux itself
    /// - `mux_chan` : the mux channel assigned to the device
    pub fn new_with_mux(i2c: B, mux_addr: u8, mux_chan: u8) -> (r: Self)
        ensures
            r.spec_mux() == (mux_addr, mux_chan),
            forall|d: u8, x: u8| #[trigger] r.bus_reg(d, x) == i2c.model().reg(d, x),
            forall|d: u8, a: u8| #[trigger] r.bus_nvm(d, a) == i2c.model().nv(d, a),
    {
        RV3028 { i2c, mux_addr, mux_chan }
    }

    /// Give the transport back, consuming the handle.
    pub fn release(self) -> (r: B)
        ensures
            forall|d: u8, x: u8| #[trigger] r.model().reg(d, x) == self.bus_reg(d, x),
            forall|d: u8, a: u8| #[trigger] r.model().nv(d, a) == self.bus_nvm(d, a),
    {
        self.i2c
    }

    /// If using a bus mux, tell the mux to select our channel.  The write
    /// carries no register data, so the modelled state is untouched.
    fn select_mux_channel(&mut self) -> (r: Result<(), B::Error>)
        ensures
            r is Ok ==> old(self).evolves(*final(self), set![]),
    {
        if self.mux_addr != 0u8 {
            let frame: [u8; 1] = [self.mux_chan];
            self.i2c.bus_write(self.mux_addr, frame.as_slice())
        } else {
            Ok(())
        }
    }

    /// Write one data byte to one device register.  The EEPROM command
    /// register has its own primitive.  A write to a write-protected
    /// register while the device is locked is the device's silent no-op.
    fn write_register_raw(&mut self, reg: u8, data: u8) -> (r: Result<(), B::Error>)
        requires
            reg != REG_EEPROM_EE_CMD,
        ensures
            r is Ok ==> old(self).evolves(*final(self), set![reg]) && final(self).reg(reg) == (
            if old(self).spec_wp_locked() && wp_protected(reg) {
                old(self).reg(reg)
            } else {
                data
            }),
    {
        let frame: [u8; 2] = [reg, data];
        self.i2c.bus_write(RV3028_ADDRESS, frame.as_slice())
    }

    /// Write one EEPROM command.  A read command loads the addressed
    /// non-volatile byte into the data register; an update-all command
    /// copies the RAM-mirror configuration registers into the
    /// non-volatile memory.
    fn write_ee_cmd_raw(&mut self, cmd: u8) -> (r: Result<(), B::Error>)
        requires
            cmd == EE_CMD_FIRST || cmd == EE_CMD_UPDATE_ALL || cmd == EE_CMD_READ_ONE,
        ensures
            r is Ok ==> {
                &&& old(self).evolves_regs(
                    *final(self),
                    set![REG_EEPROM_EE_CMD, REG_EEPROM_EE_DATA],
                )
                &&& final(self).reg(REG_EEPROM_EE_CMD) == cmd
                &&& final(self).reg(REG_EEPROM_EE_ADDRESS) == old(self).reg(REG_EEPROM_EE_ADDRESS)
                &&& cmd != EE_CMD_READ_ONE ==> final(self).reg(REG_EEPROM_EE_DATA)
                    == old(self).reg(REG_EEPROM_EE_DATA)
                &&& cmd == EE_CMD_READ_ONE ==> final(self).reg(REG_EEPROM_EE_DATA)
                    == final(self).nvm(final(self).reg(REG_EEPROM_EE_ADDRESS))
                &&& cmd != EE_CMD_UPDATE_ALL ==> old(self).nvm_unchanged(*final(self))
                &&& cmd == EE_CMD_UPDATE_ALL ==> old(self).nvm_updated(*final(self))
            },
    {
        let frame: [u8; 2] = [REG_EEPROM_EE_CMD, cmd];
        self.i2c.bus_write(RV3028_ADDRESS, frame.as_slice())
    }

    /// Read one device register.
    fn read_register_raw(&mut self, reg: u8) -> (r: Result<u8, B::Error>)
        ensures
            old(self).evolves(*final(self), set![]),
            r matches Ok(v) ==> v == old(self).reg(reg),
    {
        let buf = self.i2c.bus_write_read(RV3028_ADDRESS, reg, 1)?;
        Ok(buf[0])
    }

    /// Read a block of consecutive device registers all at once: skip
    /// mux.
    fn read_multi_registers_raw(&mut self, reg: u8, n: usize) -> (r: Result<Vec<u8>, B::Error>)
        requires
            reg + n <= 256,
        ensures
            old(self).evolves(*final(self), set![]),
            (r matches Ok(b) ==> b@.len() == n && forall|i: int|
                0 <= i < n ==> b@[i] == old(self).reg((reg + i) as u8)),
    {
        self.i2c.bus_write_read(RV3028_ADDRESS, reg, n)
    }

    /// Read a block of consecutive device registers all at once.
    fn read_multi_registers(&mut self, reg: u8, n: usize) -> (r: Result<Vec<u8>, B::Error>)
        requires
            reg + n <= 256,
        ensures
            r is Ok ==> old(self).evolves(*final(self), set![]),
            (r matches Ok(b) ==> b@.len() == n && forall|i: int|
                0 <= i < n ==> b@[i] == old(self).reg((reg + i) as u8)),
    {
        self.select_mux_channel()?;
        self.read_multi_registers_raw(reg, n)
    }

    /// Set specific bits in a register: read, OR in the mask, write back.
    /// "Raw" means it skips the mux.  Not atomic across the two bus
    /// transactions: a concurrent hardware update of the register between
    /// read and write can be lost, an accepted race inherent to the
    /// chip's design.
    fn set_reg_bits_raw(&mut self, reg: u8, bits: u8) -> (r: Result<(), B::Error>)
        requires
            reg != REG_EEPROM_EE_CMD,
            !wp_protected(reg),
        ensures
            r is Ok ==> old(self).evolves(*final(self), set![reg]) && final(self).reg(reg) == (old(self).reg(reg) | bits),
    {
        let mut reg_val = self.read_register_raw(reg)?;
        reg_val = reg_val | bits;
        self.write_register_raw(reg, reg_val)
    }

    /// Clear specific bits in a register: read, AND with the inverted
    /// mask, write back.  Same race caveat as `set_reg_bits_raw`.
    fn clear_reg_bits_raw(&mut self, reg: u8, bits: u8) -> (r: Result<(), B::Error>)
        requires
            reg != REG_EEPROM_EE_CMD,
            !wp_protected(reg),
        ensures
            r is Ok ==> old(self).evolves(*final(self), set![reg]) && final(self).reg(reg) == (old(self).reg(reg) & !bits),
    {
        let mut reg_val = self.read_register_raw(reg)?;
        reg_val = reg_val & !bits;
        self.write_register_raw(reg, reg_val)
    }

    /// If `set` is true, set the high bits given in `bits`, otherwise
    /// clear those bits; skips mux.
    fn set_or_clear_reg_bits_raw(&mut self, reg: u8, bits: u8, set: bool) -> (r: Result<
        (),
        B::Error,
    >)
        requires
            reg != REG_EEPROM_EE_CMD,
            !wp_protected(reg),
        ensures
            r is Ok ==> old(self).evolves(*final(self), set![reg]) && final(self).reg(reg) == (
            if set {
                old(self).reg(reg) | bits
            } else {
                old(self).reg(reg) & !bits
            }),
    {
        if set {
            self.set_reg_bits_raw(reg, bits)
        } else {
            self.clear_reg_bits_raw(reg, bits)
        }
    }

    /// If `set` is true, set the high bits given in `bits`, otherwise
    /// clear those bits.
    fn set_or_clear_reg_bits(&mut self, reg: u8, bits: u8, set: bool) -> (r: Result<(), B::Error>)
        requires
            reg != REG_EEPROM_EE_CMD,
            !wp_protected(reg),
        ensures
            r is Ok ==> old(self).evolves(*final(self), set![reg]) && final(self).reg(reg) == (
            if set {
                old(self).reg(reg) | bits
            } else {
                old(self).reg(reg) & !bits
            }),
    {
        self.select_mux_channel()?;
        self.set_or_clear_reg_bits_raw(reg, bits, set)
    }

    /// Check the masked bits of a register and clear exactly those that
    /// were set; returns the pre-clear masked value.
    fn check_and_clear_bits(&mut self, reg: u8, bits: u8) -> (r: Result<u8, B::Error>)
        requires
            reg != REG_EEPROM_EE_CMD,
            !wp_protected(reg),
        ensures
            (r matches Ok(v) ==> v == (old(self).reg(reg) & bits) && old(self).evolves(
                *final(self),
                set![reg],
            ) && final(self).reg(reg) == (old(self).reg(reg) & !bits)),
    {
        self.select_mux_channel()?;
        let reg_val = self.read_register_raw(reg)?;
        let bits_val = reg_val & bits;
        if 0 != bits_val {
            self.clear_reg_bits_raw(reg, bits)?;
        } else {
            proof {
                let b = old(self).reg(reg);
                assert(b & bits == 0 ==> (b & !bits) == b) by (bit_vector);
            }
        }
        Ok(bits_val)
    }

    /// Read-only test whether any of the masked bits of a register is
    /// set; skips mux.
    fn check_bits_nonzero_raw(&mut self, reg: u8, bits: u8) -> (r: Result<bool, B::Error>)
        ensures
            old(self).evolves(*final(self), set![]),
            (r matches Ok(v) ==> v == ((old(self).reg(reg) & bits) != 0)),
    {
        let reg_val = self.read_register_raw(reg)?;
        let bits_val = reg_val & bits;
        Ok(0 != bits_val)
    }

    /// Read-only test whether any of the masked bits of a register is
    /// set.
    fn check_bits_nonzero(&mut self, reg: u8, bits: u8) -> (r: Result<bool, B::Error>)
        ensures
            r is Ok ==> old(self).evolves(*final(self), set![]),
            (r matches Ok(v) ==> v == ((old(self).reg(reg) & bits) != 0)),
    {
        self.select_mux_channel()?;
        self.check_bits_nonzero_raw(reg, bits)
    }

    /// Check whether the Power On Reset flag is set, clearing it.  If the
    /// flag was set, the data in the device RAM registers is no longer
    /// valid and all registers must be (re)initialized.
    pub fn check_and_clear_power_on_reset(&mut self) -> (r: Result<bool, B::Error>)
        ensures
            (r matches Ok(v) ==> v == ((old(self).reg(REG_STATUS) & POWER_ON_RESET_FLAG_BIT) != 0)
                && old(self).evolves(*final(self), set![REG_STATUS]) && final(self).reg(REG_STATUS)
                == (old(self).reg(REG_STATUS) & !POWER_ON_RESET_FLAG_BIT)),
    {
        let flag_set = 0 != self.check_and_clear_bits(REG_STATUS, POWER_ON_RESET_FLAG_BIT)?;
        Ok(flag_set)
    }

    /// Check whether an external event has been detected (an appropriate
    /// input signal on the EVI pin), clearing the flag.
    pub fn check_and_clear_ext_event(&mut self) -> (r: Result<bool, B::Error>)
        ensures
            (r matches Ok(v) ==> v == ((old(self).reg(REG_STATUS) & EVENT_FLAG_BIT) != 0) && old(self).evolves(*final(self), set![REG_STATUS]) && final(self).reg(REG_STATUS) == (old(self).reg(REG_STATUS) & !EVENT_FLAG_BIT)),
    {
        let flag_set = 0 != self.check_and_clear_bits(REG_STATUS, EVENT_FLAG_BIT)?;
        Ok(flag_set)
    }

    /// Check whether an automatic backup switchover event has taken
    /// place, as indicated by the Backup Switch Flag, clearing the flag.
    pub fn check_and_clear_backup_event(&mut self) -> (r: Result<bool, B::Error>)
        ensures
            (r matches Ok(v) ==> v == ((old(self).reg(REG_STATUS) & BACKUP_SWITCH_FLAG) != 0)
                && old(self).evolves(*final(self), set![REG_STATUS]) && final(self).reg(REG_STATUS)
                == (old(self).reg(REG_STATUS) & !BACKUP_SWITCH_FLAG)),
    {
        let flag_set = 0 != self.check_and_clear_bits(REG_STATUS, BACKUP_SWITCH_FLAG)?;
        Ok(flag_set)
    }

    /// Check whether a switchover to the backup power supply has occurred
    /// at least once; read-only.
    pub fn check_backup_event_flag(&mut self) -> (r: Result<bool, B::Error>)
        ensures
            r is Ok ==> old(self).evolves(*final(self), set![]),
            (r matches Ok(v) ==> v == ((old(self).reg(REG_STATUS) & BACKUP_SWITCH_FLAG) != 0)),
    {
        self.check_bits_nonzero(REG_STATUS, BACKUP_SWITCH_FLAG)
    }

    /// Check the alarm status and, if it has triggered, clear it;
    /// returns whether the alarm had triggered.
    pub fn check_and_clear_alarm(&mut self) -> (r: Result<bool, B::Error>)
        ensures
            (r matches Ok(v) ==> v == ((old(self).reg(REG_STATUS) & ALARM_FLAG_BIT) != 0) && old(self).evolves(*final(self), set![REG_STATUS]) && final(self).reg(REG_STATUS) == (old(self).reg(REG_STATUS) & !ALARM_FLAG_BIT)),
    {
        let alarm_flag_set = 0 != self.check_and_clear_bits(REG_STATUS, ALARM_FLAG_BIT)?;
        Ok(alarm_flag_set)
    }

    /// Check whether the alarm flag is set; read-only.
    pub fn check_alarm_flag(&mut self) -> (r: Result<bool, B::Error>)
        ensures
            r is Ok ==> old(self).evolves(*final(self), set![]),
            (r matches Ok(v) ==> v == ((old(self).reg(REG_STATUS) & ALARM_FLAG_BIT) != 0)),
    {
        self.check_bits_nonzero(REG_STATUS, ALARM_FLAG_BIT)
    }

    /// Check whether the countdown timer has finished counting down,
    /// clearing the expiry flag.
    pub fn check_and_clear_countdown(&mut self) -> (r: Result<bool, B::Error>)
        ensures
            (r matches Ok(v) ==> v == ((old(self).reg(REG_STATUS) & PERIODIC_TIMER_FLAG) != 0)
                && old(self).evolves(*final(self), set![REG_STATUS]) && final(self).reg(REG_STATUS)
                == (old(self).reg(REG_STATUS) & !PERIODIC_TIMER_FLAG)),
    {
        let flag_set = 0 != self.check_and_clear_bits(REG_STATUS, PERIODIC_TIMER_FLAG)?;
        Ok(flag_set)
    }

    /// Toggle whether EVI events trigger on high/rising or low/falling
    /// edges.
    pub fn toggle_event_high_low(&mut self, high: bool) -> (r: Result<(), B::Error>)
        ensures
            r is Ok ==> old(self).evolves(*final(self), set![REG_EVENT_CONTROL]) && final(self).reg(
                REG_EVENT_CONTROL,
            ) == (if high {
                old(self).reg(REG_EVENT_CONTROL) | EVENT_HIGH_LOW_BIT
            } else {
                old(self).reg(REG_EVENT_CONTROL) & !EVENT_HIGH_LOW_BIT
            }),
    {
        self.set_or_clear_reg_bits(REG_EVENT_CONTROL, EVENT_HIGH_LOW_BIT, high)
    }

    /// Enable INT pin output when the alarm occurs.
    pub fn toggle_alarm_int_enable(&mut self, enable: bool) -> (r: Result<(), B::Error>)
        ensures
            r is Ok ==> old(self).evolves(*final(self), set![REG_CONTROL2]) && final(self).reg(
                REG_CONTROL2,
            ) == (if enable {
                old(self).reg(REG_CONTROL2) | ALARM_INT_ENABLE_BIT
            } else {
                old(self).reg(REG_CONTROL2) & !ALARM_INT_ENABLE_BIT
            }),
    {
        self.set_or_clear_reg_bits(REG_CONTROL2, ALARM_INT_ENABLE_BIT, enable)
    }

    /// Toggle whether the device outputs a pulse (active low) on the INT
    /// pin when the countdown timer expires.
    pub fn toggle_countdown_int_enable(&mut self, enable: bool) -> (r: Result<(), B::Error>)
        ensures
            r is Ok ==> old(self).evolves(*final(self), set![REG_CONTROL2]) && final(self).reg(
                REG_CONTROL2,
            ) == (if enable {
                old(self).reg(REG_CONTROL2) | TIMER_INT_ENABLE_BIT
            } else {
                old(self).reg(REG_CONTROL2) & !TIMER_INT_ENABLE_BIT
            }),
    {
        self.set_or_clear_reg_bits(REG_CONTROL2, TIMER_INT_ENABLE_BIT, enable)
    }

    /// Toggle whether an interrupt signal is generated on the INT pin
    /// when an external event on the EVI pin occurs (TSS = 0) or when an
    /// automatic backup switchover occurs (TSS = 1).  The signal is
    /// retained until the event flag is cleared.
    pub fn toggle_ext_event_int_enable(&mut self, enable: bool) -> (r: Result<(), B::Error>)
        ensures
            r is Ok ==> old(self).evolves(*final(self), set![REG_CONTROL2]) && final(self).reg(
                REG_CONTROL2,
            ) == (if enable {
                old(self).reg(REG_CONTROL2) | EVENT_INT_ENABLE_BIT
            } else {
                old(self).reg(REG_CONTROL2) & !EVENT_INT_ENABLE_BIT
            }),
    {
        self.set_or_clear_reg_bits(REG_CONTROL2, EVENT_INT_ENABLE_BIT, enable)
    }

    /// Toggle whether an interrupt signal is generated on the INT pin
    /// when the time updates, at either one-second or one-minute
    /// intervals.
    pub fn toggle_time_up_int_enable(&mut self, enable: bool) -> (r: Result<(), B::Error>)
        ensures
            r is Ok ==> old(self).evolves(*final(self), set![REG_CONTROL2]) && final(self).reg(
                REG_CONTROL2,
            ) == (if enable {
                old(self).reg(REG_CONTROL2) | TIME_UPDATE_INT_ENABLE_BIT
            } else {
                old(self).reg(REG_CONTROL2) & !TIME_UPDATE_INT_ENABLE_BIT
            }),
    {
        self.set_or_clear_reg_bits(REG_CONTROL2, TIME_UPDATE_INT_ENABLE_BIT, enable)
    }

    /// Enable or disable CLKOUT when the alarm triggers.
    pub fn toggle_clockout_on_alarm(&mut self, enable: bool) -> (r: Result<(), B::Error>)
        ensures
            r is Ok ==> old(self).evolves(*final(self), set![REG_CLOCK_INTERRUPT_MASK]) && final(self).reg(REG_CLOCK_INTERRUPT_MASK) == (if enable {
                old(self).reg(REG_CLOCK_INTERRUPT_MASK) | CLOCKOUT_ON_ALARM_BIT
            } else {
                old(self).reg(REG_CLOCK_INTERRUPT_MASK) & !CLOCKOUT_ON_ALARM_BIT
            }),
    {
        self.set_or_clear_reg_bits(REG_CLOCK_INTERRUPT_MASK, CLOCKOUT_ON_ALARM_BIT, enable)
    }

    /// Starts (true) or stops (false) the countdown of the periodic
    /// countdown timer without reconfiguring it.
    pub fn toggle_countdown_timer(&mut self, enable: bool) -> (r: Result<(), B::Error>)
        ensures
            r is Ok ==> old(self).evolves(*final(self), set![REG_CONTROL1]) && final(self).reg(
                REG_CONTROL1,
            ) == (if enable {
                old(self).reg(REG_CONTROL1) | TIMER_ENABLE_BIT
            } else {
                old(self).reg(REG_CONTROL1) & !TIMER_ENABLE_BIT
            }),
    {
        self.set_or_clear_reg_bits(REG_CONTROL1, TIMER_ENABLE_BIT, enable)
    }

    /// Toggle whether the backup power source should be used when the
    /// supply level drops below a useful level.  Clears the backup switch
    /// flag first and returns the configured value read back from the
    /// device.
    pub fn toggle_backup_switchover(&mut self, enable: bool) -> (r: Result<bool, B::Error>)
        ensures
            (r matches Ok(v) ==> {
                &&& old(self).evolves(
                    *final(self),
                    set![REG_STATUS, REG_EEPROM_BACKUP_CONFIG],
                )
                &&& final(self).reg(REG_STATUS) == (old(self).reg(REG_STATUS)
                    & !BACKUP_SWITCH_FLAG)
                &&& final(self).reg(REG_EEPROM_BACKUP_CONFIG) == (if enable {
                    old(self).reg(REG_EEPROM_BACKUP_CONFIG) | BACKUP_SWITCHOVER_DSM
                } else {
                    old(self).reg(REG_EEPROM_BACKUP_CONFIG) & !BACKUP_SWITCHOVER_DSM
                })
                &&& v == enable
            }),
    {
        self.select_mux_channel()?;
        self.clear_reg_bits_raw(REG_STATUS, BACKUP_SWITCH_FLAG)?;
        self.set_or_clear_reg_bits_raw(REG_EEPROM_BACKUP_CONFIG, BACKUP_SWITCHOVER_DSM, enable)?;
        let reg_val = self.read_register_raw(REG_EEPROM_BACKUP_CONFIG)?;
        let conf_val = 0 != reg_val & BACKUP_SWITCHOVER_DSM;
        proof {
            let b = old(self).reg(REG_EEPROM_BACKUP_CONFIG);
            assert(((b | BACKUP_SWITCHOVER_DSM) & BACKUP_SWITCHOVER_DSM) != 0) by (bit_vector);
            assert(((b & !BACKUP_SWITCHOVER_DSM) & BACKUP_SWITCHOVER_DSM) == 0) by (bit_vector);
        }
        Ok(conf_val)
    }

    /// Disable all clock outputs triggered by interrupts.
    pub fn clear_all_int_clockout_bits(&mut self) -> (r: Result<(), B::Error>)
        ensures
            r is Ok ==> old(self).evolves(*final(self), set![REG_CLOCK_INTERRUPT_MASK]) && final(self).reg(REG_CLOCK_INTERRUPT_MASK) == (old(self).reg(REG_CLOCK_INTERRUPT_MASK)
                & !(CLOCKOUT_ON_EXT_EVT_BIT | CLOCKOUT_ON_ALARM_BIT | CLOCKOUT_ON_PCT_BIT
                | CLOCKOUT_ON_UPDATE_BIT)),
    {
        self.select_mux_channel()?;
        self.clear_reg_bits_raw(
            REG_CLOCK_INTERRUPT_MASK,
            CLOCKOUT_ON_EXT_EVT_BIT | CLOCKOUT_ON_ALARM_BIT | CLOCKOUT_ON_PCT_BIT
                | CLOCKOUT_ON_UPDATE_BIT,
        )
    }

    /// Disable all INT pin output selector bits held in RAM; excludes the
    /// power-on-reset interrupt enable, which lives in EEPROM.
    pub fn clear_all_int_out_bits(&mut self) -> (r: Result<(), B::Error>)
        ensures
            r is Ok ==> {
                &&& old(self).evolves(
                    *final(self),
                    set![REG_CONTROL2, REG_EEPROM_BACKUP_CONFIG],
                )
                &&& final(self).reg(REG_CONTROL2) == (old(self).reg(REG_CONTROL2)
                    & !(TIME_UPDATE_INT_ENABLE_BIT | TIMER_INT_ENABLE_BIT | ALARM_INT_ENABLE_BIT
                    | EVENT_INT_ENABLE_BIT))
                &&& final(self).reg(REG_EEPROM_BACKUP_CONFIG) == (old(self).reg(
                    REG_EEPROM_BACKUP_CONFIG,
                ) & !BACKUP_SWITCH_INT_ENABLE_BIT)
            },
    {
        self.select_mux_channel()?;
        self.clear_reg_bits_raw(
            REG_CONTROL2,
            TIME_UPDATE_INT_ENABLE_BIT | TIMER_INT_ENABLE_BIT | ALARM_INT_ENABLE_BIT
                | EVENT_INT_ENABLE_BIT,
        )?;
        self.clear_reg_bits_raw(REG_EEPROM_BACKUP_CONFIG, BACKUP_SWITCH_INT_ENABLE_BIT)?;
        Ok(())
    }

    /// Clear all of the status flags that indicate whether various
    /// conditions have triggered.
    pub fn clear_all_status_flags(&mut self) -> (r: Result<(), B::Error>)
        ensures
            r is Ok ==> old(self).evolves(*final(self), set![REG_STATUS]) && final(self).reg(
                REG_STATUS,
            ) == (old(self).reg(REG_STATUS) & !(CLOCK_INT_FLAG_BIT | BACKUP_SWITCH_FLAG
                | TIME_UPDATE_FLAG | PERIODIC_TIMER_FLAG | ALARM_FLAG_BIT | EVENT_FLAG_BIT
                | POWER_ON_RESET_FLAG_BIT)),
    {
        self.select_mux_channel()?;
        self.clear_reg_bits_raw(
            REG_STATUS,
            CLOCK_INT_FLAG_BIT | BACKUP_SWITCH_FLAG | TIME_UPDATE_FLAG | PERIODIC_TIMER_FLAG
                | ALARM_FLAG_BIT | EVENT_FLAG_BIT | POWER_ON_RESET_FLAG_BIT,
        )
    }

    /// Configure the periodic time update interrupt: clear the update
    /// interrupt enable and the update flag, choose the second or minute
    /// source, then re-enable the interrupt if requested.
    /// - `minutes` selects minute updates rather than second updates
    /// - `int_enable` enables INT output on the periodic time updates
    pub fn configure_periodic_time_update(&mut self, minutes: bool, int_enable: bool) -> (r:
        Result<(), B::Error>)
        ensures
            r is Ok ==> {
                &&& old(self).evolves(
                    *final(self),
                    set![REG_CONTROL1, REG_CONTROL2, REG_STATUS],
                )
                &&& final(self).reg(REG_STATUS) == (old(self).reg(REG_STATUS) & !TIME_UPDATE_FLAG)
                &&& final(self).reg(REG_CONTROL1) == (if minutes {
                    old(self).reg(REG_CONTROL1) | USEL_BIT
                } else {
                    old(self).reg(REG_CONTROL1) & !USEL_BIT
                })
                &&& final(self).reg(REG_CONTROL2) == (if int_enable {
                    old(self).reg(REG_CONTROL2) | TIME_UPDATE_INT_ENABLE_BIT
                } else {
                    old(self).reg(REG_CONTROL2) & !TIME_UPDATE_INT_ENABLE_BIT
                })
            },
    {
        self.select_mux_channel()?;
        self.clear_reg_bits_raw(REG_CONTROL2, TIME_UPDATE_INT_ENABLE_BIT)?;
        self.clear_reg_bits_raw(REG_STATUS, TIME_UPDATE_FLAG)?;
        self.set_or_clear_reg_bits_raw(REG_CONTROL1, USEL_BIT, minutes)?;
        self.set_or_clear_reg_bits_raw(REG_CONTROL2, TIME_UPDATE_INT_ENABLE_BIT, int_enable)?;
        proof {
            lemma_set_or_clear_after_clear(old(self).reg(REG_CONTROL2), TIME_UPDATE_INT_ENABLE_BIT);
        }
        Ok(())
    }

    /// Set the value of the two user RAM registers.  The user RAM is
    /// write protected: while the device is locked with a mismatched
    /// password the write is the device's silent no-op — the call still
    /// succeeds and the registers keep their previous values, detectable
    /// only by reading back.
    pub fn set_user_ram(&mut self, data: &[u8; 2]) -> (r: Result<(), B::Error>)
        ensures
            r is Ok ==> {
                &&& old(self).evolves(*final(self), set![REG_USER_RAM_0, REG_USER_RAM_1])
                &&& old(self).spec_wp_locked() ==> final(self).reg(REG_USER_RAM_0) == old(self).reg(
                    REG_USER_RAM_0,
                ) && final(self).reg(REG_USER_RAM_1) == old(self).reg(REG_USER_RAM_1)
                &&& !old(self).spec_wp_locked() ==> final(self).reg(REG_USER_RAM_0) == data@[0]
                    && final(self).reg(REG_USER_RAM_1) == data@[1]
            },
    {
        self.select_mux_channel()?;
        proof {
            // Selecting the mux channel disturbs no device state; naming
            // both models grounds them for the later register reasoning.
            let pre = old(self).model();
            let mid = self.model();
            assert(forall|d: u8, r: u8| #[trigger] mid.reg(d, r) == pre.reg(d, r));
            assert(forall|d: u8, a: u8| #[trigger] mid.nv(d, a) == pre.nv(d, a));
        }
        let frame: [u8; 3] = [REG_USER_RAM_0, data[0], data[1]];
        self.i2c.bus_write(RV3028_ADDRESS, frame.as_slice())
    }

    /// Get the value of the two user RAM registers.
    pub fn get_user_ram(&mut self) -> (r: Result<[u8; 2], B::Error>)
        ensures
            r is Ok ==> old(self).evolves(*final(self), set![]),
            (r matches Ok(d) ==> d@[0] == old(self).reg(REG_USER_RAM_0) && d@[1] == old(self).reg(
                REG_USER_RAM_1,
            )),
    {
        let buf = self.read_multi_registers(REG_USER_RAM_0, 2)?;
        Ok([buf[0], buf[1]])
    }

    /// Get the current value of the EEPROM backup configuration register
    /// from the RAM mirror.
    pub fn get_eeprom_backup_config(&mut self) -> (r: Result<u8, B::Error>)
        ensures
            r is Ok ==> old(self).evolves(*final(self), set![]),
            (r matches Ok(v) ==> v == old(self).reg(REG_EEPROM_BACKUP_CONFIG)),
    {
        self.select_mux_channel()?;
        self.read_register_raw(REG_EEPROM_BACKUP_CONFIG)
    }

    /// The four bytes of the Unix time counter registers, least
    /// significant first.
    pub open spec fn unix_time_bytes(&self) -> Seq<u8> {
        seq![
            self.reg(REG_UNIX_TIME_0),
            self.reg(REG_UNIX_TIME_1),
            self.reg(REG_UNIX_TIME_2),
            self.reg(REG_UNIX_TIME_3),
        ]
    }

    /// Set just the Unix time counter to the little-endian encoding of
    /// `unix_time`, in one write transaction.
    ///
    /// This does not set the other BCD calendar registers such as year or
    /// hour, and it does not reset the sub-second prescaler pipeline;
    /// prefer `set_datetime` to set all time registers consistently.
    pub fn set_unix_time(&mut self, unix_time: u32) -> (r: Result<(), B::Error>)
        ensures
            r is Ok ==> old(self).evolves(
                *final(self),
                set![REG_UNIX_TIME_0, REG_UNIX_TIME_1, REG_UNIX_TIME_2, REG_UNIX_TIME_3],
            ) && final(self).unix_time_bytes() == spec_u32_to_le_bytes(unix_time),
    {
        self.select_mux_channel()?;
        self.set_unix_time_raw(unix_time)
    }

    /// Sets the Unix time counter but skips the mux.
    fn set_unix_time_raw(&mut self, unix_time: u32) -> (r: Result<(), B::Error>)
        ensures
            r is Ok ==> old(self).evolves(
                *final(self),
                set![REG_UNIX_TIME_0, REG_UNIX_TIME_1, REG_UNIX_TIME_2, REG_UNIX_TIME_3],
            ) && final(self).unix_time_bytes() == spec_u32_to_le_bytes(unix_time),
    {
        let bytes = u32_to_le_bytes(unix_time);
        let frame: [u8; 5] = [REG_UNIX_TIME_0, bytes[0], bytes[1], bytes[2], bytes[3]];
        let res = self.i2c.bus_write(RV3028_ADDRESS, frame.as_slice());
        proof {
            if res is Ok {
                assert(final(self).unix_time_bytes() =~= spec_u32_to_le_bytes(unix_time));
            }
        }
        res
    }

    /// Reads the value of the device's Unix time counter, notionally
    /// seconds elapsed since the common epoch in 1970.  The counter is an
    /// unsigned 32-bit value: it cannot represent datetimes prior to
    /// 1970, it wraps around the year 2106, and the device's automatic
    /// leap year correction is only valid until 2099.
    pub fn get_unix_time(&mut self) -> (r: Result<u32, B::Error>)
        ensures
            r is Ok ==> old(self).evolves(*final(self), set![]),
            (r matches Ok(v) ==> v == spec_u32_from_le_bytes(old(self).unix_time_bytes())),
    {
        let buf = self.read_multi_registers(REG_UNIX_TIME_0, 4)?;
        proof {
            assert(buf@ =~= old(self).unix_time_bytes());
        }
        let val = u32_from_le_bytes(buf.as_slice());
        Ok(val)
    }

    /// Read the Unix time counter twice per attempt and return a value
    /// only once two consecutive reads agree, the hazard-avoidance
    /// protocol the vendor manual recommends against a counter increment
    /// landing in the middle of the multi-byte read.  The caller chooses
    /// the retry bound; `Ok(None)` says explicitly that no read was
    /// confirmed within it, so no torn value is ever handed back.
    pub fn get_unix_time_confirmed(&mut self, retries: u32) -> (r: Result<Option<u32>, B::Error>)
        ensures
            r is Ok ==> old(self).evolves(*final(self), set![]),
            (r matches Ok(c) ==> (c matches Some(v) ==> v == spec_u32_from_le_bytes(
                old(self).unix_time_bytes(),
            ))),
    {
        let ghost orig = *self;
        let mut remaining = retries;
        loop
            invariant
                orig == *old(self),
                orig.evolves(*self, set![]),
            decreases remaining as int,
        {
            let val1 = self.get_unix_time()?;
            let ghost mid = *self;
            let val2 = self.get_unix_time()?;
            proof {
                assert(mid.unix_time_bytes() =~= orig.unix_time_bytes());
            }
            if val1 == val2 {
                return Ok(Some(val2));
            }
            if remaining == 0 {
                return Ok(None);
            }
            remaining = remaining - 1;
        }
    }

    /// Read the Unix time counter with the read-twice protocol and a
    /// generous default retry bound.  Should the bound ever be exhausted
    /// on hardware, one final single read is returned; callers that need
    /// an explicit confirmation signal, or their own bound, use
    /// `get_unix_time_confirmed`.
    pub fn get_unix_time_blocking(&mut self) -> (r: Result<u32, B::Error>)
        ensures
            r is Ok ==> old(self).evolves(*final(self), set![]),
            (r matches Ok(v) ==> v == spec_u32_from_le_bytes(old(self).unix_time_bytes())),
    {
        match self.get_unix_time_confirmed(1_000_000)? {
            Some(v) => Ok(v),
            None => self.get_unix_time(),
        }
    }

    /// Get the year, month and day of the month from the internal BCD
    /// calendar registers.
    pub fn get_ymd(&mut self) -> (r: Result<(i32, u8, u8), B::Error>)
        ensures
            r is Ok ==> old(self).evolves(*final(self), set![]),
            (r matches Ok(t) ==> t.0 == 2000 + spec_bcd_to_bin(old(self).reg(REG_YEAR)) && t.1
                == spec_bcd_to_bin(old(self).reg(REG_MONTH)) && t.2 == spec_bcd_to_bin(
                old(self).reg(REG_DATE),
            )),
    {
        let buf = self.read_multi_registers(REG_DATE, 3)?;
        let day = bcd_to_bin(buf[0]);
        let month = bcd_to_bin(buf[1]);
        let year: i32 = bcd_to_bin(buf[2]) as i32 + 2000;
        Ok((year, month, day))
    }

    /// Get the hour, minute and second from the internal BCD time
    /// registers.
    pub fn get_hms(&mut self) -> (r: Result<(u8, u8, u8), B::Error>)
        ensures
            r is Ok ==> old(self).evolves(*final(self), set![]),
            (r matches Ok(t) ==> t.0 == spec_bcd_to_bin(old(self).reg(REG_HOURS)) && t.1
                == spec_bcd_to_bin(old(self).reg(REG_MINUTES)) && t.2 == spec_bcd_to_bin(
                old(self).reg(REG_SECONDS),
            )),
    {
        let buf = self.read_multi_registers(REG_SECONDS, 3)?;
        let seconds = bcd_to_bin(buf[0]);
        let minutes = bcd_to_bin(buf[1]);
        let hours = bcd_to_bin(buf[2]);
        Ok((hours, minutes, seconds))
    }

    /// Set the CLKOUT pin frequency used when clock output is enabled:
    /// clear the FD field, then set the bits of `rate`.
    pub fn set_clockout_rate(&mut self, rate: ClockoutRate) -> (r: Result<(), B::Error>)
        ensures
            r is Ok ==> old(self).evolves(*final(self), set![REG_EEPROM_CLKOUT]) && final(self).reg(
                REG_EEPROM_CLKOUT,
            ) == ((old(self).reg(REG_EEPROM_CLKOUT) & !CLKOUT_FREQ_SELECTION_BITS)
                | spec_clockout_bits(rate)),
    {
        self.select_mux_channel()?;
        self.clear_reg_bits_raw(REG_EEPROM_CLKOUT, CLKOUT_FREQ_SELECTION_BITS)?;
        self.set_reg_bits_raw(REG_EEPROM_CLKOUT, clockout_bits(rate))
    }

    /// Configures the behavior of the CLKOUT pin.
    /// - `int_enable` enables interrupt-controlled clock output; if
    ///   false, plain clock output is used (and the output-enable bit of
    ///   the backup configuration register is set)
    /// - `rate` sets the clock output frequency
    pub fn config_clockout(&mut self, int_enable: bool, rate: ClockoutRate) -> (r: Result<
        (),
        B::Error,
    >)
        ensures
            r is Ok ==> {
                &&& old(self).evolves(
                    *final(self),
                    set![REG_EEPROM_CLKOUT, REG_EEPROM_BACKUP_CONFIG, REG_CONTROL2],
                )
                &&& final(self).reg(REG_EEPROM_CLKOUT) == ((old(self).reg(REG_EEPROM_CLKOUT)
                    & !CLKOUT_FREQ_SELECTION_BITS) | spec_clockout_bits(rate))
                &&& final(self).reg(REG_EEPROM_BACKUP_CONFIG) == (if int_enable {
                    old(self).reg(REG_EEPROM_BACKUP_CONFIG) & !CLOCKOUT_OUTPUT_ENABLE_BIT
                } else {
                    old(self).reg(REG_EEPROM_BACKUP_CONFIG) | CLOCKOUT_OUTPUT_ENABLE_BIT
                })
                &&& final(self).reg(REG_CONTROL2) == (if int_enable {
                    old(self).reg(REG_CONTROL2) | CLOCKOUT_INT_ENABLE_BIT
                } else {
                    old(self).reg(REG_CONTROL2) & !CLOCKOUT_INT_ENABLE_BIT
                })
            },
    {
        self.select_mux_channel()?;
        self.clear_reg_bits_raw(REG_EEPROM_CLKOUT, CLKOUT_FREQ_SELECTION_BITS)?;
        self.set_reg_bits_raw(REG_EEPROM_CLKOUT, clockout_bits(rate))?;
        self.set_or_clear_reg_bits_raw(
            REG_EEPROM_BACKUP_CONFIG,
            CLOCKOUT_OUTPUT_ENABLE_BIT,
            !int_enable,
        )?;
        self.set_or_clear_reg_bits_raw(REG_CONTROL2, CLOCKOUT_INT_ENABLE_BIT, int_enable)
    }

    /// Enable or disable trickle charging.  Charging is first disabled
    /// and the limiting resistance reset to the 3 kOhm factory default;
    /// when enabling, the requested resistance and the enable bit are
    /// then set.  Returns the enable bit read back from the device.
    /// - `enable` enables trickle charging if true, disables if false
    /// - `limit_resistance` sets the current limiting resistor value
    pub fn config_trickle_charge(
        &mut self,
        enable: bool,
        limit_resistance: TrickleChargeCurrentLimiter,
    ) -> (r: Result<bool, B::Error>)
        ensures
            (r matches Ok(v) ==> {
                &&& old(self).evolves(*final(self), set![REG_EEPROM_BACKUP_CONFIG])
                &&& final(self).reg(REG_EEPROM_BACKUP_CONFIG) == ({
                    let cleared = (old(self).reg(REG_EEPROM_BACKUP_CONFIG)
                        & !TRICKLE_CHARGE_ENABLE_BIT) & !TRICKLE_CHARGE_RESISTANCE_BITS;
                    if enable {
                        (cleared | spec_trickle_bits(limit_resistance)) | TRICKLE_CHARGE_ENABLE_BIT
                    } else {
                        cleared
                    }
                })
                &&& v == enable
            }),
    {
        self.select_mux_channel()?;
        self.clear_reg_bits_raw(REG_EEPROM_BACKUP_CONFIG, TRICKLE_CHARGE_ENABLE_BIT)?;
        self.clear_reg_bits_raw(REG_EEPROM_BACKUP_CONFIG, TRICKLE_CHARGE_RESISTANCE_BITS)?;
        if enable {
            self.set_reg_bits_raw(REG_EEPROM_BACKUP_CONFIG, trickle_bits(limit_resistance))?;
            self.set_reg_bits_raw(REG_EEPROM_BACKUP_CONFIG, TRICKLE_CHARGE_ENABLE_BIT)?;
        }
        let conf_val = self.check_bits_nonzero_raw(
            REG_EEPROM_BACKUP_CONFIG,
            TRICKLE_CHARGE_ENABLE_BIT,
        )?;
        proof {
            let b = old(self).reg(REG_EEPROM_BACKUP_CONFIG);
            let t = spec_trickle_bits(limit_resistance);
            assert(((((b & !TRICKLE_CHARGE_ENABLE_BIT) & !TRICKLE_CHARGE_RESISTANCE_BITS) | t)
                | TRICKLE_CHARGE_ENABLE_BIT) & TRICKLE_CHARGE_ENABLE_BIT != 0) by (bit_vector);
            assert((((b & !TRICKLE_CHARGE_ENABLE_BIT) & !TRICKLE_CHARGE_RESISTANCE_BITS)
                & TRICKLE_CHARGE_ENABLE_BIT) == 0) by (bit_vector);
        }
        Ok(conf_val)
    }

    /// The value of the Control 1 register after the countdown timer has
    /// been configured: timer stopped, repeat flag as requested, and the
    /// frequency-select bits set to the chosen clock.
    pub open spec fn spec_pct_control1(c: u8, freq: TimerClockFreq, repeat: bool) -> u8 {
        let stopped = c & !TIMER_ENABLE_BIT;
        let repeated = if repeat {
            stopped | TIMER_REPEAT_BIT
        } else {
            stopped & !TIMER_REPEAT_BIT
        };
        (repeated & !TIMER_CLOCK_FREQ_BITS) | spec_freq_bits(freq)
    }

    /// Configure the periodic countdown timer prior to the next
    /// countdown: stop the timer, set the repeat flag and the clock
    /// frequency, load the 12-bit preset value in one write, and clear
    /// the expiry flag.
    fn config_pct_raw(&mut self, value: u16, freq: TimerClockFreq, repeat: bool) -> (r: Result<
        (),
        B::Error,
    >)
        ensures
            r is Ok ==> {
                &&& old(self).evolves(
                    *final(self),
                    set![REG_CONTROL1, REG_TIMER_VALUE0, REG_TIMER_VALUE1, REG_STATUS],
                )
                &&& final(self).reg(REG_CONTROL1) == Self::spec_pct_control1(
                    old(self).reg(REG_CONTROL1),
                    freq,
                    repeat,
                )
                &&& final(self).reg(REG_CONTROL1) & TIMER_ENABLE_BIT == 0
                &&& final(self).reg(REG_TIMER_VALUE0) == (value & 0xFF) as u8
                &&& final(self).reg(REG_TIMER_VALUE1) == ((value >> 8) & 0x0F) as u8
                &&& final(self).reg(REG_STATUS) == (old(self).reg(REG_STATUS)
                    & !PERIODIC_TIMER_FLAG)
            },
    {
        let value_high: u8 = ((value >> 8) as u8) & 0x0F;
        let value_low: u8 = (value & 0xFF) as u8;

        self.clear_reg_bits_raw(REG_CONTROL1, TIMER_ENABLE_BIT)?;
        self.set_or_clear_reg_bits_raw(REG_CONTROL1, TIMER_REPEAT_BIT, repeat)?;
        self.clear_reg_bits_raw(REG_CONTROL1, TIMER_CLOCK_FREQ_BITS)?;
        self.set_reg_bits_raw(REG_CONTROL1, freq_bits(freq))?;

        let frame: [u8; 3] = [REG_TIMER_VALUE0, value_low, value_high];
        self.i2c.bus_write(RV3028_ADDRESS, frame.as_slice())?;

        self.clear_reg_bits_raw(REG_STATUS, PERIODIC_TIMER_FLAG)?;
        proof {
            let c = old(self).reg(REG_CONTROL1);
            let f = spec_freq_bits(freq);
            assert(((value >> 8) as u8) & 0x0F == ((value >> 8) & 0x0F) as u8) by (bit_vector);
            assert(f <= 3 ==> ((((c & !TIMER_ENABLE_BIT) | TIMER_REPEAT_BIT)
                & !TIMER_CLOCK_FREQ_BITS) | f) & TIMER_ENABLE_BIT == 0) by (bit_vector);
            assert(f <= 3 ==> ((((c & !TIMER_ENABLE_BIT) & !TIMER_REPEAT_BIT)
                & !TIMER_CLOCK_FREQ_BITS) | f) & TIMER_ENABLE_BIT == 0) by (bit_vector);
        }
        Ok(())
    }

    /// Prepare the periodic countdown timer for a countdown of the
    /// requested duration, and optionally start it.  Returns the
    /// achievable duration, which differs from the request by up to one
    /// tick period (see the selection cascade).
    /// - `repeat`: if true the countdown repeats as a periodic timer; if
    ///   false it runs once
    /// - `start`: if true, start the countdown
    pub fn config_countdown_timer(&mut self, duration: &Duration, repeat: bool, start: bool) -> (r:
        Result<Duration, B::Error>)
        requires
            duration.wf(),
        ensures
            (r matches Ok(ach) ==> {
                let sel = spec_pct_selection(duration.spec_micros());
                &&& old(self).evolves(
                    *final(self),
                    set![REG_CONTROL1, REG_TIMER_VALUE0, REG_TIMER_VALUE1, REG_STATUS],
                )
                &&& ach.spec_micros() == sel.2
                &&& ach.wf()
                &&& final(self).reg(REG_TIMER_VALUE0) == (sel.0 & 0xFF) as u8
                &&& final(self).reg(REG_TIMER_VALUE1) == ((sel.0 >> 8) & 0x0F) as u8
                &&& final(self).reg(REG_CONTROL1) == (if start {
                    Self::spec_pct_control1(old(self).reg(REG_CONTROL1), sel.1, repeat)
                        | TIMER_ENABLE_BIT
                } else {
                    Self::spec_pct_control1(old(self).reg(REG_CONTROL1), sel.1, repeat)
                })
                &&& final(self).reg(REG_STATUS) == (old(self).reg(REG_STATUS)
                    & !PERIODIC_TIMER_FLAG)
            }),
    {
        let (ticks, freq, estimated) = pct_ticks_and_rate_for_duration(duration);

        self.select_mux_channel()?;
        self.config_pct_raw(ticks, freq, repeat)?;
        if start {
            self.set_reg_bits_raw(REG_CONTROL1, TIMER_ENABLE_BIT)?;
        }
        Ok(estimated)
    }

    /// Read the live value of the periodic countdown timer, which is only
    /// valid after the timer has been enabled.  The meaning of the value
    /// depends on the configured clock frequency.
    pub fn get_countdown_value(&mut self) -> (r: Result<u16, B::Error>)
        ensures
            r is Ok ==> old(self).evolves(*final(self), set![]),
            (r matches Ok(v) ==> v == ((old(self).reg(REG_TIMER_STATUS1) as u16) << 8) | (old(
                self,
            ).reg(REG_TIMER_STATUS0) as u16)),
    {
        let buf = self.read_multi_registers(REG_TIMER_STATUS0, 2)?;
        let value = ((buf[1] as u16) << 8) | (buf[0] as u16);
        Ok(value)
    }

    /// The value of the event control register after external event
    /// detection has been configured.
    pub open spec fn spec_event_control_cfg(e: u8, rising: bool, filtering: u8) -> u8 {
        let edged = if rising {
            e | EVENT_HIGH_LOW_BIT
        } else {
            e & !EVENT_HIGH_LOW_BIT
        };
        let unfiltered = edged & !EVENT_FILTERING_TIME_BITS;
        if filtering != 0 {
            unfiltered | (filtering << 4)
        } else {
            unfiltered
        }
    }

    /// Configure event detection on the EVI pin, following the
    /// hardware-mandated sequence: disable the event interrupt, clear the
    /// event flag, choose the edge, choose edge detection or level
    /// detection with filtering, and re-enable outputs as requested.
    /// - `rising`: detect rising edge / high level rather than falling /
    ///   low
    /// - `int_enable`: generate an interrupt on the INT pin on events
    /// - `filtering`: event filtering time, 0 selects plain edge
    ///   detection
    /// - `clockout_enable`: enable clock output when an event occurs
    pub fn config_ext_event_detection(
        &mut self,
        rising: bool,
        int_enable: bool,
        filtering: u8,
        clockout_enable: bool,
    ) -> (r: Result<(), B::Error>)
        requires
            filtering <= 0b11,
        ensures
            r is Ok ==> {
                &&& old(self).evolves(
                    *final(self),
                    set![REG_CONTROL2, REG_STATUS, REG_EVENT_CONTROL, REG_CLOCK_INTERRUPT_MASK],
                )
                &&& final(self).reg(REG_STATUS) == (old(self).reg(REG_STATUS) & !EVENT_FLAG_BIT)
                &&& final(self).reg(REG_EVENT_CONTROL) == Self::spec_event_control_cfg(
                    old(self).reg(REG_EVENT_CONTROL),
                    rising,
                    filtering,
                )
                &&& final(self).reg(REG_CLOCK_INTERRUPT_MASK) == (if clockout_enable {
                    old(self).reg(REG_CLOCK_INTERRUPT_MASK) | CLOCKOUT_ON_EXT_EVT_BIT
                } else {
                    old(self).reg(REG_CLOCK_INTERRUPT_MASK) & !CLOCKOUT_ON_EXT_EVT_BIT
                })
                &&& final(self).reg(REG_CONTROL2) == (if int_enable {
                    old(self).reg(REG_CONTROL2) | EVENT_INT_ENABLE_BIT
                } else {
                    old(self).reg(REG_CONTROL2) & !EVENT_INT_ENABLE_BIT
                })
            },
    {
        self.select_mux_channel()?;
        self.clear_reg_bits_raw(REG_CONTROL2, EVENT_INT_ENABLE_BIT)?;
        self.clear_reg_bits_raw(REG_STATUS, EVENT_FLAG_BIT)?;
        self.set_or_clear_reg_bits_raw(REG_EVENT_CONTROL, EVENT_HIGH_LOW_BIT, rising)?;
        self.clear_reg_bits_raw(REG_EVENT_CONTROL, EVENT_FILTERING_TIME_BITS)?;
        if 0 != filtering {
            self.set_reg_bits_raw(REG_EVENT_CONTROL, filtering << 4u8)?;
        }
        self.set_or_clear_reg_bits_raw(
            REG_CLOCK_INTERRUPT_MASK,
            CLOCKOUT_ON_EXT_EVT_BIT,
            clockout_enable,
        )?;
        self.set_or_clear_reg_bits_raw(REG_CONTROL2, EVENT_INT_ENABLE_BIT, int_enable)?;
        proof {
            lemma_set_or_clear_after_clear(old(self).reg(REG_CONTROL2), EVENT_INT_ENABLE_BIT);
        }
        Ok(())
    }

    /// All-in-one method to set an alarm; only day (or weekday), hour and
    /// minute are supported.  Clears the alarm flag, selects weekday or
    /// date mode, writes the three alarm field registers, and clears the
    /// alarm flag again in case the partial writes momentarily produced a
    /// matching state and fired the alarm mid-configuration.
    /// - If `weekday` is provided a weekday alarm is set up rather than a
    ///   date alarm
    /// - `match_day`, `match_hour`, `match_minute` say whether the day
    ///   (or weekday), hour and minute take part in the match
    pub fn set_alarm(
        &mut self,
        datetime: &DateTime,
        weekday: Option<u8>,
        match_day: bool,
        match_hour: bool,
        match_minute: bool,
    ) -> (r: Result<(), B::Error>)
        requires
            datetime.minute < 60,
            datetime.hour < 24,
            datetime.day <= 31,
            (weekday matches Some(w) ==> w < 7),
        ensures
            r is Ok ==> {
                &&& old(self).evolves(
                    *final(self),
                    set![REG_STATUS, REG_CONTROL1, REG_MINUTES_ALARM, REG_HOURS_ALARM,
                        REG_WEEKDAY_DATE_ALARM],
                )
                &&& final(self).reg(REG_MINUTES_ALARM) == spec_alarm_field_enc(
                    datetime.minute,
                    match_minute,
                )
                &&& final(self).reg(REG_HOURS_ALARM) == spec_alarm_field_enc(
                    datetime.hour,
                    match_hour,
                )
                &&& final(self).reg(REG_WEEKDAY_DATE_ALARM) == spec_alarm_field_enc(
                    (if weekday is Some {
                        weekday->0
                    } else {
                        datetime.day
                    }),
                    match_day,
                )
                &&& final(self).reg(REG_CONTROL1) == (if weekday is Some {
                    old(self).reg(REG_CONTROL1) & !WADA_BIT
                } else {
                    old(self).reg(REG_CONTROL1) | WADA_BIT
                })
                &&& final(self).reg(REG_STATUS) == (old(self).reg(REG_STATUS) & !ALARM_FLAG_BIT)
                &&& final(self).reg(REG_STATUS) & ALARM_FLAG_BIT == 0
            },
    {
        self.select_mux_channel()?;
        self.clear_reg_bits_raw(REG_STATUS, ALARM_FLAG_BIT)?;

        // WADA clear selects a weekday alarm, WADA set a date alarm.
        self.set_or_clear_reg_bits_raw(REG_CONTROL1, WADA_BIT, !weekday.is_some())?;

        let bcd_minute = bin_to_bcd(datetime.minute);
        self.write_register_raw(
            REG_MINUTES_ALARM,
            if match_minute {
                bcd_minute
            } else {
                ALARM_NO_WATCH_FLAG | bcd_minute
            },
        )?;

        let bcd_hour = bin_to_bcd(datetime.hour);
        self.write_register_raw(
            REG_HOURS_ALARM,
            if match_hour {
                bcd_hour
            } else {
                ALARM_NO_WATCH_FLAG | bcd_hour
            },
        )?;

        if let Some(inner_weekday) = weekday {
            let bcd_weekday = bin_to_bcd(inner_weekday);
            self.write_register_raw(
                REG_WEEKDAY_DATE_ALARM,
                if match_day {
                    bcd_weekday
                } else {
                    ALARM_NO_WATCH_FLAG | bcd_weekday
                },
            )?;
        } else {
            let bcd_day = bin_to_bcd(datetime.day);
            self.write_register_raw(
                REG_WEEKDAY_DATE_ALARM,
                if match_day {
                    bcd_day
                } else {
                    ALARM_NO_WATCH_FLAG | bcd_day
                },
            )?;
        }

        self.clear_reg_bits_raw(REG_STATUS, ALARM_FLAG_BIT)?;
        proof {
            lemma_set_or_clear_after_clear(old(self).reg(REG_STATUS), ALARM_FLAG_BIT);
        }
        Ok(())
    }

    /// Read the alarm settings back: the mode bit, the three field
    /// registers, and the match flag decoded from the top bit of each.
    /// In weekday mode the decoded weekday is returned separately and the
    /// datetime's day is left at 1; the returned datetime carries only
    /// the alarm fields (day, hour, minute), its calendar fields hold
    /// epoch defaults.
    pub fn get_alarm_datetime_wday_matches(&mut self) -> (r: Result<
        (DateTime, Option<u8>, bool, bool, bool),
        B::Error,
    >)
        ensures
            r is Ok ==> old(self).evolves(*final(self), set![]),
            (r matches Ok(t) ==> {
                &&& t.0.year == 1970 && t.0.month == 1 && t.0.weekday == 3 && t.0.second == 0
                &&& t.0.minute == spec_alarm_field_value(old(self).reg(REG_MINUTES_ALARM))
                &&& t.0.hour == spec_alarm_field_value(old(self).reg(REG_HOURS_ALARM))
                &&& (if old(self).reg(REG_CONTROL1) & WADA_BIT == 0 {
                    t.1 == Some(spec_alarm_field_value(old(self).reg(REG_WEEKDAY_DATE_ALARM)))
                        && t.0.day == 1
                } else {
                    t.1 is None && t.0.day == spec_alarm_field_value(
                        old(self).reg(REG_WEEKDAY_DATE_ALARM),
                    )
                })
                &&& t.2 == spec_alarm_field_watched(old(self).reg(REG_WEEKDAY_DATE_ALARM))
                &&& t.3 == spec_alarm_field_watched(old(self).reg(REG_HOURS_ALARM))
                &&& t.4 == spec_alarm_field_watched(old(self).reg(REG_MINUTES_ALARM))
            }),
    {
        self.select_mux_channel()?;

        let raw_day = self.read_register_raw(REG_WEEKDAY_DATE_ALARM)?;
        let match_day = 0 == (raw_day & ALARM_NO_WATCH_FLAG);
        let day = bcd_to_bin(0x7F & raw_day);

        let raw_hour = self.read_register_raw(REG_HOURS_ALARM)?;
        let match_hour = 0 == (raw_hour & ALARM_NO_WATCH_FLAG);
        let hour = bcd_to_bin(0x7F & raw_hour);

        let raw_minutes = self.read_register_raw(REG_MINUTES_ALARM)?;
        let match_minutes = 0 == (raw_minutes & ALARM_NO_WATCH_FLAG);
        let minutes = bcd_to_bin(0x7F & raw_minutes);

        let wada_state = self.read_register_raw(REG_CONTROL1)? & WADA_BIT;

        let mut weekday: Option<u8> = None;
        let dt = if 0 == wada_state {
            weekday = Some(day);
            DateTime { year: 1970, month: 1, day: 1, weekday: 3, hour, minute: minutes, second: 0 }
        } else {
            DateTime { year: 1970, month: 1, day, weekday: 3, hour, minute: minutes, second: 0 }
        };
        proof {
            let c1 = old(self).reg(REG_CONTROL1);
            assert((c1 & WADA_BIT) == 0 <==> c1 & WADA_BIT == 0) by (bit_vector);
            let b = old(self).reg(REG_WEEKDAY_DATE_ALARM);
            assert(0x7F & b == b & 0x7F) by (bit_vector);
            let h = old(self).reg(REG_HOURS_ALARM);
            assert(0x7F & h == h & 0x7F) by (bit_vector);
            let m = old(self).reg(REG_MINUTES_ALARM);
            assert(0x7F & m == m & 0x7F) by (bit_vector);
        }
        Ok((dt, weekday, match_day, match_hour, match_minutes))
    }

    /// Enable or disable the time stamp function for event logging.
    pub fn toggle_timestamp_logging(&mut self, enable: bool) -> (r: Result<(), B::Error>)
        ensures
            r is Ok ==> old(self).evolves(*final(self), set![REG_CONTROL2]) && final(self).reg(
                REG_CONTROL2,
            ) == (if enable {
                old(self).reg(REG_CONTROL2) | TIME_STAMP_ENABLE_BIT
            } else {
                old(self).reg(REG_CONTROL2) & !TIME_STAMP_ENABLE_BIT
            }),
    {
        self.set_or_clear_reg_bits(REG_CONTROL2, TIME_STAMP_ENABLE_BIT, enable)
    }

    /// Clear out any logged event timestamps by pulsing the time stamp
    /// reset bit, leaving the enable, source and overwrite configuration
    /// untouched.
    pub fn reset_timestamp_log(&mut self) -> (r: Result<(), B::Error>)
        ensures
            r is Ok ==> old(self).evolves(*final(self), set![REG_EVENT_CONTROL]) && final(self).reg(
                REG_EVENT_CONTROL,
            ) == (old(self).reg(REG_EVENT_CONTROL) | TIME_STAMP_RESET_BIT),
    {
        self.select_mux_channel()?;
        self.set_reg_bits_raw(REG_EVENT_CONTROL, TIME_STAMP_RESET_BIT)
    }

    /// Enable or disable event time stamp overwriting.  When disabled
    /// (the default) the first event time stamp since the last reset is
    /// kept; when enabled the most recent one is kept.
    pub fn toggle_time_stamp_overwrite(&mut self, enable: bool) -> (r: Result<(), B::Error>)
        ensures
            r is Ok ==> old(self).evolves(*final(self), set![REG_EVENT_CONTROL]) && final(self).reg(
                REG_EVENT_CONTROL,
            ) == (if enable {
                old(self).reg(REG_EVENT_CONTROL) | TIME_STAMP_OVERWRITE_BIT
            } else {
                old(self).reg(REG_EVENT_CONTROL) & !TIME_STAMP_OVERWRITE_BIT
            }),
    {
        self.set_or_clear_reg_bits(REG_EVENT_CONTROL, TIME_STAMP_OVERWRITE_BIT, enable)
    }

    /// Select a source for the events to be logged: the backup power
    /// switchover when `source` selects it, the external EVI pin
    /// otherwise.
    pub fn set_event_timestamp_source(&mut self, source: u8) -> (r: Result<(), B::Error>)
        ensures
            r is Ok ==> old(self).evolves(*final(self), set![REG_EVENT_CONTROL]) && final(self).reg(
                REG_EVENT_CONTROL,
            ) == (if source == TS_EVENT_SOURCE_BSF {
                old(self).reg(REG_EVENT_CONTROL) | TIME_STAMP_SOURCE_BIT
            } else {
                old(self).reg(REG_EVENT_CONTROL) & !TIME_STAMP_SOURCE_BIT
            }),
    {
        let enable = TS_EVENT_SOURCE_BSF == source;
        self.set_or_clear_reg_bits(REG_EVENT_CONTROL, TIME_STAMP_SOURCE_BIT, enable)
    }

    /// The value of the event control register after time stamp logging
    /// has been configured: source and overwrite policy as requested, and
    /// the reset bit pulsed.
    pub open spec fn spec_ts_log_event_control(e: u8, enable_bsf: bool, overwrite: bool) -> u8 {
        let sourced = if enable_bsf {
            e | TIME_STAMP_SOURCE_BIT
        } else {
            e & !TIME_STAMP_SOURCE_BIT
        };
        let policed = if overwrite {
            sourced | TIME_STAMP_OVERWRITE_BIT
        } else {
            sourced & !TIME_STAMP_OVERWRITE_BIT
        };
        policed | TIME_STAMP_RESET_BIT
    }

    /// Set up time stamp logging for events, following the five-step
    /// hardware-mandated sequence: disable logging, clear the event and
    /// backup-switchover flags, select the event source, set the
    /// overwrite policy, pulse the log reset bit, then optionally start
    /// capturing.
    /// - `evt_source` selects the source, backup switchover or the EVI
    ///   pin
    /// - `overwrite` keeps the most recent event rather than the first
    /// - `start` begins capturing immediately
    pub fn config_timestamp_logging(&mut self, evt_source: u8, overwrite: bool, start: bool) -> (r:
        Result<(), B::Error>)
        ensures
            r is Ok ==> {
                &&& old(self).evolves(
                    *final(self),
                    set![REG_CONTROL2, REG_STATUS, REG_EVENT_CONTROL],
                )
                &&& final(self).reg(REG_STATUS) == (old(self).reg(REG_STATUS) & !(EVENT_FLAG_BIT
                    | BACKUP_SWITCH_FLAG))
                &&& final(self).reg(REG_EVENT_CONTROL) == Self::spec_ts_log_event_control(
                    old(self).reg(REG_EVENT_CONTROL),
                    evt_source == TS_EVENT_SOURCE_BSF,
                    overwrite,
                )
                &&& final(self).reg(REG_CONTROL2) == (if start {
                    old(self).reg(REG_CONTROL2) | TIME_STAMP_ENABLE_BIT
                } else {
                    old(self).reg(REG_CONTROL2) & !TIME_STAMP_ENABLE_BIT
                })
            },
    {
        self.select_mux_channel()?;
        self.clear_reg_bits_raw(REG_CONTROL2, TIME_STAMP_ENABLE_BIT)?;
        self.clear_reg_bits_raw(REG_STATUS, EVENT_FLAG_BIT | BACKUP_SWITCH_FLAG)?;
        let enable_bsf = evt_source == TS_EVENT_SOURCE_BSF;
        self.set_or_clear_reg_bits_raw(REG_EVENT_CONTROL, TIME_STAMP_SOURCE_BIT, enable_bsf)?;
        self.set_or_clear_reg_bits_raw(REG_EVENT_CONTROL, TIME_STAMP_OVERWRITE_BIT, overwrite)?;
        self.set_reg_bits_raw(REG_EVENT_CONTROL, TIME_STAMP_RESET_BIT)?;
        self.set_or_clear_reg_bits_raw(REG_CONTROL2, TIME_STAMP_ENABLE_BIT, start)?;
        proof {
            lemma_set_or_clear_after_clear(old(self).reg(REG_CONTROL2), TIME_STAMP_ENABLE_BIT);
        }
        Ok(())
    }

    /// Get the number of events logged since logging was enabled, and the
    /// captured BCD timestamp of one event (the first or the most recent,
    /// per the overwrite policy).  When the count is zero no timestamp is
    /// returned.  The timestamp registers carry no weekday, so the
    /// returned weekday is 0.
    pub fn get_event_count_and_datetime(&mut self) -> (r: Result<
        (u32, Option<DateTime>),
        B::Error,
    >)
        ensures
            r is Ok ==> old(self).evolves(*final(self), set![]),
            (r matches Ok(t) ==> {
                &&& t.0 == old(self).reg(REG_COUNT_EVENTS_TS) as u32
                &&& (if old(self).reg(REG_COUNT_EVENTS_TS) == 0 {
                    t.1 is None
                } else {
                    t.1 matches Some(dt) && dt == (DateTime {
                        year: (2000 + spec_bcd_to_bin(old(self).reg(REG_YEAR_TS))) as u16,
                        month: spec_bcd_to_bin(old(self).reg(REG_MONTH_TS)),
                        day: spec_bcd_to_bin(old(self).reg(REG_DATE_TS)),
                        weekday: 0,
                        hour: spec_bcd_to_bin(old(self).reg(REG_HOURS_TS)),
                        minute: spec_bcd_to_bin(old(self).reg(REG_MINUTES_TS)),
                        second: spec_bcd_to_bin(old(self).reg(REG_SECONDS_TS)),
                    })
                })
            }),
    {
        let buf = self.read_multi_registers(REG_COUNT_EVENTS_TS, 7)?;

        let count = buf[0];

        let odt = if count > 0 {
            let seconds = bcd_to_bin(buf[1]);
            let minutes = bcd_to_bin(buf[2]);
            let hours = bcd_to_bin(buf[3]);
            let date = bcd_to_bin(buf[4]);
            let month = bcd_to_bin(buf[5]);
            let year: u16 = bcd_to_bin(buf[6]) as u16 + 2000;
            Some(
                DateTime {
                    year,
                    month,
                    day: date,
                    weekday: 0,
                    hour: hours,
                    minute: minutes,
                    second: seconds,
                },
            )
        } else {
            None
        };

        Ok((count as u32, odt))
    }

    /// Is the EEPROM currently busy with an internal transfer.
    fn is_eeprom_busy_raw(&mut self) -> (r: Result<bool, B::Error>)
        ensures
            old(self).evolves(*final(self), set![]),
            (r matches Ok(v) ==> v == ((old(self).reg(REG_STATUS) & EEPROM_BUSY_BIT) != 0)),
    {
        let status = self.read_register_raw(REG_STATUS)?;
        Ok(status & EEPROM_BUSY_BIT != 0)
    }

    /// Enable or disable automatic EEPROM refresh from the RAM mirror.
    fn toggle_auto_eeprom_refresh_raw(&mut self, disable: bool) -> (r: Result<(), B::Error>)
        ensures
            r is Ok ==> old(self).evolves(*final(self), set![REG_CONTROL1]) && final(self).reg(
                REG_CONTROL1,
            ) == (if disable {
                old(self).reg(REG_CONTROL1) | EERD_BIT
            } else {
                old(self).reg(REG_CONTROL1) & !EERD_BIT
            }),
    {
        self.set_or_clear_reg_bits_raw(REG_CONTROL1, EERD_BIT, disable)
    }

    /// Poll the busy flag until the EEPROM is idle.  EEPROM operations
    /// are documented as sub-millisecond, so the poll is bounded; after
    /// the last attempt the driver proceeds regardless.
    fn wait_eeprom_idle_raw(&mut self) -> (r: Result<(), B::Error>)
        ensures
            r is Ok ==> old(self).evolves(*final(self), set![]),
    {
        let ghost orig = *self;
        let mut spins: u16 = 4096;
        loop
            invariant
                orig == *old(self),
                orig.evolves(*self, set![]),
            decreases spins as int,
        {
            if !self.is_eeprom_busy_raw()? {
                return Ok(());
            }
            if spins == 0 {
                return Ok(());
            }
            spins = spins - 1;
        }
    }

    /// Read `n` consecutive bytes from the EEPROM, starting at
    /// `start_ee_address`, through the address, command and data
    /// registers; automatic refresh is suspended around the sequence.
    fn eeprom_multi_read_raw(&mut self, start_ee_address: u8, n: usize) -> (r: Result<
        Vec<u8>,
        B::Error,
    >)
        requires
            start_ee_address + n <= 256,
        ensures
            r is Ok ==> {
                &&& old(self).evolves(
                    *final(self),
                    set![REG_CONTROL1, REG_EEPROM_EE_ADDRESS, REG_EEPROM_EE_CMD,
                        REG_EEPROM_EE_DATA],
                )
                &&& final(self).reg(REG_CONTROL1) == (old(self).reg(REG_CONTROL1) & !EERD_BIT)
            },
            (r matches Ok(b) ==> b@.len() == n && forall|i: int|
                0 <= i < n ==> b@[i] == old(self).nvm((start_ee_address + i) as u8)),
    {
        let ghost orig = *self;
        self.toggle_auto_eeprom_refresh_raw(true)?;
        self.wait_eeprom_idle_raw()?;
        let mut read_buf: Vec<u8> = Vec::new();
        let mut i: usize = 0;
        while i < n
            invariant
                orig == *old(self),
                start_ee_address + n <= 256,
                i <= n,
                read_buf@.len() == i,
                forall|j: int| 0 <= j < i ==> read_buf@[j] == orig.nvm((start_ee_address + j) as u8),
                orig.evolves_regs(
                    *self,
                    set![REG_CONTROL1, REG_EEPROM_EE_ADDRESS, REG_EEPROM_EE_CMD,
                        REG_EEPROM_EE_DATA],
                ),
                orig.nvm_unchanged(*self),
                self.reg(REG_CONTROL1) == (orig.reg(REG_CONTROL1) | EERD_BIT),
            decreases n - i,
        {
            let ee_address = start_ee_address + (i as u8);
            self.write_register_raw(REG_EEPROM_EE_ADDRESS, ee_address)?;
            self.wait_eeprom_idle_raw()?;
            self.write_ee_cmd_raw(EE_CMD_FIRST)?;
            self.wait_eeprom_idle_raw()?;
            self.write_ee_cmd_raw(EE_CMD_READ_ONE)?;
            self.wait_eeprom_idle_raw()?;
            let byte = self.read_register_raw(REG_EEPROM_EE_DATA)?;
            read_buf.push(byte);
            i = i + 1;
        }
        self.wait_eeprom_idle_raw()?;
        self.toggle_auto_eeprom_refresh_raw(false)?;
        proof {
            let c1 = old(self).reg(REG_CONTROL1);
            assert(((c1 | EERD_BIT) & !EERD_BIT) == (c1 & !EERD_BIT)) by (bit_vector);
        }
        Ok(read_buf)
    }

    /// Update all of the EEPROM configuration bytes from their RAM
    /// mirror registers; automatic refresh is suspended around the
    /// command.
    fn eeprom_update_all_raw(&mut self) -> (r: Result<(), B::Error>)
        ensures
            r is Ok ==> {
                &&& old(self).evolves_regs(
                    *final(self),
                    set![REG_CONTROL1, REG_EEPROM_EE_CMD, REG_EEPROM_EE_DATA],
                )
                &&& final(self).reg(REG_CONTROL1) == (old(self).reg(REG_CONTROL1) & !EERD_BIT)
                &&& old(self).nvm_updated(*final(self))
                &&& forall|a: u8|
                    REG_EEPROM_PASSWORD_ENABLE <= a <= REG_EEPROM_BACKUP_CONFIG
                        ==> #[trigger] final(self).nvm(a) == old(self).reg(a)
            },
    {
        let ghost orig = *self;
        self.toggle_auto_eeprom_refresh_raw(true)?;
        self.wait_eeprom_idle_raw()?;
        self.write_ee_cmd_raw(EE_CMD_FIRST)?;
        self.wait_eeprom_idle_raw()?;
        self.write_ee_cmd_raw(EE_CMD_UPDATE_ALL)?;
        self.wait_eeprom_idle_raw()?;
        self.toggle_auto_eeprom_refresh_raw(false)?;
        proof {
            let c1 = old(self).reg(REG_CONTROL1);
            assert(((c1 | EERD_BIT) & !EERD_BIT) == (c1 & !EERD_BIT)) by (bit_vector);
        }
        Ok(())
    }

    /// Enter the volatile user password that unlocks writes to the
    /// write-protected registers, in one four-byte transaction.
    pub fn enter_user_password(&mut self, pass: &[u8; 4]) -> (r: Result<(), B::Error>)
        ensures
            r is Ok ==> {
                &&& old(self).evolves(
                    *final(self),
                    set![REG_USER_PASSWORD_0, REG_USER_PASSWORD_1, REG_USER_PASSWORD_2,
                        REG_USER_PASSWORD_3],
                )
                &&& final(self).reg(REG_USER_PASSWORD_0) == pass@[0]
                &&& final(self).reg(REG_USER_PASSWORD_1) == pass@[1]
                &&& final(self).reg(REG_USER_PASSWORD_2) == pass@[2]
                &&& final(self).reg(REG_USER_PASSWORD_3) == pass@[3]
            },
    {
        self.select_mux_channel()?;
        proof {
            // Selecting the mux channel disturbs no device state; naming
            // both models grounds them for the later register reasoning.
            let pre = old(self).model();
            let mid = self.model();
            assert(forall|d: u8, r: u8| #[trigger] mid.reg(d, r) == pre.reg(d, r));
            assert(forall|d: u8, a: u8| #[trigger] mid.nv(d, a) == pre.nv(d, a));
        }
        let frame: [u8; 5] = [REG_USER_PASSWORD_0, pass[0], pass[1], pass[2], pass[3]];
        self.i2c.bus_write(RV3028_ADDRESS, frame.as_slice())
    }

    /// Enable or disable write protection by writing 255 or 0 into the
    /// password-enable register, and return the value read back, not the
    /// requested value: a write attempted while the device is still
    /// locked with a wrong current password is a silent no-op, detectable
    /// only through this read-back — a semantic no-op, not a reported
    /// error.  Enabling always leaves the register at 255 (a locked
    /// device already holds 255 there); disabling succeeds only while
    /// unlocked.
    pub fn toggle_write_protect_enabled(&mut self, enable: bool) -> (r: Result<bool, B::Error>)
        ensures
            (r matches Ok(v) ==> {
                &&& old(self).evolves(*final(self), set![REG_EEPROM_PASSWORD_ENABLE])
                &&& final(self).reg(REG_EEPROM_PASSWORD_ENABLE) == (if old(self).spec_wp_locked() {
                    old(self).reg(REG_EEPROM_PASSWORD_ENABLE)
                } else if enable {
                    255u8
                } else {
                    0u8
                })
                &&& enable ==> final(self).reg(REG_EEPROM_PASSWORD_ENABLE) == 255
                &&& v == (final(self).reg(REG_EEPROM_PASSWORD_ENABLE) == 255)
            }),
    {
        self.select_mux_channel()?;
        proof {
            // Selecting the mux channel disturbs no device state; naming
            // both models grounds them for the later register reasoning.
            let pre = old(self).model();
            let mid = self.model();
            assert(forall|d: u8, r: u8| #[trigger] mid.reg(d, r) == pre.reg(d, r));
            assert(forall|d: u8, a: u8| #[trigger] mid.nv(d, a) == pre.nv(d, a));
        }
        self.write_register_raw(REG_EEPROM_PASSWORD_ENABLE, if enable { 255 } else { 0 })?;
        let reg_val = self.read_register_raw(REG_EEPROM_PASSWORD_ENABLE)?;
        Ok(reg_val == 255)
    }

    /// Check whether write protection is enabled for all registers marked
    /// as write protected.
    pub fn check_write_protect_enabled(&mut self) -> (r: Result<bool, B::Error>)
        ensures
            r is Ok ==> old(self).evolves(*final(self), set![]),
            (r matches Ok(v) ==> v == (old(self).reg(REG_EEPROM_PASSWORD_ENABLE) == 255)),
    {
        self.select_mux_channel()?;
        let reg_val = self.read_register_raw(REG_EEPROM_PASSWORD_ENABLE)?;
        Ok(reg_val == 255)
    }

    /// Set the permanent write-protection reference password: write the
    /// four bytes into the EEPROM password mirror registers, set or clear
    /// the enable register, then commit the whole mirror to EEPROM.  The
    /// reference is committed before protection is (re)enabled so that
    /// the device cannot lock with a mismatched reference.
    /// Warning: this modifies EEPROM settings.
    pub fn set_write_protect_password(&mut self, pass: &[u8; 4], enable: bool) -> (r: Result<
        (),
        B::Error,
    >)
        ensures
            r is Ok ==> {
                &&& old(self).evolves_regs(
                    *final(self),
                    set![REG_EEPROM_PASSWORD_0, REG_EEPROM_PASSWORD_1, REG_EEPROM_PASSWORD_2,
                        REG_EEPROM_PASSWORD_3, REG_EEPROM_PASSWORD_ENABLE, REG_CONTROL1,
                        REG_EEPROM_EE_CMD, REG_EEPROM_EE_DATA],
                )
                &&& final(self).nvm(REG_EEPROM_PASSWORD_0) == pass@[0]
                &&& final(self).nvm(REG_EEPROM_PASSWORD_1) == pass@[1]
                &&& final(self).nvm(REG_EEPROM_PASSWORD_2) == pass@[2]
                &&& final(self).nvm(REG_EEPROM_PASSWORD_3) == pass@[3]
                &&& final(self).reg(REG_EEPROM_PASSWORD_ENABLE) == (
                if old(self).spec_wp_locked() {
                    old(self).reg(REG_EEPROM_PASSWORD_ENABLE)
                } else if enable {
                    255u8
                } else {
                    0u8
                })
                &&& final(self).nvm(REG_EEPROM_PASSWORD_ENABLE) == final(self).reg(
                    REG_EEPROM_PASSWORD_ENABLE,
                )
            },
    {
        self.select_mux_channel()?;
        proof {
            // Selecting the mux channel disturbs no device state; naming
            // both models grounds them for the later register reasoning.
            let pre = old(self).model();
            let mid = self.model();
            assert(forall|d: u8, r: u8| #[trigger] mid.reg(d, r) == pre.reg(d, r));
            assert(forall|d: u8, a: u8| #[trigger] mid.nv(d, a) == pre.nv(d, a));
        }
        let frame: [u8; 5] = [REG_EEPROM_PASSWORD_0, pass[0], pass[1], pass[2], pass[3]];
        self.i2c.bus_write(RV3028_ADDRESS, frame.as_slice())?;
        let ghost written = *self;
        proof {
            // The reference-password frame touches neither the enable
            // register, the entered password, nor the non-volatile
            // reference, so the lock state is unchanged.
            assert(written.spec_wp_locked() == old(self).spec_wp_locked());
        }
        self.toggle_write_protect_enabled(enable)?;
        self.eeprom_update_all_raw()?;
        Ok(())
    }

    /// Read the write-protection settings back from EEPROM: the enable
    /// byte and the four reference password bytes.  On real hardware this
    /// only returns the true reference while write protection is already
    /// unlocked.
    pub fn get_write_protect_settings(&mut self) -> (r: Result<(bool, [u8; 4]), B::Error>)
        ensures
            r is Ok ==> old(self).evolves_regs(
                *final(self),
                set![REG_CONTROL1, REG_EEPROM_EE_ADDRESS, REG_EEPROM_EE_CMD, REG_EEPROM_EE_DATA],
            ) && old(self).nvm_unchanged(*final(self)),
            (r matches Ok(t) ==> {
                &&& t.0 == (old(self).nvm(REG_EEPROM_PASSWORD_ENABLE) != 0)
                &&& t.1@[0] == old(self).nvm(REG_EEPROM_PASSWORD_0)
                &&& t.1@[1] == old(self).nvm(REG_EEPROM_PASSWORD_1)
                &&& t.1@[2] == old(self).nvm(REG_EEPROM_PASSWORD_2)
                &&& t.1@[3] == old(self).nvm(REG_EEPROM_PASSWORD_3)
            }),
    {
        self.select_mux_channel()?;
        let read_buf = self.eeprom_multi_read_raw(REG_EEPROM_PASSWORD_ENABLE, 5)?;
        let enabled = 0 != read_buf[0];
        let res: [u8; 4] = [read_buf[1], read_buf[2], read_buf[3], read_buf[4]];
        Ok((enabled, res))
    }

    /// Set the BCD time-of-day registers in one transaction, seconds
    /// first.  Assumes the mux channel has already been selected.
    fn set_time_raw(&mut self, datetime: &DateTime) -> (r: Result<(), B::Error>)
        requires
            datetime.second < 60,
            datetime.minute < 60,
            datetime.hour < 24,
        ensures
            r is Ok ==> {
                &&& old(self).evolves(
                    *final(self),
                    set![REG_SECONDS, REG_MINUTES, REG_HOURS],
                )
                &&& final(self).reg(REG_SECONDS) == spec_bin_to_bcd(datetime.second)
                &&& final(self).reg(REG_MINUTES) == spec_bin_to_bcd(datetime.minute)
                &&& final(self).reg(REG_HOURS) == spec_bin_to_bcd(datetime.hour)
            },
    {
        let frame: [u8; 4] = [
            REG_SECONDS,
            bin_to_bcd(datetime.second),
            bin_to_bcd(datetime.minute),
            bin_to_bcd(datetime.hour),
        ];
        self.i2c.bus_write(RV3028_ADDRESS, frame.as_slice())
    }

    /// Set the BCD calendar registers in one transaction.  Only years
    /// from 2000 to 2099 are supported.  Assumes the mux channel has
    /// already been selected.
    fn set_date_raw(&mut self, datetime: &DateTime) -> (r: Result<(), B::Error>)
        requires
            2000 <= datetime.year <= 2099,
            1 <= datetime.month <= 12,
            datetime.day <= 31,
            datetime.weekday < 7,
        ensures
            r is Ok ==> {
                &&& old(self).evolves(
                    *final(self),
                    set![REG_WEEKDAY, REG_DATE, REG_MONTH, REG_YEAR],
                )
                &&& final(self).reg(REG_WEEKDAY) == spec_bin_to_bcd(datetime.weekday)
                &&& final(self).reg(REG_DATE) == spec_bin_to_bcd(datetime.day)
                &&& final(self).reg(REG_MONTH) == spec_bin_to_bcd(datetime.month)
                &&& final(self).reg(REG_YEAR) == spec_bin_to_bcd((datetime.year - 2000) as u8)
            },
    {
        let year = if datetime.year > 2000 {
            (datetime.year - 2000) as u8
        } else {
            0
        };
        let month = datetime.month % 13;
        let day = datetime.day % 32;
        let weekday = datetime.weekday % 7;

        let frame: [u8; 5] = [
            REG_WEEKDAY,
            bin_to_bcd(weekday),
            bin_to_bcd(day),
            bin_to_bcd(month),
            bin_to_bcd(year),
        ];
        self.i2c.bus_write(RV3028_ADDRESS, frame.as_slice())
    }

    /// Set both time representations the device keeps: the Unix counter
    /// is written first, then the BCD calendar registers, then the BCD
    /// time registers last, because writing the seconds register resets
    /// the upper stage of the sub-second prescaler; the ordering keeps
    /// the two representations aligned and is a correctness-critical
    /// contract of the device, not a stylistic choice.
    pub fn set_datetime(&mut self, datetime: &DateTime) -> (r: Result<(), B::Error>)
        requires
            datetime.wf(),
        ensures
            r is Ok ==> {
                &&& old(self).evolves(
                    *final(self),
                    set![REG_SECONDS, REG_MINUTES, REG_HOURS, REG_WEEKDAY, REG_DATE, REG_MONTH,
                        REG_YEAR, REG_UNIX_TIME_0, REG_UNIX_TIME_1, REG_UNIX_TIME_2,
                        REG_UNIX_TIME_3],
                )
                &&& final(self).unix_time_bytes() == spec_u32_to_le_bytes(
                    unix_of(
                        datetime.year,
                        datetime.month,
                        datetime.day,
                        datetime.hour,
                        datetime.minute,
                        datetime.second,
                    )->0,
                )
                &&& final(self).reg(REG_SECONDS) == spec_bin_to_bcd(datetime.second)
                &&& final(self).reg(REG_MINUTES) == spec_bin_to_bcd(datetime.minute)
                &&& final(self).reg(REG_HOURS) == spec_bin_to_bcd(datetime.hour)
                &&& final(self).reg(REG_WEEKDAY) == spec_bin_to_bcd(datetime.weekday)
                &&& final(self).reg(REG_DATE) == spec_bin_to_bcd(datetime.day)
                &&& final(self).reg(REG_MONTH) == spec_bin_to_bcd(datetime.month)
                &&& final(self).reg(REG_YEAR) == spec_bin_to_bcd((datetime.year - 2000) as u8)
                &&& ({
                    // Reading the counter back decodes to the same civil
                    // datetime; the counter carries no weekday.
                    let back = civil_of(spec_u32_from_le_bytes(final(self).unix_time_bytes()));
                    back.year == datetime.year && back.month == datetime.month && back.day
                        == datetime.day && back.hour == datetime.hour && back.minute
                        == datetime.minute && back.second == datetime.second
                })
            },
    {
        let unix_timestamp = civil_to_unix(
            datetime.year,
            datetime.month,
            datetime.day,
            datetime.hour,
            datetime.minute,
            datetime.second,
        ).unwrap();
        self.select_mux_channel()?;
        // The Unix counter lives in registers separate from the BCD
        // calendar and is not used by the alarm or event machinery, so
        // both must be written to stay synchronized.
        self.set_unix_time_raw(unix_timestamp)?;
        self.set_date_raw(datetime)?;
        // Must come last: writing the seconds register resets the upper
        // stage of the prescaler.
        self.set_time_raw(datetime)?;
        proof {
            lemma_unix_time_round_trip(unix_timestamp);
        }
        Ok(())
    }

    /// Read the Unix counter and convert it to its civil representation.
    /// Inherits the 1970 floor and 2106 wrap of the unsigned 32-bit
    /// counter, and the leap-year-correctness ceiling of 2099 of the
    /// device's internal calendar.
    pub fn datetime(&mut self) -> (r: Result<DateTime, B::Error>)
        ensures
            r is Ok ==> old(self).evolves(*final(self), set![]),
            (r matches Ok(dt) ==> dt == civil_of(
                spec_u32_from_le_bytes(old(self).unix_time_bytes()),
            )),
    {
        let unix_timestamp = self.get_unix_time()?;
        Ok(unix_to_civil(unix_timestamp))
    }
}


/// Alarm encode/decode round trip: for any minute, hour and
/// day-or-weekday within their device ranges and any combination of match
/// flags, decoding the three registers that `set_alarm` writes gives back
/// the same field values and the same match flags.
pub proof fn lemma_alarm_round_trip(
    minute: u8,
    hour: u8,
    day_or_weekday: u8,
    match_day: bool,
    match_hour: bool,
    match_minute: bool,
)
    requires
        minute < 60,
        hour < 24,
        day_or_weekday <= 31,
    ensures
        spec_alarm_field_value(spec_alarm_field_enc(minute, match_minute)) == minute,
        spec_alarm_field_watched(spec_alarm_field_enc(minute, match_minute)) == match_minute,
        spec_alarm_field_value(spec_alarm_field_enc(hour, match_hour)) == hour,
        spec_alarm_field_watched(spec_alarm_field_enc(hour, match_hour)) == match_hour,
        spec_alarm_field_value(spec_alarm_field_enc(day_or_weekday, match_day)) == day_or_weekday,
        spec_alarm_field_watched(spec_alarm_field_enc(day_or_weekday, match_day)) == match_day,
{
    lemma_alarm_field_round_trip(minute, match_minute);
    lemma_alarm_field_round_trip(hour, match_hour);
    lemma_alarm_field_round_trip(day_or_weekday, match_day);
}

/// Write-protection latches: enabling protection always leaves the
/// password-enable register at 255, and in any state where it holds 255
/// while the entered user password does not match the non-volatile
/// reference, the device is locked — so by the contract of
/// `toggle_write_protect_enabled` an immediately following attempt to
/// disable protection leaves the register at 255 and its read-back still
/// reports protection enabled.
pub proof fn lemma_write_protect_latches<B: I2cBus>(s: RV3028<B>)
    requires
        s.reg(REG_EEPROM_PASSWORD_ENABLE) == 255,
        !(s.reg(REG_USER_PASSWORD_0) == s.nvm(REG_EEPROM_PASSWORD_0) && s.reg(REG_USER_PASSWORD_1)
            == s.nvm(REG_EEPROM_PASSWORD_1) && s.reg(REG_USER_PASSWORD_2) == s.nvm(
            REG_EEPROM_PASSWORD_2,
        ) && s.reg(REG_USER_PASSWORD_3) == s.nvm(REG_EEPROM_PASSWORD_3)),
    ensures
        s.spec_wp_locked(),
        (if s.spec_wp_locked() {
            s.reg(REG_EEPROM_PASSWORD_ENABLE)
        } else {
            0u8
        }) == 255,
{
}

/// Unix-time round trip: for every 32-bit counter value, the
/// little-endian decoding that `get_unix_time` returns inverts the
/// little-endian encoding that `set_unix_time` stores, so writing the
/// counter and reading it back yields the written value unchanged.
pub proof fn lemma_unix_time_round_trip(u: u32)
    ensures
        spec_u32_from_le_bytes(spec_u32_to_le_bytes(u)) == u,
{
    vstd::bytes::lemma_auto_spec_u32_to_from_le_bytes();
    assert(spec_u32_to_le_bytes(u).len() == 4);
}

} // verus!
