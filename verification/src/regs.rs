//! Fixed register map of the device and the named bits of each register.
//!
//! Register addresses and bit positions are device-fixed constants; they
//! are never computed at runtime.

use vstd::prelude::*;

verus! {

/// Fixed seven-bit bus address of the device.
pub const RV3028_ADDRESS: u8 = 0xA4 >> 1;

// Main time registers, each holding two BCD digits.
pub const REG_SECONDS: u8 = 0x00;
pub const REG_MINUTES: u8 = 0x01;
pub const REG_HOURS: u8 = 0x02;

/// Current day of the week, a plain 3-bit counter from 0 to 6.
pub const REG_WEEKDAY: u8 = 0x03;

/// Current day of the month in BCD, 01 to 31.
pub const REG_DATE: u8 = 0x04;

/// Current month in BCD, 01 to 12.
pub const REG_MONTH: u8 = 0x05;

/// Current year minus 2000 in BCD, 00 to 99.
pub const REG_YEAR: u8 = 0x06;

/// Minutes alarm value in BCD plus the AE_M enable bit in the top bit.
pub const REG_MINUTES_ALARM: u8 = 0x07;

/// Hours alarm value in BCD plus the AE_H enable bit in the top bit.
pub const REG_HOURS_ALARM: u8 = 0x08;

/// Weekday-or-date alarm value in BCD plus the AE_WD enable bit.
pub const REG_WEEKDAY_DATE_ALARM: u8 = 0x09;

/// Lower 8 bits of the 12-bit preset value for the periodic countdown
/// timer.
pub const REG_TIMER_VALUE0: u8 = 0x0A;

/// Upper 4 bits of the 12-bit preset value for the periodic countdown
/// timer.
pub const REG_TIMER_VALUE1: u8 = 0x0B;

/// Read-only lower 8 bits of the live countdown value.
pub const REG_TIMER_STATUS0: u8 = 0x0C;

/// Read-only upper 4 bits of the live countdown value.
pub const REG_TIMER_STATUS1: u8 = 0x0D;

/// Interrupt-event and reliability flags.
pub const REG_STATUS: u8 = 0x0E;

/// Alarm, periodic-time-update and countdown-timer configuration.
pub const REG_CONTROL1: u8 = 0x0F;

/// Interrupt output, clock output and time-stamp configuration.
pub const REG_CONTROL2: u8 = 0x10;

/// Selects predefined interrupts for automatic clock output.
pub const REG_CLOCK_INTERRUPT_MASK: u8 = 0x12;

/// Event control: EHL, ET, TSR, TSOW, TSS.
pub const REG_EVENT_CONTROL: u8 = 0x13;

/// First of the seven time-stamp function registers: event count followed
/// by six BCD time-stamp fields.
pub const REG_COUNT_EVENTS_TS: u8 = 0x14;
pub const REG_SECONDS_TS: u8 = 0x15;
pub const REG_MINUTES_TS: u8 = 0x16;
pub const REG_HOURS_TS: u8 = 0x17;
pub const REG_DATE_TS: u8 = 0x18;
pub const REG_MONTH_TS: u8 = 0x19;
pub const REG_YEAR_TS: u8 = 0x1A;

/// First of the two user RAM registers.
pub const REG_USER_RAM_0: u8 = 0x1F;

/// First (least significant) byte of the 32-bit Unix time counter.
pub const REG_UNIX_TIME_0: u8 = 0x1B;
pub const REG_UNIX_TIME_1: u8 = 0x1C;
pub const REG_UNIX_TIME_2: u8 = 0x1D;
pub const REG_UNIX_TIME_3: u8 = 0x1E;

/// Second of the two user RAM registers.
pub const REG_USER_RAM_1: u8 = 0x20;

/// First byte of the four-byte volatile user password register.
pub const REG_USER_PASSWORD_0: u8 = 0x21;
pub const REG_USER_PASSWORD_1: u8 = 0x22;
pub const REG_USER_PASSWORD_2: u8 = 0x23;
pub const REG_USER_PASSWORD_3: u8 = 0x24;

/// Target address within the EEPROM for single-byte commands.
pub const REG_EEPROM_EE_ADDRESS: u8 = 0x25;

/// Data register for single-byte EEPROM transfers.
pub const REG_EEPROM_EE_DATA: u8 = 0x26;

/// EEPROM command register.
pub const REG_EEPROM_EE_CMD: u8 = 0x27;

/// EEPWE, the EEPROM password-enable register (RAM mirror).
pub const REG_EEPROM_PASSWORD_ENABLE: u8 = 0x30;

/// First byte of the four-byte EEPROM reference password (RAM mirror).
pub const REG_EEPROM_PASSWORD_0: u8 = 0x31;
pub const REG_EEPROM_PASSWORD_1: u8 = 0x32;
pub const REG_EEPROM_PASSWORD_2: u8 = 0x33;
pub const REG_EEPROM_PASSWORD_3: u8 = 0x34;

/// EEPROM CLKOUT control register (RAM mirror).
pub const REG_EEPROM_CLKOUT: u8 = 0x35;

/// EEPROM backup configuration register (RAM mirror).
pub const REG_EEPROM_BACKUP_CONFIG: u8 = 0x37;

// EEPROM commands, written to the command register.  The first command of
// every sequence must be zero.
pub const EE_CMD_FIRST: u8 = 0x00;

/// Copy all RAM-mirror configuration registers into the EEPROM.
pub const EE_CMD_UPDATE_ALL: u8 = 0x11;

/// Load one EEPROM byte into the data register.
pub const EE_CMD_READ_ONE: u8 = 0x22;

// Control 1 register bits.
pub const TIMER_REPEAT_BIT: u8 = 1 << 7;
pub const WADA_BIT: u8 = 1 << 5;
pub const USEL_BIT: u8 = 1 << 4;
pub const EERD_BIT: u8 = 1 << 3;
pub const TIMER_ENABLE_BIT: u8 = 1 << 2;
pub const TIMER_CLOCK_FREQ_BITS: u8 = 0b11;

// Status register bits.
pub const EEPROM_BUSY_BIT: u8 = 1 << 7;
pub const CLOCK_INT_FLAG_BIT: u8 = 1 << 6;
pub const BACKUP_SWITCH_FLAG: u8 = 1 << 5;
pub const TIME_UPDATE_FLAG: u8 = 1 << 4;
pub const PERIODIC_TIMER_FLAG: u8 = 1 << 3;
pub const ALARM_FLAG_BIT: u8 = 1 << 2;
pub const EVENT_FLAG_BIT: u8 = 1 << 1;
pub const POWER_ON_RESET_FLAG_BIT: u8 = 1 << 0;

// Event control register bits.
pub const EVENT_HIGH_LOW_BIT: u8 = 1 << 6;
pub const EVENT_FILTERING_TIME_BITS: u8 = 0b11 << 4;
pub const TIME_STAMP_RESET_BIT: u8 = 1 << 2;
pub const TIME_STAMP_OVERWRITE_BIT: u8 = 1 << 1;
pub const TIME_STAMP_SOURCE_BIT: u8 = 1 << 0;

/// Event log source is the external interrupt pin EVI (default).
pub const TS_EVENT_SOURCE_EVI: u8 = 0;

/// Event log source is backup power switchover.
pub const TS_EVENT_SOURCE_BSF: u8 = 1;

// Clock interrupt mask register bits.
pub const CLOCKOUT_ON_EXT_EVT_BIT: u8 = 1 << 3;
pub const CLOCKOUT_ON_ALARM_BIT: u8 = 1 << 2;
pub const CLOCKOUT_ON_PCT_BIT: u8 = 1 << 1;
pub const CLOCKOUT_ON_UPDATE_BIT: u8 = 1 << 0;

// Control 2 register bits.
pub const TIME_STAMP_ENABLE_BIT: u8 = 1 << 7;
pub const CLOCKOUT_INT_ENABLE_BIT: u8 = 1 << 6;
pub const TIME_UPDATE_INT_ENABLE_BIT: u8 = 1 << 5;
pub const TIMER_INT_ENABLE_BIT: u8 = 1 << 4;
pub const ALARM_INT_ENABLE_BIT: u8 = 1 << 3;
pub const EVENT_INT_ENABLE_BIT: u8 = 1 << 2;

// EEPROM backup configuration register bits.
pub const CLOCKOUT_OUTPUT_ENABLE_BIT: u8 = 1 << 7;
pub const BACKUP_SWITCH_INT_ENABLE_BIT: u8 = 1 << 6;
pub const TRICKLE_CHARGE_ENABLE_BIT: u8 = 1 << 5;
pub const BACKUP_SWITCHOVER_DSM: u8 = 0b01 << 2;
pub const TRICKLE_CHARGE_RESISTANCE_BITS: u8 = 0b11;

/// Top bit of an alarm register: set when the field is not matched.
pub const ALARM_NO_WATCH_FLAG: u8 = 1 << 7;

/// CLKOUT frequency selection bits in the EEPROM CLKOUT register.
pub const CLKOUT_FREQ_SELECTION_BITS: u8 = 0b111;

} // verus!
