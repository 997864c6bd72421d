//! Driver tests against a mock bus that simulates the device's register
//! file, its EEPROM, and the password-gated silent-failure of writes to
//! protected registers.

use rv3028::bus::BusModel;
use rv3028::{DateTime, Duration, I2cBus, TrickleChargeCurrentLimiter, RV3028};

const RTC_ADDR: u8 = 0xA4 >> 1;

#[derive(Debug, PartialEq)]
struct MockErr;

/// A simulated device on a simulated bus: a 256-byte register file, a
/// 256-byte EEPROM, a log of every write frame addressed to the device,
/// and the device's password-gated silent dropping of writes to the
/// protected registers.
struct MockBus {
    regs: [u8; 256],
    eeprom: [u8; 256],
    frames: Vec<Vec<u8>>,
    mux_writes: Vec<(u8, u8)>,
    fail_all: bool,
}

impl MockBus {
    fn new() -> MockBus {
        MockBus {
            regs: [0u8; 256],
            eeprom: [0u8; 256],
            frames: Vec::new(),
            mux_writes: Vec::new(),
            fail_all: false,
        }
    }

    /// Registers that the device write-protects when locked: the user RAM
    /// pair and the password-enable register.  The datetime registers are
    /// deliberately not protected.
    fn protected(reg: u8) -> bool {
        reg == 0x1F || reg == 0x20 || reg == 0x30
    }

    /// Locked: protection enabled and the volatile user password does not
    /// match the EEPROM reference.
    fn locked(&self) -> bool {
        if self.regs[0x30] != 255 {
            return false;
        }
        (0..4).any(|i| self.regs[0x21 + i] != self.eeprom[0x31 + i])
    }
}

impl I2cBus for MockBus {
    type Error = MockErr;

    // The model is specification-only: nothing ever calls it at runtime.
    fn model(&self) -> BusModel {
        unreachable!()
    }

    fn bus_write(&mut self, dev: u8, frame: &[u8]) -> Result<(), MockErr> {
        if self.fail_all {
            return Err(MockErr);
        }
        if dev != RTC_ADDR {
            self.mux_writes.push((dev, frame[0]));
            return Ok(());
        }
        self.frames.push(frame.to_vec());
        if frame.len() < 2 {
            return Ok(());
        }
        let base = frame[0] as usize;
        for (i, &byte) in frame[1..].iter().enumerate() {
            let reg = base + i;
            if MockBus::protected(reg as u8) && self.locked() {
                continue;
            }
            self.regs[reg] = byte;
            if reg == 0x27 {
                match byte {
                    0x22 => {
                        self.regs[0x26] = self.eeprom[self.regs[0x25] as usize];
                    }
                    0x11 => {
                        for a in 0x30..=0x37 {
                            self.eeprom[a] = self.regs[a];
                        }
                    }
                    _ => {}
                }
            }
        }
        Ok(())
    }

    fn bus_write_read(&mut self, dev: u8, start: u8, n: usize) -> Result<Vec<u8>, MockErr> {
        if self.fail_all {
            return Err(MockErr);
        }
        if dev != RTC_ADDR {
            return Ok(vec![0; n]);
        }
        let s = start as usize;
        Ok(self.regs[s..s + n].to_vec())
    }
}

#[test]
fn test_set_unix_time() {
    let unix_time: u32 = 1_614_456_789;
    let bytes = unix_time.to_le_bytes();
    let mock = MockBus::new();
    let mut rv3028 = RV3028::new(mock);
    rv3028.set_unix_time(unix_time).unwrap();
    // One write transaction: register select plus the four counter bytes,
    // least significant first.
    let frames = rv3028.release().frames;
    assert_eq!(frames, vec![vec![0x1B, bytes[0], bytes[1], bytes[2], bytes[3]]]);
}

#[test]
fn test_get_unix_time() {
    let unix_time: u32 = 1_614_456_789;
    let bytes = unix_time.to_le_bytes();
    let mut mock = MockBus::new();
    mock.regs[0x1B..0x1F].copy_from_slice(&bytes);
    let mut rv3028 = RV3028::new(mock);
    assert_eq!(rv3028.get_unix_time().unwrap(), unix_time);
}

#[test]
fn test_get_unix_time_blocking_agrees() {
    let mut mock = MockBus::new();
    mock.regs[0x1B..0x1F].copy_from_slice(&7_654_321u32.to_le_bytes());
    let mut rtc = RV3028::new(mock);
    assert_eq!(rtc.get_unix_time_blocking().unwrap(), 7_654_321);
}

#[test]
fn test_get_unix_time_confirmed() {
    let mut mock = MockBus::new();
    mock.regs[0x1B..0x1F].copy_from_slice(&42u32.to_le_bytes());
    let mut rtc = RV3028::new(mock);
    // A steady counter is confirmed on the first pair of reads, even with
    // no retries allowed.
    assert_eq!(rtc.get_unix_time_confirmed(0).unwrap(), Some(42));
}

#[test]
fn test_set_datetime_reads_back_unix_time() {
    // 2021-03-01T12:00:00Z, a Monday; its Unix timestamp is exactly
    // 1_614_600_000.
    let dt = DateTime { year: 2021, month: 3, day: 1, weekday: 0, hour: 12, minute: 0, second: 0 };
    let mock = MockBus::new();
    let mut rtc = RV3028::new(mock);
    rtc.set_datetime(&dt).unwrap();
    assert_eq!(rtc.get_unix_time().unwrap(), 1_614_600_000);
    // The BCD calendar and time registers hold the same datetime.
    let (y, mo, d) = rtc.get_ymd().unwrap();
    let (h, mi, s) = rtc.get_hms().unwrap();
    assert_eq!((y, mo, d), (2021, 3, 1));
    assert_eq!((h, mi, s), (12, 0, 0));
}

#[test]
fn test_set_datetime_writes_seconds_last() {
    let dt = DateTime { year: 2021, month: 3, day: 1, weekday: 0, hour: 12, minute: 0, second: 0 };
    let mut rtc = RV3028::new(MockBus::new());
    rtc.set_datetime(&dt).unwrap();
    // The ordering is part of the contract with the hardware: Unix
    // counter first, then the calendar registers, then the seconds
    // register last (it resets the prescaler).  Recover the mock to
    // inspect the frame log.
    let frames = rtc.release().frames;
    assert_eq!(frames.len(), 3);
    assert_eq!(frames[0][0], 0x1B);
    assert_eq!(frames[1][0], 0x03);
    assert_eq!(frames[2][0], 0x00);
    assert_eq!(frames[2][1..], [0x00, 0x00, 0x12]);
}

#[test]
fn test_datetime_decodes_unix_counter() {
    let mut mock = MockBus::new();
    mock.regs[0x1B..0x1F].copy_from_slice(&1_614_600_000u32.to_le_bytes());
    let mut rtc = RV3028::new(mock);
    let dt = rtc.datetime().unwrap();
    assert_eq!(
        dt,
        DateTime { year: 2021, month: 3, day: 1, weekday: 0, hour: 12, minute: 0, second: 0 }
    );
}

#[test]
fn test_alarm_round_trip_date_mode() {
    let dt = DateTime { year: 2021, month: 3, day: 15, weekday: 0, hour: 9, minute: 41, second: 0 };
    let mut mock = MockBus::new();
    mock.regs[0x0E] = 0xFF; // all status flags raised beforehand
    let mut rtc = RV3028::new(mock);
    rtc.set_alarm(&dt, None, true, false, true).unwrap();
    // The alarm flag is clear immediately after configuration.
    assert!(!rtc.check_alarm_flag().unwrap());
    let (adt, wd, match_day, match_hour, match_minute) =
        rtc.get_alarm_datetime_wday_matches().unwrap();
    assert_eq!(wd, None);
    assert_eq!(adt.day, 15);
    assert_eq!(adt.hour, 9);
    assert_eq!(adt.minute, 41);
    assert!(match_day);
    assert!(!match_hour);
    assert!(match_minute);
}

#[test]
fn test_alarm_round_trip_weekday_mode() {
    let dt = DateTime { year: 2021, month: 3, day: 15, weekday: 0, hour: 23, minute: 7, second: 0 };
    let mock = MockBus::new();
    let mut rtc = RV3028::new(mock);
    rtc.set_alarm(&dt, Some(5), false, true, false).unwrap();
    let (adt, wd, match_day, match_hour, match_minute) =
        rtc.get_alarm_datetime_wday_matches().unwrap();
    assert_eq!(wd, Some(5));
    assert_eq!(adt.day, 1);
    assert_eq!(adt.hour, 23);
    assert_eq!(adt.minute, 7);
    assert!(!match_day);
    assert!(match_hour);
    assert!(!match_minute);
}

#[test]
fn test_countdown_three_seconds_fires_once() {
    let mock = MockBus::new();
    let mut rtc = RV3028::new(mock);
    let achieved = rtc.config_countdown_timer(&Duration::seconds(3), false, true).unwrap();
    // Three whole seconds are represented exactly.
    assert_eq!(achieved, Duration::seconds(3));
    assert_eq!(achieved.num_microseconds(), 3_000_000);
    // Nothing has fired yet.
    assert!(!rtc.check_and_clear_countdown().unwrap());
    // The device raises the periodic-timer flag when the countdown ends;
    // polling then reports the expiry exactly once.
    let mut mock = rtc.release();
    mock.regs[0x0E] |= 0x08;
    let mut rtc = RV3028::new(mock);
    assert!(rtc.check_and_clear_countdown().unwrap());
    assert!(!rtc.check_and_clear_countdown().unwrap());
}

#[test]
fn test_countdown_registers_hold_ticks_and_rate() {
    let mock = MockBus::new();
    let mut rtc = RV3028::new(mock);
    rtc.config_countdown_timer(&Duration::seconds(3), true, false).unwrap();
    let mock = rtc.release();
    assert_eq!(mock.regs[0x0A], 3); // low byte of the preset value
    assert_eq!(mock.regs[0x0B], 0); // high nibble of the preset value
    assert_eq!(mock.regs[0x0F] & 0b11, 0b10); // one-second clock selected
    assert_eq!(mock.regs[0x0F] & (1 << 7), 1 << 7); // repeat set
    assert_eq!(mock.regs[0x0F] & (1 << 2), 0); // not started
}

#[test]
fn test_get_countdown_value() {
    let mut mock = MockBus::new();
    mock.regs[0x0C] = 0x34;
    mock.regs[0x0D] = 0x02;
    let mut rtc = RV3028::new(mock);
    assert_eq!(rtc.get_countdown_value().unwrap(), 0x0234);
}

#[test]
fn test_write_protect_silent_failure_on_disable() {
    let mut mock = MockBus::new();
    mock.eeprom[0x31..0x35].copy_from_slice(&[1, 2, 3, 4]);
    let mut rtc = RV3028::new(mock);
    // Enabling write protection succeeds while the device is unlocked.
    assert!(rtc.toggle_write_protect_enabled(true).unwrap());
    assert!(rtc.check_write_protect_enabled().unwrap());
    // With no password entered the device is now locked, so the attempt
    // to disable protection is a silent no-op: the read-back still
    // reports it enabled, and no error is returned.
    assert!(rtc.toggle_write_protect_enabled(false).unwrap());
    assert!(rtc.check_write_protect_enabled().unwrap());
}

#[test]
fn test_write_protected_register_needs_matching_password() {
    let mut mock = MockBus::new();
    mock.eeprom[0x31..0x35].copy_from_slice(&[1, 2, 3, 4]);
    mock.eeprom[0x30] = 255;
    mock.regs[0x30] = 255;
    mock.regs[0x1F] = 0xAA;
    mock.regs[0x20] = 0xBB;
    let mut rtc = RV3028::new(mock);
    // Locked with a mismatched password: the write is silently dropped
    // and the read-back is unchanged.
    rtc.set_user_ram(&[9, 9]).unwrap();
    assert_eq!(rtc.get_user_ram().unwrap(), [0xAA, 0xBB]);
    // With the matching password entered the same write takes effect.
    rtc.enter_user_password(&[1, 2, 3, 4]).unwrap();
    rtc.set_user_ram(&[9, 9]).unwrap();
    assert_eq!(rtc.get_user_ram().unwrap(), [9, 9]);
}

#[test]
fn test_set_write_protect_password_commits_to_eeprom() {
    let mock = MockBus::new();
    let mut rtc = RV3028::new(mock);
    rtc.set_write_protect_password(&[5, 6, 7, 8], true).unwrap();
    let (enabled, pass) = rtc.get_write_protect_settings().unwrap();
    assert!(enabled);
    assert_eq!(pass, [5, 6, 7, 8]);
    let mock = rtc.release();
    assert_eq!(&mock.eeprom[0x31..0x35], &[5, 6, 7, 8]);
    assert_eq!(mock.eeprom[0x30], 255);
}

#[test]
fn test_get_write_protect_settings_reads_eeprom() {
    let mut mock = MockBus::new();
    mock.eeprom[0x30] = 255;
    mock.eeprom[0x31..0x35].copy_from_slice(&[10, 20, 30, 40]);
    let mut rtc = RV3028::new(mock);
    let (enabled, pass) = rtc.get_write_protect_settings().unwrap();
    assert!(enabled);
    assert_eq!(pass, [10, 20, 30, 40]);
}

#[test]
fn test_user_ram_round_trip() {
    let mock = MockBus::new();
    let mut rtc = RV3028::new(mock);
    rtc.set_user_ram(&[7, 8]).unwrap();
    assert_eq!(rtc.get_user_ram().unwrap(), [7, 8]);
}

#[test]
fn test_get_ymd_and_hms_decode_bcd() {
    let mut mock = MockBus::new();
    mock.regs[0x00] = 0x56; // seconds
    mock.regs[0x01] = 0x34; // minutes
    mock.regs[0x02] = 0x12; // hours
    mock.regs[0x04] = 0x28; // day of the month
    mock.regs[0x05] = 0x02; // month
    mock.regs[0x06] = 0x21; // year minus 2000
    let mut rtc = RV3028::new(mock);
    assert_eq!(rtc.get_ymd().unwrap(), (2021, 2, 28));
    assert_eq!(rtc.get_hms().unwrap(), (12, 34, 56));
}

#[test]
fn test_event_count_and_timestamp() {
    let mut mock = MockBus::new();
    mock.regs[0x14] = 2; // two events counted
    mock.regs[0x15] = 0x30;
    mock.regs[0x16] = 0x45;
    mock.regs[0x17] = 0x11;
    mock.regs[0x18] = 0x28;
    mock.regs[0x19] = 0x02;
    mock.regs[0x1A] = 0x21;
    let mut rtc = RV3028::new(mock);
    let (count, odt) = rtc.get_event_count_and_datetime().unwrap();
    assert_eq!(count, 2);
    let dt = odt.unwrap();
    assert_eq!((dt.year, dt.month, dt.day), (2021, 2, 28));
    assert_eq!((dt.hour, dt.minute, dt.second), (11, 45, 30));
}

#[test]
fn test_event_count_zero_has_no_timestamp() {
    let mock = MockBus::new();
    let mut rtc = RV3028::new(mock);
    let (count, odt) = rtc.get_event_count_and_datetime().unwrap();
    assert_eq!(count, 0);
    assert!(odt.is_none());
}

#[test]
fn test_config_timestamp_logging_sequence() {
    let mut mock = MockBus::new();
    mock.regs[0x0E] = 0xFF;
    let mut rtc = RV3028::new(mock);
    rtc.config_timestamp_logging(rv3028::TS_EVENT_SOURCE_BSF, true, true).unwrap();
    let mock = rtc.release();
    assert_eq!(mock.regs[0x0E] & (1 << 1), 0); // event flag cleared
    assert_eq!(mock.regs[0x0E] & (1 << 5), 0); // backup switchover flag cleared
    assert_eq!(mock.regs[0x13] & 1, 1); // source: backup switchover
    assert_eq!(mock.regs[0x13] & (1 << 1), 1 << 1); // overwrite policy
    assert_eq!(mock.regs[0x13] & (1 << 2), 1 << 2); // reset pulsed
    assert_eq!(mock.regs[0x10] & (1 << 7), 1 << 7); // logging started
}

#[test]
fn test_trickle_charge_configuration() {
    let mock = MockBus::new();
    let mut rtc = RV3028::new(mock);
    assert!(rtc.config_trickle_charge(true, TrickleChargeCurrentLimiter::Ohms9k).unwrap());
    let mock = rtc.release();
    assert_eq!(mock.regs[0x37] & (1 << 5), 1 << 5); // charging enabled
    assert_eq!(mock.regs[0x37] & 0b11, 0b10); // 9 kOhm limiter
    let mut rtc = RV3028::new(mock);
    assert!(!rtc.config_trickle_charge(false, TrickleChargeCurrentLimiter::Ohms15k).unwrap());
    let mock = rtc.release();
    assert_eq!(mock.regs[0x37] & (1 << 5), 0);
    assert_eq!(mock.regs[0x37] & 0b11, 0); // reset to the factory default
}

#[test]
fn test_toggle_backup_switchover() {
    let mock = MockBus::new();
    let mut rtc = RV3028::new(mock);
    assert!(rtc.toggle_backup_switchover(true).unwrap());
    let mock = rtc.release();
    assert_eq!(mock.regs[0x37] & (0b01 << 2), 0b01 << 2);
}

#[test]
fn test_config_clockout() {
    let mock = MockBus::new();
    let mut rtc = RV3028::new(mock);
    rtc.config_clockout(true, rv3028::ClockoutRate::Clkout1Hz).unwrap();
    let mock = rtc.release();
    assert_eq!(mock.regs[0x35] & 0b111, 0b101); // 1 Hz rate
    assert_eq!(mock.regs[0x37] & (1 << 7), 0); // plain output disabled
    assert_eq!(mock.regs[0x10] & (1 << 6), 1 << 6); // interrupt-controlled output
}

#[test]
fn test_config_ext_event_detection() {
    let mock = MockBus::new();
    let mut rtc = RV3028::new(mock);
    rtc.config_ext_event_detection(true, true, 0b10, false).unwrap();
    let mock = rtc.release();
    assert_eq!(mock.regs[0x13] & (1 << 6), 1 << 6); // rising edge
    assert_eq!(mock.regs[0x13] & (0b11 << 4), 0b10 << 4); // filtering time
    assert_eq!(mock.regs[0x10] & (1 << 2), 1 << 2); // event interrupt enabled
    assert_eq!(mock.regs[0x12] & (1 << 3), 0); // no clock output on events
}

#[test]
fn test_clear_all_status_flags() {
    let mut mock = MockBus::new();
    mock.regs[0x0E] = 0xFF;
    let mut rtc = RV3028::new(mock);
    rtc.clear_all_status_flags().unwrap();
    let mock = rtc.release();
    // Only the read-only EEPROM busy bit is left untouched.
    assert_eq!(mock.regs[0x0E], 0x80);
}

#[test]
fn test_check_and_clear_power_on_reset() {
    let mut mock = MockBus::new();
    mock.regs[0x0E] = 0x01;
    let mut rtc = RV3028::new(mock);
    assert!(rtc.check_and_clear_power_on_reset().unwrap());
    assert!(!rtc.check_and_clear_power_on_reset().unwrap());
}

#[test]
fn test_bus_error_propagates() {
    let mut mock = MockBus::new();
    mock.fail_all = true;
    let mut rtc = RV3028::new(mock);
    assert_eq!(rtc.set_unix_time(1).unwrap_err(), MockErr);
    assert_eq!(rtc.get_unix_time().unwrap_err(), MockErr);
}

#[test]
fn test_mux_channel_is_selected_first() {
    let mock = MockBus::new();
    let mut rtc = RV3028::new_with_mux(mock, 0x70, 0b0000_0100);
    rtc.set_unix_time(42).unwrap();
    let mock = rtc.release();
    assert_eq!(mock.mux_writes, vec![(0x70, 0b0000_0100)]);
}

#[test]
fn test_timer_toggles() {
    let mock = MockBus::new();
    let mut rtc = RV3028::new(mock);
    rtc.toggle_countdown_timer(true).unwrap();
    rtc.toggle_alarm_int_enable(true).unwrap();
    rtc.toggle_countdown_int_enable(true).unwrap();
    let mock = rtc.release();
    assert_eq!(mock.regs[0x0F] & (1 << 2), 1 << 2);
    assert_eq!(mock.regs[0x10] & (1 << 3), 1 << 3);
    assert_eq!(mock.regs[0x10] & (1 << 4), 1 << 4);
}
