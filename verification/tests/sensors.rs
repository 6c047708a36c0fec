use ascot::sensors::{
    byte_from_lsb_first, byte_from_msb_first, byte_to_lsb_first, check_scratchpad,
    continuous_resolution, crc8, decode_humidity_tenths, decode_temperature_tenths,
    measurement_time_ms, mtreg_instructions, raw_from_be_bytes, validate_checksum, Address,
    Bh1750Error, Bh1750Settings, Ds18b20Error, Dht22Error, PollStep, Resolution, poll_step,
    require_presence, timeout, CMD_CONVERT_T, CMD_READ_SCRATCHPAD, CMD_SKIP_ROM, MAX_ATTEMPTS,
};

#[test]
fn crc8_check_value() {
    assert_eq!(crc8(b"123456789"), 0xA1);
    assert_eq!(crc8(&[]), 0);
    assert_eq!(crc8(&[0x02, 0x1C, 0xB8, 0x01, 0x00, 0x00, 0x00]), 0xA2);
}

#[test]
fn crc8_of_data_and_its_crc_is_zero() {
    let data = [0x91u8, 0x01, 0x4B, 0x46, 0x7F, 0xFF, 0x0C, 0x10];
    let mut with_crc = data.to_vec();
    with_crc.push(crc8(&data));
    assert_eq!(crc8(&with_crc), 0);
}

fn scratchpad(low: u8, high: u8) -> [u8; 9] {
    let mut data = [low, high, 0x4B, 0x46, 0x7F, 0xFF, 0x0C, 0x10, 0];
    data[8] = crc8(&data[0..8]);
    data
}

#[test]
fn scratchpad_temperatures() {
    // +25.0625 °C.
    let raw = check_scratchpad::<()>(scratchpad(0x91, 0x01)).unwrap();
    assert_eq!(raw, 0x0191);
    assert_eq!(raw as f32 * 0.0625, 25.0625);
    // -10.125 °C.
    let raw = check_scratchpad::<()>(scratchpad(0x5E, 0xFF)).unwrap();
    assert_eq!(raw as f32 * 0.0625, -10.125);
}

#[test]
fn scratchpad_crc_mismatch() {
    let mut data = scratchpad(0x91, 0x01);
    data[8] ^= 1;
    assert!(matches!(check_scratchpad::<()>(data), Err(Ds18b20Error::CrcMismatch)));
}

#[test]
fn bits_on_the_wire() {
    let bits = byte_to_lsb_first(0xCC);
    assert_eq!(bits, [false, false, true, true, false, false, true, true]);
    assert_eq!(byte_from_lsb_first(bits), 0xCC);
    for b in 0..=255u8 {
        assert_eq!(byte_from_lsb_first(byte_to_lsb_first(b)), b);
    }
    assert_eq!(
        byte_from_msb_first([true, false, false, false, false, false, false, true]),
        0x81
    );
    assert_eq!(byte_from_msb_first([false; 8]), 0);
}

#[test]
fn dht22_checksum() {
    assert!(validate_checksum::<()>(0x02, 0x8C, 0x01, 0x5F, 0xEE).is_ok());
    assert!(matches!(
        validate_checksum::<()>(0x02, 0x8C, 0x01, 0x5F, 0xEF),
        Err(Dht22Error::ChecksumMismatch)
    ));
    // The sum wraps around.
    assert!(validate_checksum::<()>(0xFF, 0xFF, 0x01, 0x01, 0x00).is_ok());
}

#[test]
fn dht22_decoding() {
    // 65.2 %RH, 35.1 °C.
    assert_eq!(decode_humidity_tenths(0x02, 0x8C), 652);
    assert_eq!(decode_temperature_tenths(0x01, 0x5F), 351);
    // -10.1 °C.
    assert_eq!(decode_temperature_tenths(0x80, 0x65), -101);
}

#[test]
fn bh1750_opcodes() {
    assert_eq!(Address::Low.value(), 0x23);
    assert_eq!(Address::High.value(), 0x5C);
    assert_eq!(Resolution::High.continuous_measurement_opcode(), 0x10);
    assert_eq!(Resolution::High2.continuous_measurement_opcode(), 0x11);
    assert_eq!(Resolution::Low.continuous_measurement_opcode(), 0x13);
    assert_eq!(Resolution::High.one_time_measurement_opcode(), 0x20);
    assert_eq!(Resolution::High2.one_time_measurement_opcode(), 0x21);
    assert_eq!(Resolution::Low.one_time_measurement_opcode(), 0x23);
    assert_eq!(Resolution::High.default_measurement_time_ms(), 120);
    assert_eq!(Resolution::Low.default_measurement_time_ms(), 16);
}

#[test]
fn bh1750_mtreg() {
    assert_eq!(mtreg_instructions(69), (69, 0x42, 0x65));
    assert_eq!(mtreg_instructions(0), (31, 0x40, 0x7F));
    assert_eq!(mtreg_instructions(255), (254, 0x47, 0x7E));
    assert_eq!(measurement_time_ms(Resolution::High, 69), 120);
    assert_eq!(measurement_time_ms(Resolution::Low, 138), 32);
    assert_eq!(measurement_time_ms(Resolution::High2, 31), 53);
    assert_eq!(raw_from_be_bytes(0x12, 0x34), 0x1234);
}

#[test]
fn bh1750_continuous_measurement_must_be_started() {
    assert!(matches!(
        continuous_resolution::<()>(None),
        Err(Bh1750Error::ContinuousMeasurementNotStarted)
    ));
    assert!(matches!(
        continuous_resolution::<()>(Some(Resolution::Low)),
        Ok(Resolution::Low)
    ));
}

#[test]
fn bh1750_settings() {
    let mut settings = Bh1750Settings::new();
    assert_eq!(settings.mtreg, 69);
    assert_eq!(settings.continuous_resolution, None);
    assert_eq!(settings.measurement_time_ms(Resolution::High), 120);
    assert_eq!(settings.set_mtreg(10), (0x40, 0x7F));
    assert_eq!(settings.mtreg, 31);
    settings.start_continuous_measurement(Resolution::Low);
    assert_eq!(settings.continuous_resolution, Some(Resolution::Low));
    assert_eq!(settings.measurement_time_ms(Resolution::Low), 7);
}

#[test]
fn dht22_polling() {
    assert_eq!(poll_step(0, true), PollStep::Reached);
    assert_eq!(poll_step(0, false), PollStep::Again);
    assert_eq!(poll_step(98, false), PollStep::Again);
    assert_eq!(poll_step(99, false), PollStep::TimedOut);
    assert_eq!(MAX_ATTEMPTS, 100);
    assert!(matches!(timeout::<()>(), Dht22Error::Timeout));
}

#[test]
fn ds18b20_presence() {
    assert!(require_presence::<()>(true).is_ok());
    assert!(matches!(require_presence::<()>(false), Err(Ds18b20Error::NoPresence)));
    assert_eq!((CMD_SKIP_ROM, CMD_CONVERT_T, CMD_READ_SCRATCHPAD), (0xCC, 0x44, 0xBE));
}
