use cherryrgb::Brightness;
use cherryrgb::Command;
use cherryrgb::CustomKeyLeds;
use cherryrgb::LedAnimationPayload;
use cherryrgb::LightingMode;
use cherryrgb::OwnRGB8;
use cherryrgb::Packet;
use cherryrgb::ProtocolError;
use cherryrgb::Speed;
use cherryrgb::UnknownByte;
use cherryrgb::UsbPollingRate;
use cherryrgb::calc_checksum;
use cherryrgb::prepare_packet;

/// Some captured packets
fn packets() -> Vec<&'static str> {
    //                              brightness
    //     checksum                mode|speed      color
    //      |                       |  |  |         |
    //      v                       v  v  v         v
    vec![
        "04 69 01 06 09 00 00 55 00 00 03 02 00 01 FF", //       00 - wave - regular
        "04 6B 01 06 09 00 00 55 00 00 03 04 00 01 FF", //       01 - wave - slow
        "04 67 01 06 09 00 00 55 00 00 03 00 00 01 FF", //       02 - wave - fast
        "04 68 01 06 09 00 00 55 00 00 03 01 00 01 FF", //       03 - wave - another speed
        "04 69 01 06 09 00 00 55 00 01 03 01 00 01 FF", //       04 - spectrum - fast
        "04 68 01 06 09 00 00 55 00 01 03 00 00 01 FF", //       05 - spectrum - fastest
        "04 6C 01 06 09 00 00 55 00 01 03 04 00 01 FF", //       06 - spectrum - slow
        "04 6B 01 06 09 00 00 55 00 01 03 03 00 01 FF", //       07 - breathing
        "04 6C 01 06 09 00 00 55 00 02 03 03 00 01 FF", //       08 - breathing - slow
        "04 74 01 06 09 00 00 55 00 0A 03 03 00 01 FF", //       09 - Rolling
        "04 76 01 06 09 00 00 55 00 0C 03 03 00 01 FF", //       10 - Curve
        "04 79 01 06 09 00 00 55 00 0F 03 03 00 01 FF", //       11 - Scan
        "04 7C 01 06 09 00 00 55 00 12 03 03 00 01 FF", //       12 - Radiation
        "04 EE 01 06 09 00 00 55 00 12 03 03 00 00 7E 00 F4", // 13 - Radiation
        "04 EF 01 06 09 00 00 55 00 13 03 03 00 00 7E 00 F4", // 14 - Ripples - slow
        "04 EC 01 06 09 00 00 55 00 13 03 00 00 00 7E 00 F4", // 15 - Rippples - fast
        "04 EE 01 06 09 00 00 55 00 15 03 00 00 00 7E 00 F4", // 16 - Single Key
        "04 DC 01 06 09 00 00 55 00 03 03 00 00 00 7E 00 F4", // 17 - Static - Purple
        "04 4D 01 06 09 00 00 55 00 03 03 00 00 00 E0 03 00", // 18 - Static - Red
        "04 52 01 06 09 00 00 55 00 08 03 00 00 00 E0 03 00", // 19 - Custom
        // start / end transaction packets
        "04 01 00 01",
        "04 02 00 02",
        // fetch device info packets
        "04 25 00 03 22 00 00",
        "04 3f 00 07 38 00 00",
        "04 77 00 07 38 38 00",
        "04 af 00 07 38 70 00",
        "04 e7 00 07 38 a8 00",
        "04 1f 01 07 38 e0 00",
        "04 58 00 07 38 18 01",
        "04 82 00 07 2a 50 01",
        "04 53 00 1b 38 00 00",
        "04 8b 00 1b 38 38 00",
        "04 99 00 1b 0e 70 00",
        // Unknown
        "04 43 00 0b 38 00 00",
        "04 7b 00 0b 38 38 00",
        "04 b3 00 0b 38 70 00",
        "04 eb 00 0b 38 a8 00",
        "04 23 01 0b 38 e0 00",
        "04 5c 00 0b 38 18 01",
        "04 86 00 0b 2a 50 01",
    ]
}

#[test]
fn test_checksum() {
    for (index, &pkt_str) in packets().iter().enumerate() {
        let pkt = hex::decode(pkt_str.replace(" ", "")).expect("Failed to convert pkt hexstream");

        let expected_checksum = pkt[1];
        let command = Command::from_code(pkt[3]).expect("Failed to read command");
        let calcd_checksum = calc_checksum(command, &pkt[4..]);

        assert_eq!(
            expected_checksum, calcd_checksum,
            "Failed checksum for pkt {} data={:?}",
            index, pkt_str
        );
    }
}

#[test]
fn serialize_led_animation_payload() {
    let buf: Vec<u8> = LedAnimationPayload::new(
        LightingMode::Vortex,
        Brightness::Full,
        Speed::VerySlow,
        OwnRGB8::new(244, 255, 100),
        false,
    )
    .to_vec();
    assert_eq!(
        vec![0x09, 0x00, 0x00, 0x55, 0x00, 0x05, 0x04, 0x04, 0x00, 0x00, 0xF4, 0xFF, 0x64],
        buf
    );
    let buf: Vec<u8> = LedAnimationPayload::new(
        LightingMode::Vortex,
        Brightness::Full,
        Speed::VerySlow,
        OwnRGB8::new(244, 255, 100),
        true,
    )
    .to_vec();
    assert_eq!(
        vec![0x09, 0x00, 0x00, 0x55, 0x00, 0x05, 0x04, 0x04, 0x00, 0x01, 0xF4, 0xFF, 0x64],
        buf
    );
    let buf: Vec<u8> = LedAnimationPayload::new(
        LightingMode::Rolling,
        Brightness::Full,
        Speed::VerySlow,
        OwnRGB8::new(244, 255, 100),
        false,
    )
    .to_vec();
    assert_eq!(
        vec![0x09, 0x00, 0x00, 0x55, 0x00, 0x0A, 0x04, 0x04, 0x00, 0x00, 0xF4, 0xFF, 0x64],
        buf
    );
    let buf: Vec<u8> = LedAnimationPayload::new(
        LightingMode::Vortex,
        Brightness::Full,
        Speed::Medium,
        OwnRGB8::new(244, 255, 100),
        false,
    )
    .to_vec();
    assert_eq!(
        vec![0x09, 0x00, 0x00, 0x55, 0x00, 0x05, 0x04, 0x02, 0x00, 0x00, 0xF4, 0xFF, 0x64],
        buf
    );
    let buf: Vec<u8> = LedAnimationPayload::new(
        LightingMode::Vortex,
        Brightness::Low,
        Speed::Medium,
        OwnRGB8::new(244, 255, 100),
        false,
    )
    .to_vec();
    assert_eq!(
        vec![0x09, 0x00, 0x00, 0x55, 0x00, 0x05, 0x01, 0x02, 0x00, 0x00, 0xF4, 0xFF, 0x64],
        buf
    );
}

#[test]
fn prep_packet() {
    assert_eq!(
        prepare_packet(UnknownByte::Three, Command::TransactionStart, &[0x42, 0x94]).unwrap()[..6],
        vec![0x04, 0xD7, 0x03, 0x01, 0x42, 0x94]
    );
    assert_eq!(
        prepare_packet(UnknownByte::One, Command::TransactionStart, &[0x47]).unwrap()[..5],
        vec![0x04, 0x48, 0x01, 0x01, 0x47]
    );
    assert_eq!(
        prepare_packet(UnknownByte::Three, Command::SetAnimation, &[]).unwrap()[..4],
        vec![0x04, 0x06, 0x03, 0x06]
    );
}

#[test]
fn checksum_empty_payload_is_command_code() {
    assert_eq!(calc_checksum(Command::TransactionStart, &[]), 0x01);
    assert_eq!(calc_checksum(Command::Unknown1B, &[]), 0x1B);
}

#[test]
fn checksum_wraps_modulo_256() {
    // 5 * 200 + 0x0B == 1011 == 3 * 256 + 243
    let data = [200u8, 200, 200, 200, 200];
    assert_eq!(calc_checksum(Command::SetCustomLED, &data), 243);
}

#[test]
fn packet_round_trip_keeps_fields() {
    let wire =
        prepare_packet(UnknownByte::Two, Command::SetAnimation, &[0x10, 0x20, 0x30]).unwrap();
    let parsed = Packet::from_bytes(&wire).expect("a prepared packet must parse back");
    assert_eq!(parsed.command(), Command::SetAnimation);
    assert_eq!(parsed.unknown(), UnknownByte::Two);
    let mut expected_payload = vec![0x10u8, 0x20, 0x30];
    expected_payload.resize(60, 0);
    assert_eq!(parsed.payload(), &expected_payload[..]);
    assert!(parsed.verify_checksum().is_ok());
}

#[test]
fn parse_rejects_bad_magic_length_and_codes() {
    let wire = prepare_packet(UnknownByte::Zero, Command::TransactionStart, &[]).unwrap();
    assert!(Packet::from_bytes(&wire[..63]).is_none());

    let mut bad_magic = wire.clone();
    bad_magic[0] = 0x05;
    assert!(Packet::from_bytes(&bad_magic).is_none());

    let mut bad_unknown = wire.clone();
    bad_unknown[2] = 0x04;
    assert!(Packet::from_bytes(&bad_unknown).is_none());

    let mut bad_command = wire.clone();
    bad_command[3] = 0x42;
    assert!(Packet::from_bytes(&bad_command).is_none());
}

#[test]
fn corrupted_payload_byte_fails_verification() {
    let wire = prepare_packet(UnknownByte::Zero, Command::SetAnimation, &[0x11, 0x22]).unwrap();
    let mut tampered = wire.clone();
    tampered[5] ^= 0xFF;
    let parsed = Packet::from_bytes(&tampered).expect("only the payload changed, it still parses");
    let err = parsed.verify_checksum().unwrap_err();
    assert!(matches!(err, ProtocolError::ChecksumMismatch { .. }));
}

#[test]
fn stale_checksum_reports_expected_and_actual() {
    let mut packet = Packet::new(UnknownByte::Zero, Command::TransactionStart);
    packet.set_payload(&[0x42]).unwrap();
    // update_checksum deliberately not called: the stored checksum is still 0
    let err = packet.verify_checksum().unwrap_err();
    assert_eq!(err, ProtocolError::ChecksumMismatch { expected: 0x43, actual: 0x00 });
}

#[test]
fn payload_of_61_bytes_is_too_large() {
    let payload = [0u8; 61];
    let mut packet = Packet::new(UnknownByte::Zero, Command::SetAnimation);
    assert_eq!(packet.set_payload(&payload), Err(ProtocolError::PayloadTooLarge));
    assert_eq!(
        prepare_packet(UnknownByte::Zero, Command::SetAnimation, &payload),
        Err(ProtocolError::PayloadTooLarge)
    );
    // 60 bytes still fit
    assert!(packet.set_payload(&payload[..60]).is_ok());
}

#[test]
fn parse_mode_aliases() {
    assert_eq!(LightingMode::from_str("wave"), Ok(LightingMode::Wave));
    assert_eq!(LightingMode::from_str("single_key"), Ok(LightingMode::SingleKey));
    assert_eq!(LightingMode::from_str("custom"), Ok(LightingMode::Custom));
    // aliases are matched case-insensitively
    assert_eq!(LightingMode::from_str("Wave"), Ok(LightingMode::Wave));
    assert_eq!(LightingMode::from_str("SINGLE_KEY"), Ok(LightingMode::SingleKey));
    assert_eq!(LightingMode::from_str("bogus"), Err(ProtocolError::InvalidEnumAlias));
    assert_eq!(LightingMode::from_str("wave "), Err(ProtocolError::InvalidEnumAlias));
}

#[test]
fn parse_speed_aliases() {
    assert_eq!(Speed::from_str("very_slow"), Ok(Speed::VerySlow));
    assert_eq!(Speed::from_str("very_fast"), Ok(Speed::VeryFast));
    assert_eq!(Speed::from_str("medium"), Ok(Speed::Medium));
    assert_eq!(Speed::from_str("Very_Slow"), Ok(Speed::VerySlow));
    assert_eq!(Speed::from_str("bogus"), Err(ProtocolError::InvalidEnumAlias));
}

#[test]
fn parse_brightness_aliases() {
    assert_eq!(Brightness::from_str("full"), Ok(Brightness::Full));
    assert_eq!(Brightness::from_str("off"), Ok(Brightness::Off));
    assert_eq!(Brightness::from_str("FULL"), Ok(Brightness::Full));
    assert_eq!(Brightness::from_str("bogus"), Err(ProtocolError::InvalidEnumAlias));
}

#[test]
fn enum_wire_codes() {
    assert_eq!(Command::TransactionStart.code(), 0x01);
    assert_eq!(Command::SetCustomLED.code(), 0x0B);
    assert_eq!(Command::Unknown1B.code(), 0x1B);
    assert_eq!(Command::from_code(0x04), None);
    assert_eq!(UnknownByte::Three.code(), 3);
    assert_eq!(UnknownByte::from_code(4), None);
    assert_eq!(LightingMode::SingleKey.code(), 0x15);
    assert_eq!(Speed::VerySlow.code(), 4);
    assert_eq!(Brightness::Off.code(), 0);
    assert_eq!(UsbPollingRate::Full.code(), 3);
}

#[test]
fn set_led_index_bounds() {
    let mut leds = CustomKeyLeds::new();
    assert!(leds.set_led(125, OwnRGB8::new(1, 2, 3)).is_ok());
    assert_eq!(leds.set_led(126, OwnRGB8::new(1, 2, 3)), Err(ProtocolError::KeyIndexOutOfBounds));
}

#[test]
fn from_leds_rejects_too_many() {
    let too_many = vec![OwnRGB8::new(1, 1, 1); 127];
    assert!(matches!(
        CustomKeyLeds::from_leds(too_many),
        Err(ProtocolError::TooManyKeys)
    ));
    assert!(CustomKeyLeds::from_leds(vec![OwnRGB8::new(1, 1, 1); 126]).is_ok());
}

#[test]
fn from_leds_pads_short_lists_with_off() {
    let leds = CustomKeyLeds::from_leds(vec![OwnRGB8::new(9, 8, 7)]).unwrap();
    let chunks = leds.get_payloads().unwrap();
    let first = chunks[0].to_vec();
    // sub-header, the one supplied color, then off for the rest
    assert_eq!(&first[..7], &[56, 0, 0, 0, 9, 8, 7]);
    assert!(first[7..].iter().all(|&b| b == 0));
}
